use plumber_rs::plumber_api_call::get_cstr;
use plumber_rs::rust_servlet::make_argument_list;

#[test]
fn valid_arguments_keep_order_and_content() {
    let argv = vec![
        Some(b"servlet".to_vec()),
        Some(b"--port".to_vec()),
        Some(b"8080".to_vec()),
    ];
    let args = make_argument_list(&argv).unwrap();
    assert_eq!(args, vec!["servlet", "--port", "8080"]);
}

#[test]
fn multibyte_text_is_decoded_exactly() {
    let argv = vec![
        Some("gr\u{fc}\u{df}e".as_bytes().to_vec()),
        Some("\u{65e5}\u{672c}\u{8a9e}".as_bytes().to_vec()),
        Some("\u{1f600}".as_bytes().to_vec()),
        Some(Vec::new()),
    ];
    let args = make_argument_list(&argv).unwrap();
    assert_eq!(args.len(), 4);
    assert_eq!(args[0], "gr\u{fc}\u{df}e");
    assert_eq!(args[1], "\u{65e5}\u{672c}\u{8a9e}");
    assert_eq!(args[2], "\u{1f600}");
    assert_eq!(args[3], "");
    for (arg, raw) in args.iter().zip(argv.iter()) {
        assert_eq!(arg.as_bytes(), raw.as_ref().unwrap().as_slice());
    }
}

#[test]
fn empty_argument_vector_gives_empty_list() {
    let argv: Vec<Option<Vec<u8>>> = Vec::new();
    assert_eq!(make_argument_list(&argv), Some(Vec::new()));
}

#[test]
fn one_invalid_argument_fails_the_whole_list() {
    let argv = vec![Some(b"ok".to_vec()), Some(vec![0x66, 0xFF, 0x6F]), Some(b"fine".to_vec())];
    assert_eq!(make_argument_list(&argv), None);
    let last = vec![Some(b"ok".to_vec()), Some(vec![0xC3])];
    assert_eq!(make_argument_list(&last), None);
}

#[test]
fn ill_formed_encodings_are_refused() {
    // an overlong form, a surrogate, a value above the last scalar, a stray continuation
    for bad in [vec![0xC0u8, 0xAF], vec![0xED, 0xA0, 0x80], vec![0xF4, 0x90, 0x80, 0x80], vec![0x80]] {
        assert_eq!(make_argument_list(&vec![Some(bad)]), None);
    }
}

#[test]
fn missing_argument_fails_the_whole_list() {
    let argv = vec![Some(b"one".to_vec()), None];
    assert_eq!(make_argument_list(&argv), None);
    assert_eq!(make_argument_list(&vec![None]), None);
}

#[test]
fn c_string_has_the_bytes_and_a_closing_zero() {
    assert_eq!(get_cstr(Some("input")), Some(b"input\0".to_vec()));
    assert_eq!(get_cstr(Some("")), Some(vec![0]));
    assert_eq!(get_cstr(Some("\u{e9}")), Some(vec![0xC3, 0xA9, 0]));
}

#[test]
fn text_with_a_zero_byte_has_no_c_string() {
    assert_eq!(get_cstr(Some("in\0put")), None);
    assert_eq!(get_cstr(Some("\0")), None);
    assert_eq!(get_cstr(Some("tail\0")), None);
}

#[test]
fn absent_text_has_no_c_string() {
    assert_eq!(get_cstr(None), None);
}
