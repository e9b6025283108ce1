use plumber_rs::servlet::{fail, success};

#[test]
fn success_is_ok() {
    assert_eq!(success(), Ok(()));
}

#[test]
fn fail_is_err() {
    assert_eq!(fail(), Err(()));
}
