//! Text on its way to the host.
//!
//! The host reads text as a run of bytes that ends at the first zero byte.
//! Text that holds a zero byte cannot be written that way, and the host is
//! handed nothing in its place.

use vstd::prelude::*;
use vstd::string::StringSliceAdditionalSpecFns;

verus! {

/// The zero-terminated form of `text`: `text` with one zero byte behind it,
/// unless `text` holds a zero byte itself.
pub open spec fn c_string_of(text: Seq<u8>) -> Option<Seq<u8>> {
    if text.contains(0u8) {
        None
    } else {
        Some(text.push(0u8))
    }
}

/// What [`get_cstr`] returns for `s`, as a sequence of bytes.
pub open spec fn spec_get_cstr(s: Option<&str>) -> Option<Seq<u8>> {
    match s {
        Some(text) => c_string_of(text.spec_bytes()),
        None => None,
    }
}

/// The bytes to hand to the host for `s`: its UTF-8 bytes and a closing
/// zero. Absent text, and text with a zero byte in it, give `None`.
pub fn get_cstr(s: Option<&str>) -> (r: Option<Vec<u8>>)
    ensures
        r is Some <==> spec_get_cstr(s) is Some,
        r matches Some(bytes) ==> spec_get_cstr(s) == Some(bytes@),
{
    match s {
        None => None,
        Some(text) => {
            let bytes = text.as_bytes();
            let mut out: Vec<u8> = Vec::new();
            let mut i: usize = 0;
            while i < bytes.len()
                invariant
                    s == Some(text),
                    bytes@ == text.spec_bytes(),
                    i <= bytes@.len(),
                    out@ == bytes@.subrange(0, i as int),
                    !out@.contains(0u8),
                decreases bytes@.len() - i,
            {
                let b = bytes[i];
                if b == 0 {
                    assert(bytes@[i as int] == 0u8);
                    assert(bytes@.contains(0u8));
                    return None;
                }
                let ghost before = out@;
                out.push(b);
                assert(out@ =~= bytes@.subrange(0, i + 1));
                assert(!out@.contains(0u8)) by {
                    if out@.contains(0u8) {
                        let k = choose|k: int| 0 <= k < out@.len() && out@[k] == 0u8;
                        if k < before.len() {
                            assert(before[k] == 0u8);
                            assert(before.contains(0u8));
                        }
                    }
                }
                i += 1;
            }
            assert(out@ =~= bytes@);
            out.push(0);
            Some(out)
        },
    }
}

} // verus!
