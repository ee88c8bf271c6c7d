//! Small helpers for moving between byte sequences and strings.
//!
//! The scanner works on UTF-8 bytes; candidate addresses are pure ASCII,
//! so the conversions here are one-to-one on the texts the library emits.

use vstd::prelude::*;

verus! {

/// The characters of an ASCII byte sequence, one character per byte.
pub open spec fn ascii_seq(bs: Seq<u8>) -> Seq<char> {
    Seq::new(bs.len(), |k: int| bs[k] as char)
}

/// Relies on String::from_utf8_lossy: ASCII bytes are valid UTF-8 and
/// come back as the same characters, one per byte.
#[verifier::external_body]
pub fn ascii_bytes_to_string(bs: &[u8]) -> (r: String)
    requires
        forall|k: int| 0 <= k < bs@.len() ==> bs@[k] < 128,
    ensures
        r@ == ascii_seq(bs@),
{
    String::from_utf8_lossy(bs).into_owned()
}

/// Clone an optional string; the copy equals the original.
pub fn clone_opt_string(o: &Option<String>) -> (r: Option<String>)
    ensures
        r == *o,
{
    match o {
        Option::Some(s) => Option::Some(s.clone()),
        Option::None => Option::None,
    }
}

/// Relies on str's PartialEq: two string slices are equal exactly when
/// their character sequences are.
#[verifier::external_body]
pub fn str_eq(a: &str, b: &str) -> (r: bool)
    ensures
        r == (a@ == b@),
{
    a == b
}

} // verus!
