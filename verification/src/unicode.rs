//! Unicode case mapping and character properties, as std computes them.
//!
//! These come from std's Unicode tables; the library names their results
//! and states only what holds on the ASCII range, where the tables agree
//! with the ASCII definitions.
use vstd::prelude::*;
use crate::chars::{all_ascii, ascii_lower_seq, is_ascii_alnum, is_ascii_char, is_ascii_lower, is_ascii_upper};

verus! {

/// What `str::to_lowercase` returns for a string with these characters.
pub uninterp spec fn lowercase(s: Seq<char>) -> Seq<char>;

/// What `char::is_alphanumeric` returns (Unicode `Alphabetic` or `Numeric`).
pub uninterp spec fn alphanumeric(c: char) -> bool;

/// What `char::is_alphabetic` returns (Unicode `Alphabetic`).
pub uninterp spec fn alphabetic(c: char) -> bool;

/// `str::to_lowercase`: the Unicode lower-case mapping of the string.
/// Stated here: the result is the named `lowercase` of the input, and on
/// an all-ASCII input it is the ASCII lower-casing.
#[verifier::external_body]
pub(crate) fn to_lowercase(s: &str) -> (r: String)
    ensures
        r@ == lowercase(s@),
        all_ascii(s@) ==> r@ == ascii_lower_seq(s@),
{
    s.to_lowercase()
}

/// `char::is_alphanumeric`. Stated here: the result is the named
/// `alphanumeric` of the character, and on ASCII it is `[0-9A-Za-z]`.
#[verifier::external_body]
pub(crate) fn is_alphanumeric(c: char) -> (r: bool)
    ensures
        r == alphanumeric(c),
        is_ascii_char(c) ==> (r == is_ascii_alnum(c)),
{
    c.is_alphanumeric()
}

/// `char::is_alphabetic`. Stated here: the result is the named
/// `alphabetic` of the character, and on ASCII it is `[A-Za-z]`.
#[verifier::external_body]
pub(crate) fn is_alphabetic(c: char) -> (r: bool)
    ensures
        r == alphabetic(c),
        is_ascii_char(c) ==> (r == (is_ascii_upper(c) || is_ascii_lower(c))),
{
    c.is_alphabetic()
}

} // verus!
