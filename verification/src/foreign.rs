//! Outside types the library carries through without looking inside, and
//! the few calls it makes on them.
use vstd::prelude::*;

verus! {

#[verifier::external_type_specification]
#[verifier::external_body]
pub struct ExIoError(std::io::Error);

#[verifier::external_type_specification]
#[verifier::external_body]
pub struct ExAnyhowError(anyhow::Error);

/// What `Display` writes for an `anyhow::Error`: its outermost message.
/// The error wraps arbitrary causes, so nothing is claimed of the text.
#[verifier::external_body]
pub(crate) fn anyhow_error_text(e: &anyhow::Error) -> String {
    e.to_string()
}

/// What `Display` writes for an `std::io::Error` (`e.to_string()`). For an
/// error from the operating system that text comes from the platform, so
/// nothing is claimed of it.
#[verifier::external_body]
pub(crate) fn io_error_text(e: &std::io::Error) -> String {
    e.to_string()
}

/// What `{:?}` writes for a string slice.
pub uninterp spec fn debug_quoted(s: Seq<char>) -> Seq<char>;

/// `format!("{s:?}")` on a string slice: the text in double quotes, with
/// quotes, backslashes and control characters escaped. On text of ASCII
/// letters and digits only nothing is escaped.
#[verifier::external_body]
pub(crate) fn debug_str(s: &str) -> (r: String)
    ensures
        r@ == debug_quoted(s@),
        crate::chars::all_alnum(s@) ==> r@ == seq!['"'] + s@ + seq!['"'],
{
    format!("{s:?}")
}

#[verifier::external_type_specification]
#[verifier::external_body]
pub struct ExPathBuf(std::path::PathBuf);

/// `PathBuf::clone`: a copy of the path. Nothing more is stated.
pub assume_specification[ <std::path::PathBuf as Clone>::clone ](p: &std::path::PathBuf) -> std::path::PathBuf;

#[verifier::external_type_specification]
#[verifier::external_body]
pub struct ExJsonError(serde_json::Error);

/// What `Display` writes for a `serde_json::Error`: the cause and the
/// line and column. Nothing is claimed of the text.
#[verifier::external_body]
pub(crate) fn json_error_text(e: &serde_json::Error) -> String {
    e.to_string()
}

#[verifier::external_type_specification]
#[verifier::external_body]
pub struct ExBase64DecodeError(base64::DecodeError);

/// What `Display` writes for a `base64::DecodeError`: the kind of fault
/// and where it is. Nothing is claimed of the text.
#[verifier::external_body]
pub(crate) fn base64_error_text(e: &base64::DecodeError) -> String {
    e.to_string()
}

} // verus!
