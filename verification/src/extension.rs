//! The field classifier of the browser extension's WebAssembly build: a
//! coarser keyword union over the same haystack, with no input-type or
//! word rules, where every name field asks for the full name. Unknown
//! fields get the empty key, never a guess.
use vstd::prelude::*;
use crate::chars::contains_str;
use crate::classify::{hay_has, lowered_haystack};
use crate::profile::FieldDescriptor;

verus! {

/// The key the extension's classifier gives a field; empty for unknown.
pub open spec fn extension_key(f: FieldDescriptor) -> Seq<char> {
    if hay_has(f, "email"@) {
        "email"@
    } else if hay_has(f, "phone"@) || hay_has(f, "mobile"@) || hay_has(f, "tel"@) {
        "phone"@
    } else if hay_has(f, "linkedin"@) {
        "linkedin"@
    } else if hay_has(f, "github"@) {
        "github"@
    } else if hay_has(f, "website"@) || hay_has(f, "portfolio"@) || hay_has(f, "url"@) {
        "website"@
    } else if hay_has(f, "address"@) || hay_has(f, "street"@) || hay_has(f, "city"@) || hay_has(f, "zip"@) {
        "address"@
    } else if hay_has(f, "authoriz"@) || hay_has(f, "visa"@) || hay_has(f, "sponsor"@) || hay_has(
        f,
        "work_auth"@,
    ) {
        "work_authorization"@
    } else if (hay_has(f, "year"@) || hay_has(f, "yrs"@)) && hay_has(f, "exp"@) {
        "years_experience"@
    } else if hay_has(f, "name"@) {
        "full_name"@
    } else {
        ""@
    }
}

/// Classify a field the way the extension does.
pub fn predict_field_key(f: &FieldDescriptor) -> (r: &'static str)
    ensures
        r@ == extension_key(*f),
{
    let h = lowered_haystack(f);
    let has = |needle: &str| -> (b: bool)
        ensures
            b == hay_has(*f, needle@),
        { contains_str(h.as_slice(), needle) };
    if has("email") {
        "email"
    } else if has("phone") || has("mobile") || has("tel") {
        "phone"
    } else if has("linkedin") {
        "linkedin"
    } else if has("github") {
        "github"
    } else if has("website") || has("portfolio") || has("url") {
        "website"
    } else if has("address") || has("street") || has("city") || has("zip") {
        "address"
    } else if has("authoriz") || has("visa") || has("sponsor") || has("work_auth") {
        "work_authorization"
    } else if (has("year") || has("yrs")) && has("exp") {
        "years_experience"
    } else if has("name") {
        "full_name"
    } else {
        ""
    }
}

/// The extension never guesses: a field whose haystack holds none of its
/// keywords gets the empty key.
pub proof fn unknown_fields_get_no_key(f: FieldDescriptor)
    requires
        !hay_has(f, "email"@),
        !hay_has(f, "phone"@),
        !hay_has(f, "mobile"@),
        !hay_has(f, "tel"@),
        !hay_has(f, "linkedin"@),
        !hay_has(f, "github"@),
        !hay_has(f, "website"@),
        !hay_has(f, "portfolio"@),
        !hay_has(f, "url"@),
        !hay_has(f, "address"@),
        !hay_has(f, "street"@),
        !hay_has(f, "city"@),
        !hay_has(f, "zip"@),
        !hay_has(f, "authoriz"@),
        !hay_has(f, "visa"@),
        !hay_has(f, "sponsor"@),
        !hay_has(f, "work_auth"@),
        !(hay_has(f, "exp"@) && (hay_has(f, "year"@) || hay_has(f, "yrs"@))),
        !hay_has(f, "name"@),
    ensures
        extension_key(f).len() == 0,
{
    reveal_strlit("");
}

} // verus!
