//! The keyword classifier: maps a form field to the profile key it asks for.
use vstd::prelude::*;
use crate::chars::{is_ascii_lower, is_ascii_upper, chars_eq, chars_of, contains_str, has_sub, join, join_vecs, push_str, string_of};
use crate::profile::FieldDescriptor;
use crate::unicode::{alphanumeric, is_alphanumeric, lowercase, to_lowercase};

verus! {

// ─── Tokenizer ──────────────────────────────────────────────────────────

/// Tokenizer state after a prefix of the input: finished tokens, the
/// token being built, and whether the previous character was an ASCII
/// lower-case letter.
pub type TokState = (Seq<Seq<char>>, Seq<char>, bool);

/// Close the token being built (if any), lower-cased.
pub open spec fn tok_flush(out: Seq<Seq<char>>, cur: Seq<char>) -> Seq<Seq<char>> {
    if cur.len() > 0 {
        out.push(lowercase(cur))
    } else {
        out
    }
}

/// One character step: a non-alphanumeric character ends the token; an
/// ASCII upper-case letter right after an ASCII lower-case one starts a
/// new token (camelCase split); alphanumerics extend the token.
pub open spec fn tok_step(st: TokState, c: char) -> TokState {
    let (out, cur, prev_lower) = st;
    if !alphanumeric(c) {
        (tok_flush(out, cur), seq![], false)
    } else if prev_lower && is_ascii_upper(c) && cur.len() > 0 {
        (tok_flush(out, cur), seq![c], is_ascii_lower(c))
    } else {
        (out, cur.push(c), is_ascii_lower(c))
    }
}

pub open spec fn tok_state(s: Seq<char>) -> TokState
    decreases s.len(),
{
    if s.len() == 0 {
        (seq![], seq![], false)
    } else {
        tok_step(tok_state(s.drop_last()), s.last())
    }
}

/// Lower-case word tokens of `s`, split on non-alphanumeric characters
/// and on camelCase transitions ("websiteLinkedIn" → website, linked, in).
pub open spec fn tokenize(s: Seq<char>) -> Seq<Seq<char>> {
    tok_flush(tok_state(s).0, tok_state(s).1)
}

fn flush_token(out: &mut Vec<Vec<char>>, cur: &mut Vec<char>)
    ensures
        final(out).deep_view() == tok_flush(old(out).deep_view(), old(cur)@),
        final(cur)@ == Seq::<char>::empty(),
{
    if cur.len() > 0 {
        let s = string_of(cur.as_slice());
        let low = to_lowercase(s.as_str());
        let t = chars_of(low.as_str());
        assert(t.deep_view() =~= t@);
        let ghost before = out.deep_view();
        out.push(t);
        assert(out.deep_view() =~= before.push(lowercase(old(cur)@)));
    }
    *cur = Vec::new();
}

pub fn tokenize_exec(s: &[char]) -> (r: Vec<Vec<char>>)
    ensures
        r.deep_view() == tokenize(s@),
{
    let mut out: Vec<Vec<char>> = Vec::new();
    let mut cur: Vec<char> = Vec::new();
    let mut prev_lower = false;
    let mut i: usize = 0;
    while i < s.len()
        invariant
            i <= s@.len(),
            (out.deep_view(), cur@, prev_lower) == tok_state(s@.take(i as int)),
        decreases s@.len() - i,
    {
        let c = s[i];
        proof {
            assert(s@.take(i + 1).drop_last() =~= s@.take(i as int));
            assert(s@.take(i + 1).last() == c);
        }
        if !is_alphanumeric(c) {
            flush_token(&mut out, &mut cur);
            prev_lower = false;
        } else {
            if prev_lower && 'A' <= c && c <= 'Z' && cur.len() > 0 {
                flush_token(&mut out, &mut cur);
            }
            cur.push(c);
            prev_lower = 'a' <= c && c <= 'z';
        }
        i += 1;
    }
    assert(s@.take(s@.len() as int) =~= s@);
    flush_token(&mut out, &mut cur);
    out
}

// ─── Classifier ─────────────────────────────────────────────────────────

/// The text the classifier searches: label, placeholder, aria-label,
/// name and id joined by single spaces, before lower-casing.
pub open spec fn raw_haystack(f: FieldDescriptor) -> Seq<char> {
    f.label@ + seq![' '] + f.placeholder@ + seq![' '] + f.aria_label@ + seq![' '] + f.name@
        + seq![' '] + f.id@
}

/// The lower-cased haystack.
pub open spec fn haystack(f: FieldDescriptor) -> Seq<char> {
    lowercase(raw_haystack(f))
}

/// The haystack's tokens joined with single spaces ("firstName",
/// "first_name", "First Name" all become "first name").
pub open spec fn normalized(f: FieldDescriptor) -> Seq<char> {
    join(tokenize(haystack(f)), seq![' '])
}

pub open spec fn hay_has(f: FieldDescriptor, needle: Seq<char>) -> bool {
    has_sub(haystack(f), needle)
}

pub open spec fn hay_word(f: FieldDescriptor, w: Seq<char>) -> bool {
    tokenize(haystack(f)).contains(w)
}

pub open spec fn hay_phrase(f: FieldDescriptor, p: Seq<char>) -> bool {
    has_sub(normalized(f), p)
}

/// The name branch: first/given/forename versus last/family/surname.
pub open spec fn name_key(f: FieldDescriptor) -> Seq<char> {
    let first_signal = hay_phrase(f, "first name"@) || hay_phrase(f, "given name"@) || hay_word(
        f,
        "forename"@,
    );
    let last_signal = hay_phrase(f, "last name"@) || hay_phrase(f, "family name"@) || hay_word(
        f,
        "surname"@,
    );
    if first_signal && !last_signal {
        "first_name"@
    } else if last_signal && !first_signal {
        "last_name"@
    } else {
        "full_name"@
    }
}

/// The profile key a field asks for, or the empty string when no rule
/// matches. Rules are tried in order; the first that matches decides.
pub open spec fn predicted_key(f: FieldDescriptor) -> Seq<char> {
    let kind = f.kind@;
    if kind == "email"@ || hay_has(f, "email"@) {
        "email"@
    } else if kind == "tel"@ || hay_has(f, "phone"@) || hay_has(f, "mobile"@) {
        "phone"@
    } else if hay_has(f, "linkedin"@) {
        "linkedin"@
    } else if hay_has(f, "github"@) {
        "github"@
    } else if hay_has(f, "gitlab"@) {
        "gitlab"@
    } else if hay_has(f, "bitbucket"@) {
        "bitbucket"@
    } else if hay_has(f, "bluesky"@) {
        "bluesky"@
    } else if hay_has(f, "mastodon"@) {
        "mastodon"@
    } else if hay_has(f, "stackoverflow"@) || hay_phrase(f, "stack overflow"@) {
        "stackoverflow"@
    } else if hay_has(f, "twitter"@) {
        "twitter"@
    } else if hay_word(f, "blog"@) {
        "blog"@
    } else if hay_has(f, "website"@) || hay_has(f, "portfolio"@) {
        "website"@
    } else if hay_has(f, "authoriz"@) || hay_has(f, "visa"@) || hay_has(f, "sponsor"@) {
        "work_authorization"@
    } else if hay_word(f, "postal"@) || hay_word(f, "postcode"@) || hay_word(f, "zip"@) {
        "postal_code"@
    } else if hay_word(f, "city"@) {
        "city"@
    } else if hay_word(f, "state"@) || hay_word(f, "province"@) || hay_word(f, "region"@) {
        "state"@
    } else if hay_word(f, "country"@) || hay_word(f, "nation"@) {
        "country"@
    } else if hay_phrase(f, "address line 2"@) || hay_phrase(f, "line 2"@) || hay_word(
        f,
        "apartment"@,
    ) || hay_word(f, "apt"@) || hay_word(f, "suite"@) {
        "street2"@
    } else if hay_word(f, "street"@) || hay_phrase(f, "address line 1"@) || hay_phrase(
        f,
        "address line"@,
    ) || hay_phrase(f, "street address"@) {
        "street1"@
    } else if hay_has(f, "address"@) {
        "address"@
    } else if (hay_has(f, "year"@) || hay_has(f, "yrs"@)) && hay_has(f, "exp"@) {
        "years_experience"@
    } else if hay_has(f, "salary"@) || hay_phrase(f, "compensation expectation"@) || hay_phrase(
        f,
        "expected compensation"@,
    ) || hay_phrase(f, "desired compensation"@) || hay_phrase(f, "expected pay"@) {
        "salary_expectation"@
    } else if hay_word(f, "surname"@) {
        "last_name"@
    } else if hay_has(f, "name"@) {
        name_key(f)
    } else if kind == "textarea"@ {
        "freetext"@
    } else {
        ""@
    }
}

/// The classifier's whole vocabulary, plus the empty "unknown" key.
pub open spec fn in_vocabulary(k: Seq<char>) -> bool {
    ||| k == "email"@
    ||| k == "phone"@
    ||| k == "linkedin"@
    ||| k == "github"@
    ||| k == "gitlab"@
    ||| k == "bitbucket"@
    ||| k == "bluesky"@
    ||| k == "mastodon"@
    ||| k == "stackoverflow"@
    ||| k == "twitter"@
    ||| k == "blog"@
    ||| k == "website"@
    ||| k == "work_authorization"@
    ||| k == "postal_code"@
    ||| k == "city"@
    ||| k == "state"@
    ||| k == "country"@
    ||| k == "street2"@
    ||| k == "street1"@
    ||| k == "address"@
    ||| k == "years_experience"@
    ||| k == "salary_expectation"@
    ||| k == "last_name"@
    ||| k == "first_name"@
    ||| k == "full_name"@
    ||| k == "freetext"@
    ||| k == ""@
}

/// The classifier never invents a key: whatever the field, the key it
/// returns is one of its fixed vocabulary or the empty "unknown" key.
pub proof fn classifier_output_is_in_vocabulary(f: FieldDescriptor)
    ensures
        in_vocabulary(predicted_key(f)),
{
}

/// An input typed `email` is always classified as the email field, and
/// one typed `tel` is the phone field unless an email signal wins first.
pub proof fn html_input_types_decide(f: FieldDescriptor)
    ensures
        f.kind@ == "email"@ ==> predicted_key(f) == "email"@,
        f.kind@ == "tel"@ && !hay_has(f, "email"@) ==> predicted_key(f) == "phone"@,
{
    reveal_strlit("tel");
    reveal_strlit("email");
}

/// Everything the classifier needs of one field, computed once.
struct Hay {
    hay: Vec<char>,
    tokens: Vec<Vec<char>>,
    norm: Vec<char>,
}

impl Hay {
    spec fn of(self, f: FieldDescriptor) -> bool {
        &&& self.hay@ == haystack(f)
        &&& self.tokens.deep_view() == tokenize(haystack(f))
        &&& self.norm@ == normalized(f)
    }

    fn has(&self, needle: &str, Ghost(f): Ghost<FieldDescriptor>) -> (r: bool)
        requires
            self.of(f),
        ensures
            r == hay_has(f, needle@),
    {
        contains_str(self.hay.as_slice(), needle)
    }

    fn has_phrase(&self, p: &str, Ghost(f): Ghost<FieldDescriptor>) -> (r: bool)
        requires
            self.of(f),
        ensures
            r == hay_phrase(f, p@),
    {
        contains_str(self.norm.as_slice(), p)
    }

    fn has_word(&self, w: &str, Ghost(f): Ghost<FieldDescriptor>) -> (r: bool)
        requires
            self.of(f),
        ensures
            r == hay_word(f, w@),
    {
        let wc = chars_of(w);
        let ghost toks = self.tokens.deep_view();
        let mut i: usize = 0;
        while i < self.tokens.len()
            invariant
                i <= self.tokens@.len(),
                self.of(f),
                toks == self.tokens.deep_view(),
                toks.len() == self.tokens@.len(),
                wc@ == w@,
                forall|j: int| 0 <= j < i ==> toks[j] != w@,
            decreases self.tokens@.len() - i,
        {
            assert(toks[i as int] =~= self.tokens@[i as int]@);
            if chars_eq(self.tokens[i].as_slice(), wc.as_slice()) {
                assert(toks[i as int] == w@);
                assert(toks.contains(w@));
                return true;
            }
            i += 1;
        }
        false
    }
}

fn haystack_exec(f: &FieldDescriptor) -> (h: Hay)
    ensures
        h.of(*f),
{
    let mut raw: Vec<char> = Vec::new();
    push_str(&mut raw, f.label.as_str());
    raw.push(' ');
    push_str(&mut raw, f.placeholder.as_str());
    raw.push(' ');
    push_str(&mut raw, f.aria_label.as_str());
    raw.push(' ');
    push_str(&mut raw, f.name.as_str());
    raw.push(' ');
    push_str(&mut raw, f.id.as_str());
    assert(raw@ =~= raw_haystack(*f));
    let raw_s = string_of(raw.as_slice());
    let low = to_lowercase(raw_s.as_str());
    let hay = chars_of(low.as_str());
    let tokens = tokenize_exec(hay.as_slice());
    let norm = join_vecs(&tokens, &[' ']);
    assert(seq![' '] =~= [' ']@);
    Hay { hay, tokens, norm }
}

/// The lower-cased haystack of a field.
pub(crate) fn lowered_haystack(f: &FieldDescriptor) -> (r: Vec<char>)
    ensures
        r@ == haystack(*f),
{
    let h = haystack_exec(f);
    h.hay
}

/// Classify one form field into the profile key it asks for; the empty
/// string means "unknown — do not fill".
pub fn predict_field_key(f: &FieldDescriptor) -> (r: &'static str)
    ensures
        r@ == predicted_key(*f),
{
    let h = haystack_exec(f);
    let g = Ghost(*f);
    let kind = chars_of(f.kind.as_str());
    let k = kind.as_slice();
    if chars_eq(k, chars_of("email").as_slice()) || h.has("email", g) {
        return "email";
    }
    if chars_eq(k, chars_of("tel").as_slice()) || h.has("phone", g) || h.has("mobile", g) {
        return "phone";
    }
    if h.has("linkedin", g) {
        return "linkedin";
    }
    if h.has("github", g) {
        return "github";
    }
    if h.has("gitlab", g) {
        return "gitlab";
    }
    if h.has("bitbucket", g) {
        return "bitbucket";
    }
    if h.has("bluesky", g) {
        return "bluesky";
    }
    if h.has("mastodon", g) {
        return "mastodon";
    }
    if h.has("stackoverflow", g) || h.has_phrase("stack overflow", g) {
        return "stackoverflow";
    }
    if h.has("twitter", g) {
        return "twitter";
    }
    if h.has_word("blog", g) {
        return "blog";
    }
    if h.has("website", g) || h.has("portfolio", g) {
        return "website";
    }
    if h.has("authoriz", g) || h.has("visa", g) || h.has("sponsor", g) {
        return "work_authorization";
    }
    if h.has_word("postal", g) || h.has_word("postcode", g) || h.has_word("zip", g) {
        return "postal_code";
    }
    if h.has_word("city", g) {
        return "city";
    }
    if h.has_word("state", g) || h.has_word("province", g) || h.has_word("region", g) {
        return "state";
    }
    if h.has_word("country", g) || h.has_word("nation", g) {
        return "country";
    }
    if h.has_phrase("address line 2", g) || h.has_phrase("line 2", g) || h.has_word(
        "apartment",
        g,
    ) || h.has_word("apt", g) || h.has_word("suite", g) {
        return "street2";
    }
    if h.has_word("street", g) || h.has_phrase("address line 1", g) || h.has_phrase(
        "address line",
        g,
    ) || h.has_phrase("street address", g) {
        return "street1";
    }
    if h.has("address", g) {
        return "address";
    }
    if (h.has("year", g) || h.has("yrs", g)) && h.has("exp", g) {
        return "years_experience";
    }
    if h.has("salary", g) || h.has_phrase("compensation expectation", g) || h.has_phrase(
        "expected compensation",
        g,
    ) || h.has_phrase("desired compensation", g) || h.has_phrase("expected pay", g) {
        return "salary_expectation";
    }
    if h.has_word("surname", g) {
        return "last_name";
    }
    if h.has("name", g) {
        let first_signal = h.has_phrase("first name", g) || h.has_phrase("given name", g)
            || h.has_word("forename", g);
        let last_signal = h.has_phrase("last name", g) || h.has_phrase("family name", g)
            || h.has_word("surname", g);
        if first_signal && !last_signal {
            return "first_name";
        }
        if last_signal && !first_signal {
            return "last_name";
        }
        return "full_name";
    }
    if chars_eq(k, chars_of("textarea").as_slice()) {
        return "freetext";
    }
    ""
}


/// The field carries no signal of a key ranked before the address parts:
/// it is no email or phone field and names no platform, blog, website,
/// portfolio or work-authorization question.
pub open spec fn no_signal_before_address(f: FieldDescriptor) -> bool {
    &&& f.kind@ != "email"@
    &&& f.kind@ != "tel"@
    &&& !hay_has(f, "email"@)
    &&& !hay_has(f, "phone"@)
    &&& !hay_has(f, "mobile"@)
    &&& !hay_has(f, "linkedin"@)
    &&& !hay_has(f, "github"@)
    &&& !hay_has(f, "gitlab"@)
    &&& !hay_has(f, "bitbucket"@)
    &&& !hay_has(f, "bluesky"@)
    &&& !hay_has(f, "mastodon"@)
    &&& !hay_has(f, "stackoverflow"@)
    &&& !hay_phrase(f, "stack overflow"@)
    &&& !hay_has(f, "twitter"@)
    &&& !hay_word(f, "blog"@)
    &&& !hay_has(f, "website"@)
    &&& !hay_has(f, "portfolio"@)
    &&& !hay_has(f, "authoriz"@)
    &&& !hay_has(f, "visa"@)
    &&& !hay_has(f, "sponsor"@)
}

/// A field whose words include `zip`, `postal` or `postcode` asks for the
/// postal code, unless it also carries the signal of a key ranked before
/// it. Among the other address parts, in that order, `city` asks for the
/// city; `state`, `province` or `region` for the state; `country` or
/// `nation` for the country.
pub proof fn zip_fields_are_postal_codes(f: FieldDescriptor)
    requires
        no_signal_before_address(f),
    ensures
        hay_word(f, "zip"@) || hay_word(f, "postal"@) || hay_word(f, "postcode"@) ==> predicted_key(f)
            == "postal_code"@,
        !hay_word(f, "zip"@) && !hay_word(f, "postal"@) && !hay_word(f, "postcode"@) && hay_word(
            f,
            "city"@,
        ) ==> predicted_key(f) == "city"@,
        !hay_word(f, "zip"@) && !hay_word(f, "postal"@) && !hay_word(f, "postcode"@) && !hay_word(
            f,
            "city"@,
        ) && (hay_word(f, "state"@) || hay_word(f, "province"@) || hay_word(f, "region"@))
            ==> predicted_key(f) == "state"@,
        !hay_word(f, "zip"@) && !hay_word(f, "postal"@) && !hay_word(f, "postcode"@) && !hay_word(
            f,
            "city"@,
        ) && !hay_word(f, "state"@) && !hay_word(f, "province"@) && !hay_word(f, "region"@) && (
        hay_word(f, "country"@) || hay_word(f, "nation"@)) ==> predicted_key(f) == "country"@,
{
}


/// Contact fields win over every other reading: an email input, or a
/// field that mentions `email`, asks for the email; otherwise a telephone
/// input, or a field that mentions `phone` or `mobile`, asks for the phone.
pub proof fn contact_fields_come_first(f: FieldDescriptor)
    ensures
        f.kind@ == "email"@ || hay_has(f, "email"@) ==> predicted_key(f) == "email"@,
        f.kind@ != "email"@ && !hay_has(f, "email"@) && (f.kind@ == "tel"@ || hay_has(f, "phone"@)
            || hay_has(f, "mobile"@)) ==> predicted_key(f) == "phone"@,
{
}

} // verus!
