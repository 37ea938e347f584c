//! The profile value for a classified field key.
use vstd::prelude::*;
use crate::chars::str_eq;
use crate::profile::Profile;

verus! {

/// The value a field key draws from: the matching profile field, or for
/// a few keys a fallback field when that one is empty (first and last name
/// fall back to the full name, address parts to the one-line address, the
/// portfolio to the website). Unknown keys, and the salary expectation,
/// draw nothing.
pub open spec fn key_text(p: Profile, key: Seq<char>) -> Seq<char> {
    if key == "full_name"@ {
        p.full_name@
    } else if key == "first_name"@ {
        if p.first_name@.len() == 0 {
            p.full_name@
        } else {
            p.first_name@
        }
    } else if key == "last_name"@ {
        if p.last_name@.len() == 0 {
            p.full_name@
        } else {
            p.last_name@
        }
    } else if key == "email"@ {
        p.email@
    } else if key == "phone"@ {
        p.phone@
    } else if key == "street1"@ {
        if p.street1@.len() == 0 {
            p.address@
        } else {
            p.street1@
        }
    } else if key == "street2"@ {
        p.street2@
    } else if key == "city"@ {
        if p.city@.len() == 0 {
            p.address@
        } else {
            p.city@
        }
    } else if key == "state"@ {
        if p.state@.len() == 0 {
            p.address@
        } else {
            p.state@
        }
    } else if key == "postal_code"@ {
        if p.postal_code@.len() == 0 {
            p.address@
        } else {
            p.postal_code@
        }
    } else if key == "country"@ {
        p.country@
    } else if key == "address"@ {
        p.address@
    } else if key == "linkedin"@ {
        p.linkedin@
    } else if key == "github"@ {
        p.github@
    } else if key == "website"@ {
        p.website@
    } else if key == "gitlab"@ {
        p.presence.gitlab@
    } else if key == "bitbucket"@ {
        p.presence.bitbucket@
    } else if key == "blog"@ {
        p.presence.blog@
    } else if key == "twitter"@ {
        p.presence.twitter@
    } else if key == "bluesky"@ {
        p.presence.bluesky@
    } else if key == "mastodon"@ {
        p.presence.mastodon@
    } else if key == "stackoverflow"@ {
        p.presence.stackoverflow@
    } else if key == "portfolio"@ {
        if p.presence.portfolio@.len() == 0 {
            p.website@
        } else {
            p.presence.portfolio@
        }
    } else if key == "work_authorization"@ {
        p.work_authorization@
    } else {
        seq![]
    }
}

/// The profile's value for a key: `None` when it is empty.
pub open spec fn value_for(p: Profile, key: Seq<char>) -> Option<Seq<char>> {
    if key_text(p, key).len() == 0 {
        None
    } else {
        Some(key_text(p, key))
    }
}

fn or_fallback<'a>(s: &'a String, f: &'a String) -> (r: &'a str)
    ensures
        r@ == if s@.len() == 0 {
            f@
        } else {
            s@
        },
{
    if s.as_str().is_empty() {
        f.as_str()
    } else {
        s.as_str()
    }
}

/// The value to fill for a classified key, from the profile; `None` for
/// unknown keys, for the salary expectation (which needs formatting), and
/// for empty values.
pub fn profile_value_for_key<'a>(profile: &'a Profile, key: &str) -> (r: Option<&'a str>)
    ensures
        match r {
            Some(v) => value_for(*profile, key@) == Some(v@),
            None => value_for(*profile, key@) is None,
        },
{
    let p = profile;
    let v: &str = 
    if str_eq(key, "full_name") {
        p.full_name.as_str()
    } else if str_eq(key, "first_name") {
        or_fallback(&p.first_name, &p.full_name)
    } else if str_eq(key, "last_name") {
        or_fallback(&p.last_name, &p.full_name)
    } else if str_eq(key, "email") {
        p.email.as_str()
    } else if str_eq(key, "phone") {
        p.phone.as_str()
    } else if str_eq(key, "street1") {
        or_fallback(&p.street1, &p.address)
    } else if str_eq(key, "street2") {
        p.street2.as_str()
    } else if str_eq(key, "city") {
        or_fallback(&p.city, &p.address)
    } else if str_eq(key, "state") {
        or_fallback(&p.state, &p.address)
    } else if str_eq(key, "postal_code") {
        or_fallback(&p.postal_code, &p.address)
    } else if str_eq(key, "country") {
        p.country.as_str()
    } else if str_eq(key, "address") {
        p.address.as_str()
    } else if str_eq(key, "linkedin") {
        p.linkedin.as_str()
    } else if str_eq(key, "github") {
        p.github.as_str()
    } else if str_eq(key, "website") {
        p.website.as_str()
    } else if str_eq(key, "gitlab") {
        p.presence.gitlab.as_str()
    } else if str_eq(key, "bitbucket") {
        p.presence.bitbucket.as_str()
    } else if str_eq(key, "blog") {
        p.presence.blog.as_str()
    } else if str_eq(key, "twitter") {
        p.presence.twitter.as_str()
    } else if str_eq(key, "bluesky") {
        p.presence.bluesky.as_str()
    } else if str_eq(key, "mastodon") {
        p.presence.mastodon.as_str()
    } else if str_eq(key, "stackoverflow") {
        p.presence.stackoverflow.as_str()
    } else if str_eq(key, "portfolio") {
        or_fallback(&p.presence.portfolio, &p.website)
    } else if str_eq(key, "work_authorization") {
        p.work_authorization.as_str()
    } else {
        return None;
    };
    if v.is_empty() {
        None
    } else {
        Some(v)
    }
}


/// A first or last name field takes the profile's own first or last name
/// when there is one, and the full name only when that part is empty;
/// with both empty there is nothing to fill.
pub proof fn name_parts_fall_back_to_the_full_name(p: Profile)
    ensures
        value_for(p, "last_name"@) == if p.last_name@.len() > 0 {
            Some(p.last_name@)
        } else if p.full_name@.len() > 0 {
            Some(p.full_name@)
        } else {
            None::<Seq<char>>
        },
        value_for(p, "first_name"@) == if p.first_name@.len() > 0 {
            Some(p.first_name@)
        } else if p.full_name@.len() > 0 {
            Some(p.full_name@)
        } else {
            None::<Seq<char>>
        },
{
    reveal_strlit("full_name");
    reveal_strlit("first_name");
    reveal_strlit("last_name");
    assert("last_name"@[0] != "full_name"@[0]);
    assert("last_name"@[0] != "first_name"@[0]);
    assert("first_name"@[1] != "full_name"@[1]);
}


/// A text as a value to fill: `None` when it is empty.
pub open spec fn text_if_any(s: Seq<char>) -> Option<Seq<char>> {
    if s.len() > 0 {
        Some(s)
    } else {
        None
    }
}

/// Each key draws on its own profile field, and the address parts and
/// the portfolio fall back to the one-line address and the website only
/// when their own field is empty.
pub proof fn keys_draw_on_their_own_fields(p: Profile)
    ensures
        value_for(p, "email"@) == text_if_any(p.email@),
        value_for(p, "phone"@) == text_if_any(p.phone@),
        value_for(p, "street2"@) == text_if_any(p.street2@),
        value_for(p, "country"@) == text_if_any(p.country@),
        value_for(p, "address"@) == text_if_any(p.address@),
        value_for(p, "linkedin"@) == text_if_any(p.linkedin@),
        value_for(p, "github"@) == text_if_any(p.github@),
        value_for(p, "website"@) == text_if_any(p.website@),
        value_for(p, "work_authorization"@) == text_if_any(p.work_authorization@),
        value_for(p, "full_name"@) == text_if_any(p.full_name@),
        value_for(p, "gitlab"@) == text_if_any(p.presence.gitlab@),
        value_for(p, "bitbucket"@) == text_if_any(p.presence.bitbucket@),
        value_for(p, "blog"@) == text_if_any(p.presence.blog@),
        value_for(p, "twitter"@) == text_if_any(p.presence.twitter@),
        value_for(p, "bluesky"@) == text_if_any(p.presence.bluesky@),
        value_for(p, "mastodon"@) == text_if_any(p.presence.mastodon@),
        value_for(p, "stackoverflow"@) == text_if_any(p.presence.stackoverflow@),
        value_for(p, "street1"@) == if p.street1@.len() > 0 { Some(p.street1@) } else { text_if_any(p.address@) },
        value_for(p, "city"@) == if p.city@.len() > 0 { Some(p.city@) } else { text_if_any(p.address@) },
        value_for(p, "state"@) == if p.state@.len() > 0 { Some(p.state@) } else { text_if_any(p.address@) },
        value_for(p, "postal_code"@) == if p.postal_code@.len() > 0 { Some(p.postal_code@) } else { text_if_any(p.address@) },
        value_for(p, "portfolio"@) == if p.presence.portfolio@.len() > 0 { Some(p.presence.portfolio@) } else { text_if_any(p.website@) },
{
    reveal_strlit("full_name");
    reveal_strlit("first_name");
    reveal_strlit("last_name");
    reveal_strlit("email");
    reveal_strlit("phone");
    reveal_strlit("street1");
    reveal_strlit("street2");
    reveal_strlit("city");
    reveal_strlit("state");
    reveal_strlit("postal_code");
    reveal_strlit("country");
    reveal_strlit("address");
    reveal_strlit("linkedin");
    reveal_strlit("github");
    reveal_strlit("website");
    reveal_strlit("gitlab");
    reveal_strlit("bitbucket");
    reveal_strlit("blog");
    reveal_strlit("twitter");
    reveal_strlit("bluesky");
    reveal_strlit("mastodon");
    reveal_strlit("stackoverflow");
    reveal_strlit("portfolio");
    reveal_strlit("work_authorization");
    assert("first_name"@ != "full_name"@) by {
        assert("first_name"@.len() != "full_name"@.len());
    }
    assert("last_name"@ != "full_name"@ && "last_name"@ != "first_name"@) by {
        assert("last_name"@[0] != "full_name"@[0] && "last_name"@.len() != "first_name"@.len());
    }
    assert("email"@ != "full_name"@ && "email"@ != "first_name"@ && "email"@ != "last_name"@) by {
        assert("email"@.len() != "full_name"@.len() && "email"@.len() != "first_name"@.len() && "email"@.len() != "last_name"@.len());
    }
    assert("phone"@ != "full_name"@ && "phone"@ != "first_name"@ && "phone"@ != "last_name"@ && "phone"@ != "email"@) by {
        assert("phone"@.len() != "full_name"@.len() && "phone"@.len() != "first_name"@.len() && "phone"@.len() != "last_name"@.len() && "phone"@[0] != "email"@[0]);
    }
    assert("street1"@ != "full_name"@ && "street1"@ != "first_name"@ && "street1"@ != "last_name"@ && "street1"@ != "email"@ && "street1"@ != "phone"@) by {
        assert("street1"@.len() != "full_name"@.len() && "street1"@.len() != "first_name"@.len() && "street1"@.len() != "last_name"@.len() && "street1"@.len() != "email"@.len() && "street1"@.len() != "phone"@.len());
    }
    assert("street2"@ != "full_name"@ && "street2"@ != "first_name"@ && "street2"@ != "last_name"@ && "street2"@ != "email"@ && "street2"@ != "phone"@ && "street2"@ != "street1"@) by {
        assert("street2"@.len() != "full_name"@.len() && "street2"@.len() != "first_name"@.len() && "street2"@.len() != "last_name"@.len() && "street2"@.len() != "email"@.len() && "street2"@.len() != "phone"@.len() && "street2"@[6] != "street1"@[6]);
    }
    assert("city"@ != "full_name"@ && "city"@ != "first_name"@ && "city"@ != "last_name"@ && "city"@ != "email"@ && "city"@ != "phone"@ && "city"@ != "street1"@ && "city"@ != "street2"@) by {
        assert("city"@.len() != "full_name"@.len() && "city"@.len() != "first_name"@.len() && "city"@.len() != "last_name"@.len() && "city"@.len() != "email"@.len() && "city"@.len() != "phone"@.len() && "city"@.len() != "street1"@.len() && "city"@.len() != "street2"@.len());
    }
    assert("state"@ != "full_name"@ && "state"@ != "first_name"@ && "state"@ != "last_name"@ && "state"@ != "email"@ && "state"@ != "phone"@ && "state"@ != "street1"@ && "state"@ != "street2"@ && "state"@ != "city"@) by {
        assert("state"@.len() != "full_name"@.len() && "state"@.len() != "first_name"@.len() && "state"@.len() != "last_name"@.len() && "state"@[0] != "email"@[0] && "state"@[0] != "phone"@[0] && "state"@.len() != "street1"@.len() && "state"@.len() != "street2"@.len() && "state"@.len() != "city"@.len());
    }
    assert("postal_code"@ != "full_name"@ && "postal_code"@ != "first_name"@ && "postal_code"@ != "last_name"@ && "postal_code"@ != "email"@ && "postal_code"@ != "phone"@ && "postal_code"@ != "street1"@ && "postal_code"@ != "street2"@ && "postal_code"@ != "city"@ && "postal_code"@ != "state"@) by {
        assert("postal_code"@.len() != "full_name"@.len() && "postal_code"@.len() != "first_name"@.len() && "postal_code"@.len() != "last_name"@.len() && "postal_code"@.len() != "email"@.len() && "postal_code"@.len() != "phone"@.len() && "postal_code"@.len() != "street1"@.len() && "postal_code"@.len() != "street2"@.len() && "postal_code"@.len() != "city"@.len() && "postal_code"@.len() != "state"@.len());
    }
    assert("country"@ != "full_name"@ && "country"@ != "first_name"@ && "country"@ != "last_name"@ && "country"@ != "email"@ && "country"@ != "phone"@ && "country"@ != "street1"@ && "country"@ != "street2"@ && "country"@ != "city"@ && "country"@ != "state"@ && "country"@ != "postal_code"@) by {
        assert("country"@.len() != "full_name"@.len() && "country"@.len() != "first_name"@.len() && "country"@.len() != "last_name"@.len() && "country"@.len() != "email"@.len() && "country"@.len() != "phone"@.len() && "country"@[0] != "street1"@[0] && "country"@[0] != "street2"@[0] && "country"@.len() != "city"@.len() && "country"@.len() != "state"@.len() && "country"@.len() != "postal_code"@.len());
    }
    assert("address"@ != "full_name"@ && "address"@ != "first_name"@ && "address"@ != "last_name"@ && "address"@ != "email"@ && "address"@ != "phone"@ && "address"@ != "street1"@ && "address"@ != "street2"@ && "address"@ != "city"@ && "address"@ != "state"@ && "address"@ != "postal_code"@ && "address"@ != "country"@) by {
        assert("address"@.len() != "full_name"@.len() && "address"@.len() != "first_name"@.len() && "address"@.len() != "last_name"@.len() && "address"@.len() != "email"@.len() && "address"@.len() != "phone"@.len() && "address"@[0] != "street1"@[0] && "address"@[0] != "street2"@[0] && "address"@.len() != "city"@.len() && "address"@.len() != "state"@.len() && "address"@.len() != "postal_code"@.len() && "address"@[0] != "country"@[0]);
    }
    assert("linkedin"@ != "full_name"@ && "linkedin"@ != "first_name"@ && "linkedin"@ != "last_name"@ && "linkedin"@ != "email"@ && "linkedin"@ != "phone"@ && "linkedin"@ != "street1"@ && "linkedin"@ != "street2"@ && "linkedin"@ != "city"@ && "linkedin"@ != "state"@ && "linkedin"@ != "postal_code"@ && "linkedin"@ != "country"@ && "linkedin"@ != "address"@) by {
        assert("linkedin"@.len() != "full_name"@.len() && "linkedin"@.len() != "first_name"@.len() && "linkedin"@.len() != "last_name"@.len() && "linkedin"@.len() != "email"@.len() && "linkedin"@.len() != "phone"@.len() && "linkedin"@.len() != "street1"@.len() && "linkedin"@.len() != "street2"@.len() && "linkedin"@.len() != "city"@.len() && "linkedin"@.len() != "state"@.len() && "linkedin"@.len() != "postal_code"@.len() && "linkedin"@.len() != "country"@.len() && "linkedin"@.len() != "address"@.len());
    }
    assert("github"@ != "full_name"@ && "github"@ != "first_name"@ && "github"@ != "last_name"@ && "github"@ != "email"@ && "github"@ != "phone"@ && "github"@ != "street1"@ && "github"@ != "street2"@ && "github"@ != "city"@ && "github"@ != "state"@ && "github"@ != "postal_code"@ && "github"@ != "country"@ && "github"@ != "address"@ && "github"@ != "linkedin"@) by {
        assert("github"@.len() != "full_name"@.len() && "github"@.len() != "first_name"@.len() && "github"@.len() != "last_name"@.len() && "github"@.len() != "email"@.len() && "github"@.len() != "phone"@.len() && "github"@.len() != "street1"@.len() && "github"@.len() != "street2"@.len() && "github"@.len() != "city"@.len() && "github"@.len() != "state"@.len() && "github"@.len() != "postal_code"@.len() && "github"@.len() != "country"@.len() && "github"@.len() != "address"@.len() && "github"@.len() != "linkedin"@.len());
    }
    assert("website"@ != "full_name"@ && "website"@ != "first_name"@ && "website"@ != "last_name"@ && "website"@ != "email"@ && "website"@ != "phone"@ && "website"@ != "street1"@ && "website"@ != "street2"@ && "website"@ != "city"@ && "website"@ != "state"@ && "website"@ != "postal_code"@ && "website"@ != "country"@ && "website"@ != "address"@ && "website"@ != "linkedin"@ && "website"@ != "github"@) by {
        assert("website"@.len() != "full_name"@.len() && "website"@.len() != "first_name"@.len() && "website"@.len() != "last_name"@.len() && "website"@.len() != "email"@.len() && "website"@.len() != "phone"@.len() && "website"@[0] != "street1"@[0] && "website"@[0] != "street2"@[0] && "website"@.len() != "city"@.len() && "website"@.len() != "state"@.len() && "website"@.len() != "postal_code"@.len() && "website"@[0] != "country"@[0] && "website"@[0] != "address"@[0] && "website"@.len() != "linkedin"@.len() && "website"@.len() != "github"@.len());
    }
    assert("gitlab"@ != "full_name"@ && "gitlab"@ != "first_name"@ && "gitlab"@ != "last_name"@ && "gitlab"@ != "email"@ && "gitlab"@ != "phone"@ && "gitlab"@ != "street1"@ && "gitlab"@ != "street2"@ && "gitlab"@ != "city"@ && "gitlab"@ != "state"@ && "gitlab"@ != "postal_code"@ && "gitlab"@ != "country"@ && "gitlab"@ != "address"@ && "gitlab"@ != "linkedin"@ && "gitlab"@ != "github"@ && "gitlab"@ != "website"@) by {
        assert("gitlab"@.len() != "full_name"@.len() && "gitlab"@.len() != "first_name"@.len() && "gitlab"@.len() != "last_name"@.len() && "gitlab"@.len() != "email"@.len() && "gitlab"@.len() != "phone"@.len() && "gitlab"@.len() != "street1"@.len() && "gitlab"@.len() != "street2"@.len() && "gitlab"@.len() != "city"@.len() && "gitlab"@.len() != "state"@.len() && "gitlab"@.len() != "postal_code"@.len() && "gitlab"@.len() != "country"@.len() && "gitlab"@.len() != "address"@.len() && "gitlab"@.len() != "linkedin"@.len() && "gitlab"@[3] != "github"@[3] && "gitlab"@.len() != "website"@.len());
    }
    assert("bitbucket"@ != "full_name"@ && "bitbucket"@ != "first_name"@ && "bitbucket"@ != "last_name"@ && "bitbucket"@ != "email"@ && "bitbucket"@ != "phone"@ && "bitbucket"@ != "street1"@ && "bitbucket"@ != "street2"@ && "bitbucket"@ != "city"@ && "bitbucket"@ != "state"@ && "bitbucket"@ != "postal_code"@ && "bitbucket"@ != "country"@ && "bitbucket"@ != "address"@ && "bitbucket"@ != "linkedin"@ && "bitbucket"@ != "github"@ && "bitbucket"@ != "website"@ && "bitbucket"@ != "gitlab"@) by {
        assert("bitbucket"@[0] != "full_name"@[0] && "bitbucket"@.len() != "first_name"@.len() && "bitbucket"@[0] != "last_name"@[0] && "bitbucket"@.len() != "email"@.len() && "bitbucket"@.len() != "phone"@.len() && "bitbucket"@.len() != "street1"@.len() && "bitbucket"@.len() != "street2"@.len() && "bitbucket"@.len() != "city"@.len() && "bitbucket"@.len() != "state"@.len() && "bitbucket"@.len() != "postal_code"@.len() && "bitbucket"@.len() != "country"@.len() && "bitbucket"@.len() != "address"@.len() && "bitbucket"@.len() != "linkedin"@.len() && "bitbucket"@.len() != "github"@.len() && "bitbucket"@.len() != "website"@.len() && "bitbucket"@.len() != "gitlab"@.len());
    }
    assert("blog"@ != "full_name"@ && "blog"@ != "first_name"@ && "blog"@ != "last_name"@ && "blog"@ != "email"@ && "blog"@ != "phone"@ && "blog"@ != "street1"@ && "blog"@ != "street2"@ && "blog"@ != "city"@ && "blog"@ != "state"@ && "blog"@ != "postal_code"@ && "blog"@ != "country"@ && "blog"@ != "address"@ && "blog"@ != "linkedin"@ && "blog"@ != "github"@ && "blog"@ != "website"@ && "blog"@ != "gitlab"@ && "blog"@ != "bitbucket"@) by {
        assert("blog"@.len() != "full_name"@.len() && "blog"@.len() != "first_name"@.len() && "blog"@.len() != "last_name"@.len() && "blog"@.len() != "email"@.len() && "blog"@.len() != "phone"@.len() && "blog"@.len() != "street1"@.len() && "blog"@.len() != "street2"@.len() && "blog"@[0] != "city"@[0] && "blog"@.len() != "state"@.len() && "blog"@.len() != "postal_code"@.len() && "blog"@.len() != "country"@.len() && "blog"@.len() != "address"@.len() && "blog"@.len() != "linkedin"@.len() && "blog"@.len() != "github"@.len() && "blog"@.len() != "website"@.len() && "blog"@.len() != "gitlab"@.len() && "blog"@.len() != "bitbucket"@.len());
    }
    assert("twitter"@ != "full_name"@ && "twitter"@ != "first_name"@ && "twitter"@ != "last_name"@ && "twitter"@ != "email"@ && "twitter"@ != "phone"@ && "twitter"@ != "street1"@ && "twitter"@ != "street2"@ && "twitter"@ != "city"@ && "twitter"@ != "state"@ && "twitter"@ != "postal_code"@ && "twitter"@ != "country"@ && "twitter"@ != "address"@ && "twitter"@ != "linkedin"@ && "twitter"@ != "github"@ && "twitter"@ != "website"@ && "twitter"@ != "gitlab"@ && "twitter"@ != "bitbucket"@ && "twitter"@ != "blog"@) by {
        assert("twitter"@.len() != "full_name"@.len() && "twitter"@.len() != "first_name"@.len() && "twitter"@.len() != "last_name"@.len() && "twitter"@.len() != "email"@.len() && "twitter"@.len() != "phone"@.len() && "twitter"@[0] != "street1"@[0] && "twitter"@[0] != "street2"@[0] && "twitter"@.len() != "city"@.len() && "twitter"@.len() != "state"@.len() && "twitter"@.len() != "postal_code"@.len() && "twitter"@[0] != "country"@[0] && "twitter"@[0] != "address"@[0] && "twitter"@.len() != "linkedin"@.len() && "twitter"@.len() != "github"@.len() && "twitter"@[0] != "website"@[0] && "twitter"@.len() != "gitlab"@.len() && "twitter"@.len() != "bitbucket"@.len() && "twitter"@.len() != "blog"@.len());
    }
    assert("bluesky"@ != "full_name"@ && "bluesky"@ != "first_name"@ && "bluesky"@ != "last_name"@ && "bluesky"@ != "email"@ && "bluesky"@ != "phone"@ && "bluesky"@ != "street1"@ && "bluesky"@ != "street2"@ && "bluesky"@ != "city"@ && "bluesky"@ != "state"@ && "bluesky"@ != "postal_code"@ && "bluesky"@ != "country"@ && "bluesky"@ != "address"@ && "bluesky"@ != "linkedin"@ && "bluesky"@ != "github"@ && "bluesky"@ != "website"@ && "bluesky"@ != "gitlab"@ && "bluesky"@ != "bitbucket"@ && "bluesky"@ != "blog"@ && "bluesky"@ != "twitter"@) by {
        assert("bluesky"@.len() != "full_name"@.len() && "bluesky"@.len() != "first_name"@.len() && "bluesky"@.len() != "last_name"@.len() && "bluesky"@.len() != "email"@.len() && "bluesky"@.len() != "phone"@.len() && "bluesky"@[0] != "street1"@[0] && "bluesky"@[0] != "street2"@[0] && "bluesky"@.len() != "city"@.len() && "bluesky"@.len() != "state"@.len() && "bluesky"@.len() != "postal_code"@.len() && "bluesky"@[0] != "country"@[0] && "bluesky"@[0] != "address"@[0] && "bluesky"@.len() != "linkedin"@.len() && "bluesky"@.len() != "github"@.len() && "bluesky"@[0] != "website"@[0] && "bluesky"@.len() != "gitlab"@.len() && "bluesky"@.len() != "bitbucket"@.len() && "bluesky"@.len() != "blog"@.len() && "bluesky"@[0] != "twitter"@[0]);
    }
    assert("mastodon"@ != "full_name"@ && "mastodon"@ != "first_name"@ && "mastodon"@ != "last_name"@ && "mastodon"@ != "email"@ && "mastodon"@ != "phone"@ && "mastodon"@ != "street1"@ && "mastodon"@ != "street2"@ && "mastodon"@ != "city"@ && "mastodon"@ != "state"@ && "mastodon"@ != "postal_code"@ && "mastodon"@ != "country"@ && "mastodon"@ != "address"@ && "mastodon"@ != "linkedin"@ && "mastodon"@ != "github"@ && "mastodon"@ != "website"@ && "mastodon"@ != "gitlab"@ && "mastodon"@ != "bitbucket"@ && "mastodon"@ != "blog"@ && "mastodon"@ != "twitter"@ && "mastodon"@ != "bluesky"@) by {
        assert("mastodon"@.len() != "full_name"@.len() && "mastodon"@.len() != "first_name"@.len() && "mastodon"@.len() != "last_name"@.len() && "mastodon"@.len() != "email"@.len() && "mastodon"@.len() != "phone"@.len() && "mastodon"@.len() != "street1"@.len() && "mastodon"@.len() != "street2"@.len() && "mastodon"@.len() != "city"@.len() && "mastodon"@.len() != "state"@.len() && "mastodon"@.len() != "postal_code"@.len() && "mastodon"@.len() != "country"@.len() && "mastodon"@.len() != "address"@.len() && "mastodon"@[0] != "linkedin"@[0] && "mastodon"@.len() != "github"@.len() && "mastodon"@.len() != "website"@.len() && "mastodon"@.len() != "gitlab"@.len() && "mastodon"@.len() != "bitbucket"@.len() && "mastodon"@.len() != "blog"@.len() && "mastodon"@.len() != "twitter"@.len() && "mastodon"@.len() != "bluesky"@.len());
    }
    assert("stackoverflow"@ != "full_name"@ && "stackoverflow"@ != "first_name"@ && "stackoverflow"@ != "last_name"@ && "stackoverflow"@ != "email"@ && "stackoverflow"@ != "phone"@ && "stackoverflow"@ != "street1"@ && "stackoverflow"@ != "street2"@ && "stackoverflow"@ != "city"@ && "stackoverflow"@ != "state"@ && "stackoverflow"@ != "postal_code"@ && "stackoverflow"@ != "country"@ && "stackoverflow"@ != "address"@ && "stackoverflow"@ != "linkedin"@ && "stackoverflow"@ != "github"@ && "stackoverflow"@ != "website"@ && "stackoverflow"@ != "gitlab"@ && "stackoverflow"@ != "bitbucket"@ && "stackoverflow"@ != "blog"@ && "stackoverflow"@ != "twitter"@ && "stackoverflow"@ != "bluesky"@ && "stackoverflow"@ != "mastodon"@) by {
        assert("stackoverflow"@.len() != "full_name"@.len() && "stackoverflow"@.len() != "first_name"@.len() && "stackoverflow"@.len() != "last_name"@.len() && "stackoverflow"@.len() != "email"@.len() && "stackoverflow"@.len() != "phone"@.len() && "stackoverflow"@.len() != "street1"@.len() && "stackoverflow"@.len() != "street2"@.len() && "stackoverflow"@.len() != "city"@.len() && "stackoverflow"@.len() != "state"@.len() && "stackoverflow"@.len() != "postal_code"@.len() && "stackoverflow"@.len() != "country"@.len() && "stackoverflow"@.len() != "address"@.len() && "stackoverflow"@.len() != "linkedin"@.len() && "stackoverflow"@.len() != "github"@.len() && "stackoverflow"@.len() != "website"@.len() && "stackoverflow"@.len() != "gitlab"@.len() && "stackoverflow"@.len() != "bitbucket"@.len() && "stackoverflow"@.len() != "blog"@.len() && "stackoverflow"@.len() != "twitter"@.len() && "stackoverflow"@.len() != "bluesky"@.len() && "stackoverflow"@.len() != "mastodon"@.len());
    }
    assert("portfolio"@ != "full_name"@ && "portfolio"@ != "first_name"@ && "portfolio"@ != "last_name"@ && "portfolio"@ != "email"@ && "portfolio"@ != "phone"@ && "portfolio"@ != "street1"@ && "portfolio"@ != "street2"@ && "portfolio"@ != "city"@ && "portfolio"@ != "state"@ && "portfolio"@ != "postal_code"@ && "portfolio"@ != "country"@ && "portfolio"@ != "address"@ && "portfolio"@ != "linkedin"@ && "portfolio"@ != "github"@ && "portfolio"@ != "website"@ && "portfolio"@ != "gitlab"@ && "portfolio"@ != "bitbucket"@ && "portfolio"@ != "blog"@ && "portfolio"@ != "twitter"@ && "portfolio"@ != "bluesky"@ && "portfolio"@ != "mastodon"@ && "portfolio"@ != "stackoverflow"@) by {
        assert("portfolio"@[0] != "full_name"@[0] && "portfolio"@.len() != "first_name"@.len() && "portfolio"@[0] != "last_name"@[0] && "portfolio"@.len() != "email"@.len() && "portfolio"@.len() != "phone"@.len() && "portfolio"@.len() != "street1"@.len() && "portfolio"@.len() != "street2"@.len() && "portfolio"@.len() != "city"@.len() && "portfolio"@.len() != "state"@.len() && "portfolio"@.len() != "postal_code"@.len() && "portfolio"@.len() != "country"@.len() && "portfolio"@.len() != "address"@.len() && "portfolio"@.len() != "linkedin"@.len() && "portfolio"@.len() != "github"@.len() && "portfolio"@.len() != "website"@.len() && "portfolio"@.len() != "gitlab"@.len() && "portfolio"@[0] != "bitbucket"@[0] && "portfolio"@.len() != "blog"@.len() && "portfolio"@.len() != "twitter"@.len() && "portfolio"@.len() != "bluesky"@.len() && "portfolio"@.len() != "mastodon"@.len() && "portfolio"@.len() != "stackoverflow"@.len());
    }
    assert("work_authorization"@ != "full_name"@ && "work_authorization"@ != "first_name"@ && "work_authorization"@ != "last_name"@ && "work_authorization"@ != "email"@ && "work_authorization"@ != "phone"@ && "work_authorization"@ != "street1"@ && "work_authorization"@ != "street2"@ && "work_authorization"@ != "city"@ && "work_authorization"@ != "state"@ && "work_authorization"@ != "postal_code"@ && "work_authorization"@ != "country"@ && "work_authorization"@ != "address"@ && "work_authorization"@ != "linkedin"@ && "work_authorization"@ != "github"@ && "work_authorization"@ != "website"@ && "work_authorization"@ != "gitlab"@ && "work_authorization"@ != "bitbucket"@ && "work_authorization"@ != "blog"@ && "work_authorization"@ != "twitter"@ && "work_authorization"@ != "bluesky"@ && "work_authorization"@ != "mastodon"@ && "work_authorization"@ != "stackoverflow"@ && "work_authorization"@ != "portfolio"@) by {
        assert("work_authorization"@.len() != "full_name"@.len() && "work_authorization"@.len() != "first_name"@.len() && "work_authorization"@.len() != "last_name"@.len() && "work_authorization"@.len() != "email"@.len() && "work_authorization"@.len() != "phone"@.len() && "work_authorization"@.len() != "street1"@.len() && "work_authorization"@.len() != "street2"@.len() && "work_authorization"@.len() != "city"@.len() && "work_authorization"@.len() != "state"@.len() && "work_authorization"@.len() != "postal_code"@.len() && "work_authorization"@.len() != "country"@.len() && "work_authorization"@.len() != "address"@.len() && "work_authorization"@.len() != "linkedin"@.len() && "work_authorization"@.len() != "github"@.len() && "work_authorization"@.len() != "website"@.len() && "work_authorization"@.len() != "gitlab"@.len() && "work_authorization"@.len() != "bitbucket"@.len() && "work_authorization"@.len() != "blog"@.len() && "work_authorization"@.len() != "twitter"@.len() && "work_authorization"@.len() != "bluesky"@.len() && "work_authorization"@.len() != "mastodon"@.len() && "work_authorization"@.len() != "stackoverflow"@.len() && "work_authorization"@.len() != "portfolio"@.len());
    }
}

} // verus!
