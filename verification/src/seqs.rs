//! Search in sequences: the first position whose element satisfies a
//! predicate, the way `Iterator::position` finds it.
use vstd::prelude::*;
use crate::chars::str_eq;

verus! {

/// The first index of `s` whose element satisfies `p`, if any.
pub open spec fn first_index<T>(s: Seq<T>, p: spec_fn(T) -> bool) -> Option<int>
    decreases s.len(),
{
    if s.len() == 0 {
        None
    } else {
        match first_index(s.drop_last(), p) {
            Some(i) => Some(i),
            None => if p(s.last()) {
                Some(s.len() - 1)
            } else {
                None
            },
        }
    }
}

/// `first_index` is `i` exactly when `s[i]` satisfies `p` and no earlier
/// element does.
pub proof fn lemma_first_index_is<T>(s: Seq<T>, p: spec_fn(T) -> bool, i: int)
    requires
        0 <= i < s.len(),
        p(s[i]),
        forall|j: int| 0 <= j < i ==> !p(#[trigger] s[j]),
    ensures
        first_index(s, p) == Some(i),
    decreases s.len(),
{
    if i < s.len() - 1 {
        let t = s.drop_last();
        assert forall|j: int| 0 <= j < i implies !p(#[trigger] t[j]) by {
            assert(t[j] == s[j]);
        }
        lemma_first_index_is(t, p, i);
    } else {
        lemma_first_index_none(s.drop_last(), p);
    }
}

/// `first_index` is `None` exactly when no element satisfies `p`.
pub proof fn lemma_first_index_none<T>(s: Seq<T>, p: spec_fn(T) -> bool)
    requires
        forall|j: int| 0 <= j < s.len() ==> !p(#[trigger] s[j]),
    ensures
        first_index(s, p) is None,
    decreases s.len(),
{
    if s.len() > 0 {
        let t = s.drop_last();
        assert forall|j: int| 0 <= j < t.len() implies !p(#[trigger] t[j]) by {
            assert(t[j] == s[j]);
        }
        lemma_first_index_none(t, p);
        assert(!p(s[s.len() - 1]));
    }
}

/// What `first_index` returns satisfies its definition.
pub proof fn lemma_first_index_spec<T>(s: Seq<T>, p: spec_fn(T) -> bool)
    ensures
        match first_index(s, p) {
            Some(i) => 0 <= i < s.len() && p(s[i]) && forall|j: int|
                0 <= j < i ==> !p(#[trigger] s[j]),
            None => forall|j: int| 0 <= j < s.len() ==> !p(#[trigger] s[j]),
        },
    decreases s.len(),
{
    if s.len() > 0 {
        let t = s.drop_last();
        lemma_first_index_spec(t, p);
        match first_index(t, p) {
            Some(i) => {
                assert forall|j: int| 0 <= j < i implies !p(#[trigger] s[j]) by {
                    assert(t[j] == s[j]);
                }
                assert(s[i] == t[i]);
            },
            None => {
                assert forall|j: int| 0 <= j < s.len() - 1 implies !p(#[trigger] s[j]) by {
                    assert(t[j] == s[j]);
                }
            },
        }
    }
}

/// An entry of a table of string pairs has the given key.
pub open spec fn has_key<V>(key: Seq<char>) -> spec_fn((String, V)) -> bool {
    |e: (String, V)| e.0@ == key
}

/// The value stored for a key in a table of pairs: that of the first entry
/// with the key.
pub open spec fn lookup(entries: Seq<(String, String)>, key: Seq<char>) -> Option<Seq<char>> {
    match first_index(entries, has_key(key)) {
        Some(i) => Some(entries[i].1@),
        None => None,
    }
}

/// Index of the first entry with the given key.
pub fn position_of_key<V>(entries: &Vec<(String, V)>, key: &str) -> (r: Option<usize>)
    ensures
        r matches Some(i) ==> i < entries@.len() && first_index(entries@, has_key::<V>(key@)) == Some(
            i as int,
        ),
        r is None ==> first_index(entries@, has_key::<V>(key@)) is None,
{
    let mut i: usize = 0;
    while i < entries.len()
        invariant
            i <= entries@.len(),
            forall|j: int| 0 <= j < i ==> !(has_key::<V>(key@))(#[trigger] entries@[j]),
        decreases entries@.len() - i,
    {
        if str_eq(entries[i].0.as_str(), key) {
            proof {
                lemma_first_index_is(entries@, has_key::<V>(key@), i as int);
            }
            return Some(i);
        }
        i += 1;
    }
    proof {
        lemma_first_index_none(entries@, has_key::<V>(key@));
    }
    None
}

} // verus!
