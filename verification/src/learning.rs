//! What the user's past decisions say: the correction overlay (the latest
//! decision per field shape) and the feedback statistics.
use vstd::prelude::*;
use crate::chars::{chars_of, push_all, string_of, trim, trim_str};
use crate::feedback::Feedback;
use crate::profile::{FieldDescriptor, FieldView};
use crate::seqs::{has_key, position_of_key, first_index, lemma_first_index_spec};
use crate::unicode::{lowercase, to_lowercase};

verus! {

/// What the user decided about a field shape last time.
#[derive(Debug, Clone, Copy, PartialEq, Eq, Structural)]
pub enum UserDecision {
    /// The fill was accepted: fill without asking.
    Accepted,
    /// The fill was declined: skip without asking.
    Rejected,
}

pub open spec fn decision_of(accepted: bool) -> UserDecision {
    if accepted {
        UserDecision::Accepted
    } else {
        UserDecision::Rejected
    }
}

/// A field attribute as the fingerprint uses it: trimmed and lower-cased.
pub open spec fn norm(s: Seq<char>) -> Seq<char> {
    lowercase(trim(s))
}

/// The identity of a field shape across runs and postings: label,
/// placeholder, ARIA label, name and kind, each normalised, joined by
/// `|`. The DOM id is left out because some vendors generate a fresh one
/// on every page load.
pub open spec fn fingerprint_of(d: FieldView) -> Seq<char> {
    norm(d.label) + seq!['|'] + norm(d.placeholder) + seq!['|'] + norm(d.aria_label) + seq!['|']
        + norm(d.name) + seq!['|'] + norm(d.kind)
}

fn normalized(s: &str) -> (r: Vec<char>)
    ensures
        r@ == norm(s@),
{
    let t = trim_str(s);
    let ts = string_of(t.as_slice());
    let l = to_lowercase(ts.as_str());
    chars_of(l.as_str())
}

/// The fingerprint of a field.
pub fn fingerprint(d: &FieldDescriptor) -> (r: String)
    ensures
        r@ == fingerprint_of(d@),
{
    let mut out = normalized(d.label.as_str());
    out.push('|');
    let p = normalized(d.placeholder.as_str());
    push_all(&mut out, p.as_slice());
    out.push('|');
    let a = normalized(d.aria_label.as_str());
    push_all(&mut out, a.as_slice());
    out.push('|');
    let n = normalized(d.name.as_str());
    push_all(&mut out, n.as_slice());
    out.push('|');
    let k = normalized(d.kind.as_str());
    push_all(&mut out, k.as_slice());
    string_of(out.as_slice())
}

// ─── Tables keyed by text ───────────────────────────────────────────────

/// The map a table of (key, value) entries stands for; a later entry with
/// the same key overrides an earlier one.
pub open spec fn entries_map<V>(es: Seq<(String, V)>) -> Map<Seq<char>, V>
    decreases es.len(),
{
    if es.len() == 0 {
        Map::empty()
    } else {
        entries_map(es.drop_last()).insert(es.last().0@, es.last().1)
    }
}

/// No key occurs twice in the table.
pub open spec fn keys_distinct<V>(es: Seq<(String, V)>) -> bool {
    forall|i: int, j: int|
        0 <= i < j < es.len() ==> #[trigger] es[i].0@ != #[trigger] es[j].0@
}

proof fn lemma_entries_absent<V>(es: Seq<(String, V)>, k: Seq<char>)
    requires
        forall|i: int| 0 <= i < es.len() ==> (#[trigger] es[i]).0@ != k,
    ensures
        !entries_map(es).contains_key(k),
    decreases es.len(),
{
    if es.len() > 0 {
        let t = es.drop_last();
        assert forall|i: int| 0 <= i < t.len() implies (#[trigger] t[i]).0@ != k by {
            assert(t[i] == es[i]);
        }
        lemma_entries_absent(t, k);
        assert(es.last() == es[es.len() - 1]);
    }
}

proof fn lemma_entries_lookup<V>(es: Seq<(String, V)>, j: int)
    requires
        keys_distinct(es),
        0 <= j < es.len(),
    ensures
        entries_map(es).contains_key(es[j].0@),
        entries_map(es)[es[j].0@] == es[j].1,
    decreases es.len(),
{
    if j < es.len() - 1 {
        let t = es.drop_last();
        assert(keys_distinct(t)) by {
            assert forall|a: int, b: int| 0 <= a < b < t.len() implies #[trigger] t[a].0@
                != #[trigger] t[b].0@ by {
                assert(t[a] == es[a] && t[b] == es[b]);
            }
        }
        lemma_entries_lookup(t, j);
        assert(t[j] == es[j]);
        assert(es[j].0@ != es[es.len() - 1].0@);
    }
}

proof fn lemma_entries_len<V>(es: Seq<(String, V)>)
    requires
        keys_distinct(es),
    ensures
        entries_map(es).dom().finite(),
        entries_map(es).len() == es.len(),
    decreases es.len(),
{
    if es.len() > 0 {
        let t = es.drop_last();
        assert(keys_distinct(t)) by {
            assert forall|a: int, b: int| 0 <= a < b < t.len() implies #[trigger] t[a].0@
                != #[trigger] t[b].0@ by {
                assert(t[a] == es[a] && t[b] == es[b]);
            }
        }
        lemma_entries_len(t);
        let k = es.last().0@;
        assert forall|i: int| 0 <= i < t.len() implies (#[trigger] t[i]).0@ != k by {
            assert(t[i] == es[i]);
            assert(es[i].0@ != es[es.len() - 1].0@);
        }
        lemma_entries_absent(t, k);
    }
}

proof fn lemma_entries_update<V>(es: Seq<(String, V)>, j: int, e: (String, V))
    requires
        keys_distinct(es),
        0 <= j < es.len(),
        es[j].0@ == e.0@,
    ensures
        keys_distinct(es.update(j, e)),
        entries_map(es.update(j, e)) == entries_map(es).insert(e.0@, e.1),
    decreases es.len(),
{
    let u = es.update(j, e);
    assert(keys_distinct(u)) by {
        assert forall|a: int, b: int| 0 <= a < b < u.len() implies #[trigger] u[a].0@
            != #[trigger] u[b].0@ by {
            assert(es[a].0@ != es[b].0@);
        }
    }
    let t = es.drop_last();
    if j == es.len() - 1 {
        assert(u.drop_last() =~= t);
        assert(entries_map(u) =~= entries_map(es).insert(e.0@, e.1));
    } else {
        assert(keys_distinct(t)) by {
            assert forall|a: int, b: int| 0 <= a < b < t.len() implies #[trigger] t[a].0@
                != #[trigger] t[b].0@ by {
                assert(t[a] == es[a] && t[b] == es[b]);
            }
        }
        assert(t[j] == es[j]);
        lemma_entries_update(t, j, e);
        assert(u.drop_last() =~= t.update(j, e));
        assert(es[j].0@ != es.last().0@);
        assert(entries_map(u) =~= entries_map(es).insert(e.0@, e.1));
    }
}

// ─── The correction overlay ─────────────────────────────────────────────

/// The overlay a list of feedback events builds: for each fingerprint,
/// the decision of the latest event with it.
pub open spec fn overlay_of(evs: Seq<Feedback>) -> Map<Seq<char>, UserDecision>
    decreases evs.len(),
{
    if evs.len() == 0 {
        Map::empty()
    } else {
        overlay_of(evs.drop_last()).insert(
            fingerprint_of(evs.last().field@),
            decision_of(evs.last().accepted),
        )
    }
}

/// The user's latest decision per field shape.
#[derive(Debug)]
pub struct CorrectionOverlay {
    decisions: Vec<(String, UserDecision)>,
}

impl View for CorrectionOverlay {
    type V = Map<Seq<char>, UserDecision>;

    closed spec fn view(&self) -> Map<Seq<char>, UserDecision> {
        entries_map(self.decisions@)
    }
}

impl Default for CorrectionOverlay {
    fn default() -> (r: CorrectionOverlay)
        ensures
            r@ == Map::<Seq<char>, UserDecision>::empty(),
    {
        let r = CorrectionOverlay { decisions: Vec::new() };
        assert(r@ =~= Map::<Seq<char>, UserDecision>::empty());
        r
    }
}

impl CorrectionOverlay {
    #[verifier::type_invariant]
    spec fn well_formed(&self) -> bool {
        keys_distinct(self.decisions@)
    }

    /// Build from the feedback log, oldest first: the latest decision on
    /// each field shape wins. Every accepted event counts as `Accepted`,
    /// every declined one as `Rejected`.
    pub fn from_queue(events: &[Feedback]) -> (r: CorrectionOverlay)
        ensures
            r@ == overlay_of(events@),
    {
        let mut decisions: Vec<(String, UserDecision)> = Vec::new();
        let mut i: usize = 0;
        while i < events.len()
            invariant
                i <= events@.len(),
                keys_distinct(decisions@),
                entries_map(decisions@) == overlay_of(events@.take(i as int)),
            decreases events@.len() - i,
        {
            let ev = &events[i];
            let fp = fingerprint(&ev.field);
            let decision = if ev.accepted {
                UserDecision::Accepted
            } else {
                UserDecision::Rejected
            };
            proof {
                let t = events@.take(i + 1);
                assert(t.drop_last() =~= events@.take(i as int));
                assert(t.last() == *ev);
            }
            match position_of_key(&decisions, fp.as_str()) {
                Some(j) => {
                    proof {
                        lemma_first_index_spec(decisions@, has_key::<UserDecision>(fp@));
                        lemma_entries_update(decisions@, j as int, (fp, decision));
                    }
                    decisions.set(j, (fp, decision));
                },
                None => {
                    proof {
                        lemma_first_index_spec(decisions@, has_key::<UserDecision>(fp@));
                        assert forall|a: int| 0 <= a < decisions@.len() implies (
                        #[trigger] decisions@[a]).0@ != fp@ by {
                            assert(!(has_key::<UserDecision>(fp@))(decisions@[a]));
                        }
                    }
                    let ghost before = decisions@;
                    decisions.push((fp, decision));
                    proof {
                        assert(decisions@.drop_last() =~= before);
                        assert forall|a: int, b: int| 0 <= a < b < decisions@.len() implies #[trigger] decisions@[a].0@
                            != #[trigger] decisions@[b].0@ by {
                            if b == before.len() {
                                assert(decisions@[a] == before[a]);
                            } else {
                                assert(decisions@[a] == before[a] && decisions@[b] == before[b]);
                            }
                        }
                    }
                },
            }
            i += 1;
        }
        assert(events@.take(i as int) =~= events@);
        CorrectionOverlay { decisions }
    }

    /// The user's last decision on this field's shape, if any.
    pub fn decision_for(&self, d: &FieldDescriptor) -> (r: Option<UserDecision>)
        ensures
            r == (if self@.contains_key(fingerprint_of(d@)) {
                Some(self@[fingerprint_of(d@)])
            } else {
                None
            }),
    {
        proof {
            use_type_invariant(self);
        }
        let fp = fingerprint(d);
        match position_of_key(&self.decisions, fp.as_str()) {
            Some(j) => {
                proof {
                    lemma_first_index_spec(self.decisions@, has_key::<UserDecision>(fp@));
                    lemma_entries_lookup(self.decisions@, j as int);
                }
                Some(self.decisions[j].1)
            },
            None => {
                proof {
                    lemma_first_index_spec(self.decisions@, has_key::<UserDecision>(fp@));
                    assert forall|a: int| 0 <= a < self.decisions@.len() implies (
                    #[trigger] self.decisions@[a]).0@ != fp@ by {
                        assert(!(has_key::<UserDecision>(fp@))(self.decisions@[a]));
                    }
                    lemma_entries_absent(self.decisions@, fp@);
                }
                None
            },
        }
    }

    /// Number of field shapes with a decision.
    pub fn len(&self) -> (r: usize)
        ensures
            r == self@.len(),
    {
        proof {
            use_type_invariant(self);
            lemma_entries_len(self.decisions@);
        }
        self.decisions.len()
    }

    pub fn is_empty(&self) -> (r: bool)
        ensures
            r == (self@.len() == 0),
    {
        proof {
            use_type_invariant(self);
            lemma_entries_len(self.decisions@);
        }
        self.decisions.len() == 0
    }
}

/// Index of the latest event whose field has the given fingerprint.
pub open spec fn latest_event_on(evs: Seq<Feedback>, fp: Seq<char>) -> Option<int>
    decreases evs.len(),
{
    if evs.len() == 0 {
        None
    } else if fingerprint_of(evs.last().field@) == fp {
        Some(evs.len() - 1)
    } else {
        latest_event_on(evs.drop_last(), fp)
    }
}

/// Most recent decision wins: for every field shape, the overlay built
/// from a feedback log holds the decision of the latest event on that
/// shape, and nothing for a shape no event touched.
pub proof fn overlay_holds_latest_decision(evs: Seq<Feedback>, fp: Seq<char>)
    ensures
        match latest_event_on(evs, fp) {
            Some(i) => 0 <= i < evs.len() && overlay_of(evs).contains_key(fp) && overlay_of(evs)[fp]
                == decision_of(evs[i].accepted),
            None => !overlay_of(evs).contains_key(fp),
        },
    decreases evs.len(),
{
    if evs.len() > 0 {
        overlay_holds_latest_decision(evs.drop_last(), fp);
        if fingerprint_of(evs.last().field@) != fp {
            if let Some(i) = latest_event_on(evs.drop_last(), fp) {
                assert(evs.drop_last()[i] == evs[i]);
            }
        }
    }
}

/// The fingerprints of the events' fields, in log order.
pub open spec fn fingerprints_of(evs: Seq<Feedback>) -> Seq<Seq<char>> {
    evs.map_values(|e: Feedback| fingerprint_of(e.field@))
}

/// The overlay built from a feedback log has one entry per distinct field
/// shape in the log, and no other: its keys are the events' fingerprints
/// and its size is the number of distinct ones.
pub proof fn overlay_has_one_entry_per_shape(evs: Seq<Feedback>)
    ensures
        overlay_of(evs).dom() == fingerprints_of(evs).to_set(),
        overlay_of(evs).len() == fingerprints_of(evs).to_set().len(),
    decreases evs.len(),
{
    if evs.len() == 0 {
        assert(fingerprints_of(evs).to_set() =~= Set::<Seq<char>>::empty());
        assert(overlay_of(evs).dom() =~= Set::<Seq<char>>::empty());
    } else {
        let t = evs.drop_last();
        let last = fingerprint_of(evs.last().field@);
        overlay_has_one_entry_per_shape(t);
        let fs = fingerprints_of(evs);
        let ft = fingerprints_of(t);
        assert(fs =~= ft.push(last));
        assert forall|x: Seq<char>| fs.contains(x) <==> ft.contains(x) || x == last by {
            if fs.contains(x) {
                let i = choose|i: int| 0 <= i < fs.len() && fs[i] == x;
                if i < ft.len() {
                    assert(ft[i] == x);
                }
            }
            if ft.contains(x) {
                let i = choose|i: int| 0 <= i < ft.len() && ft[i] == x;
                assert(fs[i] == x);
            }
            if x == last {
                assert(fs[fs.len() - 1] == x);
            }
        }
        assert(fs.to_set() =~= ft.to_set().insert(last));
        assert(overlay_of(evs).dom() =~= overlay_of(t).dom().insert(last));
    }
}

/// A field's DOM id plays no part in its fingerprint: two fields that
/// differ only in id get the same decision from any overlay.
pub proof fn fingerprint_ignores_id(a: FieldView, b: FieldView)
    requires
        a.label == b.label,
        a.placeholder == b.placeholder,
        a.aria_label == b.aria_label,
        a.name == b.name,
        a.kind == b.kind,
    ensures
        fingerprint_of(a) == fingerprint_of(b),
{
}

// ─── Feedback statistics ────────────────────────────────────────────────

/// Number of events with the given outcome.
pub open spec fn count_outcome(evs: Seq<Feedback>, accepted: bool) -> nat
    decreases evs.len(),
{
    if evs.len() == 0 {
        0
    } else {
        count_outcome(evs.drop_last(), accepted) + if evs.last().accepted == accepted {
            1nat
        } else {
            0nat
        }
    }
}

/// Every event is either accepted or declined: the two counts add up to
/// the length of the log.
pub proof fn outcomes_partition_the_log(evs: Seq<Feedback>)
    ensures
        count_outcome(evs, true) + count_outcome(evs, false) == evs.len(),
    decreases evs.len(),
{
    if evs.len() > 0 {
        outcomes_partition_the_log(evs.drop_last());
    }
}

/// Number of events with the given outcome whose predicted key is `k`.
pub open spec fn tally(evs: Seq<Feedback>, accepted: bool, k: Seq<char>) -> nat
    decreases evs.len(),
{
    if evs.len() == 0 {
        0
    } else {
        tally(evs.drop_last(), accepted, k) + if evs.last().accepted == accepted
            && evs.last().predicted@ == k {
            1nat
        } else {
            0nat
        }
    }
}

/// A per-key count table holds, for every key with events of the given
/// outcome, the number of such events, and no other key.
pub open spec fn counts_keys(es: Seq<(String, usize)>, evs: Seq<Feedback>, accepted: bool) -> bool {
    &&& keys_distinct(es)
    &&& forall|i: int| 0 <= i < es.len() ==> (#[trigger] es[i]).1 == tally(evs, accepted, es[i].0@)
    &&& forall|k: Seq<char>| tally(evs, accepted, k) > 0 ==> entries_map(es).contains_key(k)
}

/// Entry `a` comes before entry `b` in descending order of count, ties
/// kept in table order.
pub open spec fn ranks_before(es: Seq<(String, usize)>, a: int, b: int) -> bool {
    es[a].1 > es[b].1 || (es[a].1 == es[b].1 && a < b)
}

/// `idx` lists the positions of the `m` highest-ranked entries of `es`,
/// best first.
pub open spec fn top_positions(es: Seq<(String, usize)>, idx: Seq<int>, m: nat) -> bool {
    &&& idx.len() == m
    &&& forall|t: int| 0 <= t < idx.len() ==> 0 <= #[trigger] idx[t] < es.len()
    &&& forall|t: int, u: int| 0 <= t < u < idx.len() ==> ranks_before(es, #[trigger] idx[t], #[trigger] idx[u])
    &&& forall|t: int, j: int|
        0 <= t < idx.len() && 0 <= j < es.len() && !idx.contains(j) ==> #[trigger] ranks_before(es, idx[t], j)
}

/// At most `cap`, or all of them when there are fewer.
pub open spec fn capped(n: nat, cap: nat) -> nat {
    if n < cap {
        n
    } else {
        cap
    }
}

/// `top` holds the entries of `es` at the positions `idx`, which are the
/// highest-ranked ones, best first, as many as [`capped`] allows.
pub open spec fn lists_top(es: Seq<(String, usize)>, top: Seq<(String, usize)>, idx: Seq<int>, cap: nat) -> bool {
    &&& top_positions(es, idx, capped(es.len(), cap))
    &&& top.len() == idx.len()
    &&& forall|t: int|
        0 <= t < idx.len() ==> (#[trigger] top[t]).0@ == es[idx[t]].0@ && top[t].1 == es[idx[t]].1
}

/// `top` is the head of `es` stably sorted by descending count, cut at
/// `cap` entries.
pub open spec fn is_top(es: Seq<(String, usize)>, top: Seq<(String, usize)>, cap: nat) -> bool {
    exists|idx: Seq<int>| #[trigger] lists_top(es, top, idx, cap)
}

/// Summary of the feedback log for the `feedback` command.
#[derive(Debug, Clone)]
pub struct FeedbackStats {
    pub total: usize,
    pub accepted: usize,
    pub rejected: usize,
    /// Accepted events per predicted key, in order of first appearance.
    pub per_key_accepted: Vec<(String, usize)>,
    /// Declined events per predicted key, in order of first appearance.
    pub per_key_rejected: Vec<(String, usize)>,
    /// The most declined keys with their counts, highest count first (ties
    /// in order of first appearance), at most five.
    pub top_rejected_keys: Vec<(String, usize)>,
}

fn bump(table: &mut Vec<(String, usize)>, key: &String, Ghost(evs): Ghost<Seq<Feedback>>, Ghost(accepted): Ghost<bool>)
    requires
        counts_keys(old(table)@, evs.drop_last(), accepted),
        evs.len() > 0,
        evs.len() <= usize::MAX,
        evs.last().accepted == accepted,
        evs.last().predicted@ == key@,
        forall|i: int| 0 <= i < old(table)@.len() ==> (#[trigger] old(table)@[i]).1 < evs.len(),
    ensures
        counts_keys(final(table)@, evs, accepted),
        forall|i: int| 0 <= i < final(table)@.len() ==> (#[trigger] final(table)@[i]).1 <= evs.len(),
{
    let ghost prev = evs.drop_last();
    match position_of_key(table, key.as_str()) {
        Some(j) => {
            proof {
                lemma_first_index_spec(table@, has_key::<usize>(key@));
            }
            let c = table[j].1;
            let ghost before = table@;
            table.set(j, (key.clone(), c + 1));
            proof {
                lemma_entries_update(before, j as int, table@[j as int]);
                assert forall|k: Seq<char>| tally(evs, accepted, k) > 0 implies entries_map(
                    table@,
                ).contains_key(k) by {
                    if k != key@ {
                        assert(tally(prev, accepted, k) > 0);
                    }
                }
            }
        },
        None => {
            proof {
                lemma_first_index_spec(table@, has_key::<usize>(key@));
                assert forall|a: int| 0 <= a < table@.len() implies (#[trigger] table@[a]).0@
                    != key@ by {
                    assert(!(has_key::<usize>(key@))(table@[a]));
                }
                lemma_entries_absent(table@, key@);
                assert(tally(prev, accepted, key@) == 0);
            }
            let ghost before = table@;
            table.push((key.clone(), 1));
            proof {
                assert(table@.drop_last() =~= before);
                assert forall|a: int, b: int| 0 <= a < b < table@.len() implies #[trigger] table@[a].0@
                    != #[trigger] table@[b].0@ by {
                    if b == before.len() {
                        assert(table@[a] == before[a]);
                    } else {
                        assert(table@[a] == before[a] && table@[b] == before[b]);
                    }
                }
                assert forall|i: int| 0 <= i < table@.len() implies (#[trigger] table@[i]).1 == tally(
                    evs,
                    accepted,
                    table@[i].0@,
                ) by {
                    if i < before.len() {
                        assert(table@[i] == before[i]);
                    }
                }
                assert forall|k: Seq<char>| tally(evs, accepted, k) > 0 implies entries_map(
                    table@,
                ).contains_key(k) by {
                    if k != key@ {
                        assert(tally(prev, accepted, k) > 0);
                    }
                }
            }
        },
    }
}

/// The (at most) `cap` entries with the highest counts, best first, ties
/// in table order.
pub fn top_entries(es: &Vec<(String, usize)>, cap: usize) -> (r: Vec<(String, usize)>)
    ensures
        is_top(es@, r@, cap as nat),
{
    let n = es.len();
    let m: usize = if n < cap {
        n
    } else {
        cap
    };
    let mut taken: Vec<bool> = Vec::new();
    let mut z: usize = 0;
    while z < n
        invariant
            z <= n,
            n == es@.len(),
            taken@.len() == z,
            forall|j: int| 0 <= j < z ==> !(#[trigger] taken@[j]),
        decreases n - z,
    {
        taken.push(false);
        z += 1;
    }
    let mut r: Vec<(String, usize)> = Vec::new();
    let ghost mut idx: Seq<int> = Seq::empty();
    let mut t: usize = 0;
    while t < m
        invariant
            n == es@.len(),
            m <= n,
            m == capped(n as nat, cap as nat),
            t <= m,
            taken@.len() == n,
            idx.len() == t,
            r@.len() == t,
            forall|j: int| 0 <= j < n ==> (#[trigger] taken@[j] <==> idx.contains(j)),
            forall|u: int| 0 <= u < idx.len() ==> 0 <= #[trigger] idx[u] < n,
            forall|u: int, v: int| 0 <= u < v < idx.len() ==> ranks_before(es@, #[trigger] idx[u], #[trigger] idx[v]),
            forall|u: int, j: int|
                0 <= u < idx.len() && 0 <= j < n && !idx.contains(j) ==> #[trigger] ranks_before(es@, idx[u], j),
            forall|u: int| 0 <= u < idx.len() ==> (#[trigger] r@[u]).0@ == es@[idx[u]].0@ && r@[u].1 == es@[idx[u]].1,
        decreases m - t,
    {
        // at least one position is free: t < m <= n and exactly t are taken
        proof {
            lemma_free_position(idx, n as int);
        }
        let mut best: Option<usize> = None;
        let mut j: usize = 0;
        while j < n
            invariant
                n == es@.len(),
                taken@.len() == n,
                j <= n,
                best matches Some(b) ==> b < j && !taken@[b as int],
                best is None ==> forall|k: int| 0 <= k < j ==> #[trigger] taken@[k],
                best matches Some(b) ==> forall|k: int|
                    0 <= k < j && !(#[trigger] taken@[k]) && k != b ==> ranks_before(es@, b as int, k),
            decreases n - j,
        {
            if !taken[j] {
                match best {
                    None => {
                        best = Some(j);
                    },
                    Some(b) => {
                        if es[j].1 > es[b].1 {
                            best = Some(j);
                        }
                    },
                }
            }
            j += 1;
        }
        let b = match best {
            Some(b) => b,
            None => {
                proof {
                    let k = choose|k: int| 0 <= k < n && !idx.contains(k);
                    assert(taken@[k]);
                }
                0
            },
        };
        proof {
            if best is None {
                let k = choose|k: int| 0 <= k < n && !idx.contains(k);
                assert(taken@[k]);
                assert(false);
            }
        }
        let ghost old_idx = idx;
        proof {
            idx = idx.push(b as int);
            assert forall|u: int, v: int| 0 <= u < v < idx.len() implies ranks_before(es@, #[trigger] idx[u], #[trigger] idx[v]) by {
                if v == old_idx.len() {
                    assert(!old_idx.contains(b as int));
                    assert(idx[u] == old_idx[u]);
                } else {
                    assert(idx[u] == old_idx[u] && idx[v] == old_idx[v]);
                }
            }
            assert forall|u: int, k: int|
                0 <= u < idx.len() && 0 <= k < n && !idx.contains(k) implies #[trigger] ranks_before(es@, idx[u], k) by {
                assert(!old_idx.contains(k)) by {
                    if old_idx.contains(k) {
                        let w = choose|w: int| 0 <= w < old_idx.len() && old_idx[w] == k;
                        assert(idx[w] == k);
                    }
                }
                if u == old_idx.len() {
                    if k == b {
                        assert(idx[old_idx.len() as int] == k);
                    }
                    assert(!taken@[k]);
                } else {
                    assert(idx[u] == old_idx[u]);
                }
            }
        }
        taken.set(b, true);
        proof {
            assert forall|k: int| 0 <= k < n implies (#[trigger] taken@[k] <==> idx.contains(k)) by {
                if k == b {
                    assert(idx[idx.len() - 1] == k);
                } else {
                    if idx.contains(k) {
                        let w = choose|w: int| 0 <= w < idx.len() && idx[w] == k;
                        assert(w < old_idx.len());
                        assert(old_idx[w] == k);
                    }
                    if old_idx.contains(k) {
                        let w = choose|w: int| 0 <= w < old_idx.len() && old_idx[w] == k;
                        assert(idx[w] == k);
                    }
                }
            }
        }
        let ghost old_r = r@;
        r.push((es[b].0.clone(), es[b].1));
        proof {
            assert forall|u: int| 0 <= u < idx.len() implies (#[trigger] r@[u]).0@ == es@[idx[u]].0@
                && r@[u].1 == es@[idx[u]].1 by {
                if u < old_idx.len() {
                    assert(r@[u] == old_r[u]);
                    assert(idx[u] == old_idx[u]);
                }
            }
        }
        t += 1;
    }
    assert(lists_top(es@, r@, idx, cap as nat));
    r
}

/// With `idx` listing fewer than `n` distinct positions below `n`, some
/// position below `n` is not listed.
proof fn lemma_free_position(idx: Seq<int>, n: int)
    requires
        idx.len() < n,
        forall|u: int| 0 <= u < idx.len() ==> 0 <= #[trigger] idx[u] < n,
        forall|u: int, v: int| 0 <= u < v < idx.len() ==> #[trigger] idx[u] != #[trigger] idx[v],
    ensures
        exists|k: int| 0 <= k < n && !idx.contains(k),
{
    let s = idx.to_set();
    let full = vstd::set_lib::set_int_range(0, n);
    vstd::set_lib::lemma_int_range(0, n);
    assert(idx.no_duplicates()) by {
        assert forall|u: int, v: int| 0 <= u < idx.len() && 0 <= v < idx.len() && u != v implies idx[u]
            != idx[v] by {
            if u < v {
                assert(idx[u] != idx[v]);
            } else {
                assert(idx[v] != idx[u]);
            }
        }
    }
    idx.unique_seq_to_set();
    if forall|k: int| 0 <= k < n ==> idx.contains(k) {
        assert(s =~= full) by {
            assert forall|k: int| #[trigger] s.contains(k) implies full.contains(k) by {
                let w = choose|w: int| 0 <= w < idx.len() && idx[w] == k;
                assert(0 <= idx[w] < n);
            }
            assert forall|k: int| #[trigger] full.contains(k) implies s.contains(k) by {
                assert(idx.contains(k));
            }
        }
        assert(false);
    }
}

impl FeedbackStats {
    /// Count the log: totals by outcome, per-key counts, and the most
    /// declined keys.
    pub fn from_queue(events: &[Feedback]) -> (r: FeedbackStats)
        ensures
            r.total == events@.len(),
            r.accepted == count_outcome(events@, true),
            r.rejected == count_outcome(events@, false),
            counts_keys(r.per_key_accepted@, events@, true),
            counts_keys(r.per_key_rejected@, events@, false),
            is_top(r.per_key_rejected@, r.top_rejected_keys@, 5),
    {
        let mut accepted: usize = 0;
        let mut rejected: usize = 0;
        let mut per_key_accepted: Vec<(String, usize)> = Vec::new();
        let mut per_key_rejected: Vec<(String, usize)> = Vec::new();
        let mut i: usize = 0;
        while i < events.len()
            invariant
                i <= events@.len(),
                accepted == count_outcome(events@.take(i as int), true),
                rejected == count_outcome(events@.take(i as int), false),
                accepted + rejected == i,
                counts_keys(per_key_accepted@, events@.take(i as int), true),
                counts_keys(per_key_rejected@, events@.take(i as int), false),
                forall|a: int| 0 <= a < per_key_accepted@.len() ==> (#[trigger] per_key_accepted@[a]).1 <= i,
                forall|a: int| 0 <= a < per_key_rejected@.len() ==> (#[trigger] per_key_rejected@[a]).1 <= i,
            decreases events@.len() - i,
        {
            let ev = &events[i];
            let ghost cur = events@.take(i + 1);
            proof {
                assert(cur.drop_last() =~= events@.take(i as int));
                assert(cur.last() == *ev);
                assert(forall|a: int| 0 <= a < per_key_accepted@.len() ==> (#[trigger] per_key_accepted@[a]).1 < cur.len());
                assert(forall|a: int| 0 <= a < per_key_rejected@.len() ==> (#[trigger] per_key_rejected@[a]).1 < cur.len());
            }
            if ev.accepted {
                accepted += 1;
                bump(&mut per_key_accepted, &ev.predicted, Ghost(cur), Ghost(true));
                proof {
                    assert forall|a: int| 0 <= a < per_key_rejected@.len() implies (#[trigger] per_key_rejected@[a]).1 == tally(
                        cur,
                        false,
                        per_key_rejected@[a].0@,
                    ) by {}
                }
            } else {
                rejected += 1;
                bump(&mut per_key_rejected, &ev.predicted, Ghost(cur), Ghost(false));
                proof {
                    assert forall|a: int| 0 <= a < per_key_accepted@.len() implies (#[trigger] per_key_accepted@[a]).1 == tally(
                        cur,
                        true,
                        per_key_accepted@[a].0@,
                    ) by {}
                }
            }
            i += 1;
        }
        assert(events@.take(i as int) =~= events@);
        let top_rejected_keys = top_entries(&per_key_rejected, 5);
        FeedbackStats {
            total: events.len(),
            accepted,
            rejected,
            per_key_accepted,
            per_key_rejected,
            top_rejected_keys,
        }
    }
}

} // verus!
