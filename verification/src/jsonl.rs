//! JSON-lines framing, the on-disk shape of the feedback log and of the
//! seed corpus: one record per line, each followed by a newline; blank
//! lines are skipped on reading. Turning a record into JSON and back is
//! the caller's.
use vstd::prelude::*;
use crate::chars::{chars_of, lines, not_newline, split_lines, string_of, trim, trim_vec, lemma_run_len_exact};

verus! {

/// The records of a JSON-lines text: its lines (as `str::lines` cuts
/// them) that are not blank.
pub open spec fn records_of(text: Seq<char>) -> Seq<Seq<char>> {
    lines(text).filter(|l: Seq<char>| trim(l).len() > 0)
}

/// The JSON-lines text of some records: each one followed by `\n`.
pub open spec fn text_of(records: Seq<Seq<char>>) -> Seq<char>
    decreases records.len(),
{
    if records.len() == 0 {
        seq![]
    } else {
        records[0] + seq!['\n'] + text_of(records.drop_first())
    }
}

/// A record that survives framing: no line break in it, and not blank.
pub open spec fn is_plain_record(r: Seq<char>) -> bool {
    &&& forall|i: int| 0 <= i < r.len() ==> r[i] != '\n' && r[i] != '\r'
    &&& trim(r).len() > 0
}

/// The non-blank lines of a JSON-lines text.
pub fn records(text: &str) -> (r: Vec<String>)
    ensures
        r@.map_values(|s: String| s@) == records_of(text@),
{
    let cs = chars_of(text);
    let ls = split_lines(cs.as_slice());
    let ghost all = lines(text@);
    let ghost keep = |l: Seq<char>| trim(l).len() > 0;
    let mut out: Vec<String> = Vec::new();
    let mut i: usize = 0;
    while i < ls.len()
        invariant
            i <= ls@.len(),
            ls.deep_view() == all,
            all == lines(text@),
            keep == (|l: Seq<char>| trim(l).len() > 0),
            out@.map_values(|s: String| s@) == all.take(i as int).filter(keep),
        decreases ls@.len() - i,
    {
        proof {
            reveal(Seq::filter);
            assert(all.take(i + 1).drop_last() =~= all.take(i as int));
            assert(ls@[i as int]@ == all[i as int]);
        }
        let t = trim_vec(ls[i].as_slice());
        if t.len() > 0 {
            let ghost before = out@.map_values(|s: String| s@);
            out.push(string_of(ls[i].as_slice()));
            assert(out@.map_values(|s: String| s@) =~= before.push(all[i as int]));
        } else {
            assert(out@.map_values(|s: String| s@) =~= all.take(i + 1).filter(keep));
        }
        i += 1;
    }
    assert(all.take(i as int) =~= all);
    out
}

/// The JSON-lines text of some records.
pub fn text(records: &Vec<String>) -> (r: String)
    ensures
        r@ == text_of(records@.map_values(|s: String| s@)),
{
    let ghost rs = records@.map_values(|s: String| s@);
    let mut i: usize = records.len();
    let mut tail: Vec<char> = Vec::new();
    // Built back to front so that the text follows the definition.
    while i > 0
        invariant
            i <= records@.len(),
            rs == records@.map_values(|s: String| s@),
            tail@ == text_of(rs.skip(i as int)),
        decreases i,
    {
        i -= 1;
        let mut piece: Vec<char> = chars_of(records[i].as_str());
        piece.push('\n');
        let ghost old_tail = tail@;
        let mut rest = tail;
        piece.append(&mut rest);
        tail = piece;
        proof {
            assert(rs.skip(i as int).drop_first() =~= rs.skip(i + 1));
            assert(rs.skip(i as int)[0] == records@[i as int]@);
            assert(tail@ =~= records@[i as int]@ + seq!['\n'] + old_tail);
        }
    }
    assert(rs.skip(0) =~= rs);
    string_of(tail.as_slice())
}

/// Framing a plain record, then the rest, cuts off exactly that record.
proof fn lemma_lines_cons(r: Seq<char>, rest: Seq<char>)
    requires
        forall|i: int| 0 <= i < r.len() ==> r[i] != '\n' && r[i] != '\r',
    ensures
        lines(r + seq!['\n'] + rest) == seq![r] + lines(rest),
{
    let s = r + seq!['\n'] + rest;
    assert(s.skip(0) =~= s);
    lemma_run_len_exact(s, not_newline(), 0, r.len() as int);
    assert(s.take(r.len() as int) =~= r);
    assert(s.skip(r.len() as int + 1) =~= rest);
    if r.len() > 0 {
        assert(r.last() != '\r');
    }
}

/// Reading back the text of plain records gives the records.
pub proof fn records_round_trip(rs: Seq<Seq<char>>)
    requires
        forall|i: int| 0 <= i < rs.len() ==> is_plain_record(#[trigger] rs[i]),
    ensures
        records_of(text_of(rs)) == rs,
    decreases rs.len(),
{
    reveal(Seq::filter);
    if rs.len() > 0 {
        let rest = rs.drop_first();
        assert forall|i: int| 0 <= i < rest.len() implies is_plain_record(#[trigger] rest[i]) by {
            assert(rest[i] == rs[i + 1]);
        }
        records_round_trip(rest);
        assert(is_plain_record(rs[0]));
        lemma_lines_cons(rs[0], text_of(rest));
        let keep = |l: Seq<char>| trim(l).len() > 0;
        let ls = lines(text_of(rs));
        assert(ls == seq![rs[0]] + lines(text_of(rest)));
        lemma_filter_cons(rs[0], lines(text_of(rest)), keep);
        assert(rs =~= seq![rs[0]] + rest);
    }
}

proof fn lemma_filter_cons(x: Seq<char>, s: Seq<Seq<char>>, p: spec_fn(Seq<char>) -> bool)
    requires
        p(x),
    ensures
        (seq![x] + s).filter(p) == seq![x] + s.filter(p),
    decreases s.len(),
{
    reveal(Seq::filter);
    if s.len() == 0 {
        assert((seq![x] + s) =~= seq![x]);
        assert(seq![x].drop_last() =~= Seq::<Seq<char>>::empty());
        assert(seq![x] + s.filter(p) =~= seq![x]);
    } else {
        lemma_filter_cons(x, s.drop_last(), p);
        assert((seq![x] + s).drop_last() =~= seq![x] + s.drop_last());
        assert((seq![x] + s).last() == s.last());
        if p(s.last()) {
            assert(seq![x] + s.filter(p) =~= (seq![x] + s.drop_last().filter(p)).push(s.last()));
        } else {
            assert(seq![x] + s.filter(p) =~= seq![x] + s.drop_last().filter(p));
        }
    }
}

} // verus!
