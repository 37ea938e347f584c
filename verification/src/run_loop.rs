//! The fill run's decisions: what to do with each field, the JavaScript
//! that fills and reads back a field, the tally of a run and its summary.
//! Driving the browser is the caller's.
use vstd::prelude::*;
use crate::chars::{ascii_lower_seq, chars_eq, push_all, push_str, string_of, to_ascii_lowercase, trim, trim_str};
use crate::decimal::{dec_chars, dec_string};
use crate::feedback::{Feedback, Mode};
use crate::learning::{count_outcome, UserDecision};
use crate::profile::{FieldDescriptor, FieldView};

verus! {

/// What to do with one field.
#[derive(Debug, Clone, PartialEq, Eq)]
pub enum FillDecision<'a> {
    /// Leave the field alone, for the reason given.
    Skip(SkipReason),
    /// Fill the field with this value.
    Fill { value: &'a str },
    /// Ask the user first, proposing this value for this key.
    Prompt { value: &'a str, key: &'static str },
}

#[derive(Debug, Clone, Copy, PartialEq, Eq, Structural)]
pub enum SkipReason {
    /// The classifier found no key.
    NotClassified,
    /// The profile has no value for the key.
    NoProfileValue,
    /// The field has no DOM id to target.
    NoDomId,
    /// Shadow mode, and the confidence is below the threshold.
    BelowConfidenceThreshold,
    /// The user declined this field shape before.
    UserPreviouslyRejected,
}

/// The decision for one field. A missing key, then a missing value, then
/// a missing DOM id skip the field whatever else holds; then the user's
/// earlier decision on the field shape wins over the mode; then the mode
/// decides (Shadow fills only when the confidence cleared the threshold).
pub open spec fn decision_spec<'a>(
    mode: Mode,
    key: &'static str,
    above_threshold: bool,
    value: Option<&'a str>,
    has_dom_id: bool,
    prior: Option<UserDecision>,
) -> FillDecision<'a> {
    if key@.len() == 0 {
        FillDecision::Skip(SkipReason::NotClassified)
    } else if value is None {
        FillDecision::Skip(SkipReason::NoProfileValue)
    } else if !has_dom_id {
        FillDecision::Skip(SkipReason::NoDomId)
    } else if prior == Some(UserDecision::Rejected) {
        FillDecision::Skip(SkipReason::UserPreviouslyRejected)
    } else if prior == Some(UserDecision::Accepted) {
        FillDecision::Fill { value: value->Some_0 }
    } else {
        match mode {
            Mode::TrainingWheels => FillDecision::Prompt { value: value->Some_0, key },
            Mode::Shadow => if above_threshold {
                FillDecision::Fill { value: value->Some_0 }
            } else {
                FillDecision::Skip(SkipReason::BelowConfidenceThreshold)
            },
            Mode::Chaos => FillDecision::Fill { value: value->Some_0 },
        }
    }
}

/// Apply the mode's policy to one field. `value` is the profile's
/// non-empty value for the classified key; `above_threshold` says whether
/// the classifier's confidence cleared the Shadow threshold; `prior` is the
/// user's earlier decision on this field shape.
pub fn decide<'a>(
    mode: Mode,
    key: &'static str,
    above_threshold: bool,
    value: Option<&'a str>,
    has_dom_id: bool,
    prior: Option<UserDecision>,
) -> (r: FillDecision<'a>)
    ensures
        r == decision_spec(mode, key, above_threshold, value, has_dom_id, prior),
{
    if key.is_empty() {
        return FillDecision::Skip(SkipReason::NotClassified);
    }
    let value = match value {
        Some(v) => v,
        None => {
            return FillDecision::Skip(SkipReason::NoProfileValue);
        },
    };
    if !has_dom_id {
        return FillDecision::Skip(SkipReason::NoDomId);
    }
    match prior {
        Some(UserDecision::Rejected) => {
            return FillDecision::Skip(SkipReason::UserPreviouslyRejected);
        },
        Some(UserDecision::Accepted) => {
            return FillDecision::Fill { value };
        },
        None => {},
    }
    match mode {
        Mode::TrainingWheels => FillDecision::Prompt { value, key },
        Mode::Shadow => {
            if above_threshold {
                FillDecision::Fill { value }
            } else {
                FillDecision::Skip(SkipReason::BelowConfidenceThreshold)
            }
        },
        Mode::Chaos => FillDecision::Fill { value },
    }
}

/// A user's earlier decision wins over every mode, but never over a
/// missing key, value or DOM id.
pub proof fn prior_decision_overrides_mode<'a>(
    mode: Mode,
    key: &'static str,
    above_threshold: bool,
    value: Option<&'a str>,
    has_dom_id: bool,
    prior: UserDecision,
)
    ensures
        key@.len() > 0 && value is Some && has_dom_id ==> decision_spec(
            mode,
            key,
            above_threshold,
            value,
            has_dom_id,
            Some(prior),
        ) == match prior {
            UserDecision::Rejected => FillDecision::Skip(SkipReason::UserPreviouslyRejected),
            UserDecision::Accepted => FillDecision::Fill { value: value->Some_0 },
        },
        key@.len() == 0 ==> decision_spec(mode, key, above_threshold, value, has_dom_id, Some(prior))
            == FillDecision::<'a>::Skip(SkipReason::NotClassified),
{
}

/// A field is filled or proposed only with the profile's own value.
pub proof fn decisions_carry_the_profile_value<'a>(
    mode: Mode,
    key: &'static str,
    above_threshold: bool,
    value: Option<&'a str>,
    has_dom_id: bool,
    prior: Option<UserDecision>,
)
    ensures
        match decision_spec(mode, key, above_threshold, value, has_dom_id, prior) {
            FillDecision::Fill { value: v } => value == Some(v),
            FillDecision::Prompt { value: v, key: k } => value == Some(v) && k == key,
            FillDecision::Skip(_) => true,
        },
{
}

/// In training wheels nothing is filled without the user's say: a field is
/// filled only where the user accepted that field shape before, and a
/// field with no earlier decision is proposed, never filled. Only Chaos
/// fills such a field on its own, and it does so whatever the confidence.
pub proof fn only_chaos_fills_unasked<'a>(
    mode: Mode,
    key: &'static str,
    above_threshold: bool,
    value: Option<&'a str>,
    has_dom_id: bool,
    prior: Option<UserDecision>,
)
    ensures
        mode == Mode::TrainingWheels && decision_spec(
            mode,
            key,
            above_threshold,
            value,
            has_dom_id,
            prior,
        ) is Fill ==> prior == Some(UserDecision::Accepted),
        mode == Mode::TrainingWheels && prior is None && key@.len() > 0 && value is Some
            && has_dom_id ==> decision_spec(mode, key, above_threshold, value, has_dom_id, prior)
            is Prompt,
        mode == Mode::Chaos && prior is None && key@.len() > 0 && value is Some && has_dom_id
            ==> decision_spec(mode, key, above_threshold, value, has_dom_id, prior) is Fill,
        decision_spec(mode, key, above_threshold, value, has_dom_id, prior) is Prompt ==> mode
            == Mode::TrainingWheels,
{
}

// ─── The JavaScript that fills and reads back a field ───────────────────

/// A value escaped for a single-quoted JavaScript string: each backslash
/// doubled, then each `'` preceded by a backslash.
pub open spec fn js_escape(s: Seq<char>) -> Seq<char>
    decreases s.len(),
{
    if s.len() == 0 {
        seq![]
    } else {
        js_escape(s.drop_last()) + if s.last() == '\\' {
            seq!['\\', '\\']
        } else if s.last() == '\'' {
            seq!['\\', '\'']
        } else {
            seq![s.last()]
        }
    }
}

pub const FILL_JS_HEAD: &'static str = "\n(() => {\n    const el = document.getElementById('";

pub const FILL_JS_MID: &'static str = "');\n    if (!el) return false;\n    el.value = '";

pub const FILL_JS_TAIL: &'static str = "';\n    el.dispatchEvent(new Event('input', { bubbles: true }));\n    el.dispatchEvent(new Event('change', { bubbles: true }));\n    return true;\n})()\n";

/// The script that sets a field's value by DOM id and fires `input` and
/// `change` so that framework-managed forms see the new value.
pub open spec fn fill_script(id: Seq<char>, value: Seq<char>) -> Seq<char> {
    FILL_JS_HEAD@ + id + FILL_JS_MID@ + js_escape(value) + FILL_JS_TAIL@
}

fn escape_js(s: &str) -> (r: Vec<char>)
    ensures
        r@ == js_escape(s@),
{
    let cs = crate::chars::chars_of(s);
    let mut out: Vec<char> = Vec::new();
    let mut i: usize = 0;
    while i < cs.len()
        invariant
            i <= cs@.len(),
            cs@ == s@,
            out@ == js_escape(cs@.take(i as int)),
        decreases cs@.len() - i,
    {
        proof {
            let t = cs@.take(i + 1);
            assert(t.drop_last() =~= cs@.take(i as int));
        }
        let c = cs[i];
        if c == '\\' {
            out.push('\\');
            out.push('\\');
        } else if c == '\'' {
            out.push('\\');
            out.push('\'');
        } else {
            out.push(c);
        }
        i += 1;
    }
    assert(cs@.take(i as int) =~= cs@);
    out
}

/// The fill script for one field.
pub fn fill_js(id: &str, value: &str) -> (r: String)
    ensures
        r@ == fill_script(id@, value@),
{
    let mut out: Vec<char> = Vec::new();
    push_str(&mut out, FILL_JS_HEAD);
    push_str(&mut out, id);
    push_str(&mut out, FILL_JS_MID);
    let e = escape_js(value);
    push_all(&mut out, e.as_slice());
    push_str(&mut out, FILL_JS_TAIL);
    string_of(out.as_slice())
}

pub const READ_BACK_JS_HEAD: &'static str = "(() => { const el = document.getElementById('";

pub const READ_BACK_JS_TAIL: &'static str = "'); return el ? el.value : null; })()";

/// The script that reads a field's current value by DOM id, `null` when
/// the element is gone.
pub fn read_back_js(id: &str) -> (r: String)
    ensures
        r@ == READ_BACK_JS_HEAD@ + id@ + READ_BACK_JS_TAIL@,
{
    let mut out: Vec<char> = Vec::new();
    push_str(&mut out, READ_BACK_JS_HEAD);
    push_str(&mut out, id);
    push_str(&mut out, READ_BACK_JS_TAIL);
    string_of(out.as_slice())
}

/// The answer to a yes/no prompt is yes: `y` or `yes` in any ASCII case,
/// surrounding whitespace ignored.
pub open spec fn is_yes_answer(line: Seq<char>) -> bool {
    ascii_lower_seq(trim(line)) == seq!['y'] || ascii_lower_seq(trim(line)) == seq!['y', 'e', 's']
}

pub fn is_yes(line: &str) -> (r: bool)
    ensures
        r == is_yes_answer(line@),
{
    let t = trim_str(line);
    let a = to_ascii_lowercase(t.as_slice());
    let one = vec!['y'];
    let three = vec!['y', 'e', 's'];
    assert(one@ =~= seq!['y']);
    assert(three@ =~= seq!['y', 'e', 's']);
    chars_eq(a.as_slice(), one.as_slice()) || chars_eq(a.as_slice(), three.as_slice())
}

// ─── The re-render check ────────────────────────────────────────────────

/// What the check after filling found: fields that came back blank (or
/// changed), how many of those took a second fill, how many did not.
#[derive(Debug, Clone, Copy, PartialEq, Eq, Structural)]
pub struct VerifyOutcome {
    pub retried_total: usize,
    pub retried_filled: usize,
    pub failed: usize,
}

impl Default for VerifyOutcome {
    fn default() -> (r: VerifyOutcome)
        ensures
            r == (VerifyOutcome { retried_total: 0, retried_filled: 0, failed: 0 }),
    {
        VerifyOutcome { retried_total: 0, retried_filled: 0, failed: 0 }
    }
}

impl VerifyOutcome {
    /// Count one field that needed a second fill, and whether the second
    /// fill held.
    pub fn record_retry(&mut self, refilled: bool)
        requires
            old(self).retried_total < usize::MAX,
            old(self).retried_filled < usize::MAX,
            old(self).failed < usize::MAX,
        ensures
            final(self).retried_total == old(self).retried_total + 1,
            refilled ==> final(self).retried_filled == old(self).retried_filled + 1
                && final(self).failed == old(self).failed,
            !refilled ==> final(self).failed == old(self).failed + 1 && final(self).retried_filled
                == old(self).retried_filled,
    {
        self.retried_total += 1;
        if refilled {
            self.retried_filled += 1;
        } else {
            self.failed += 1;
        }
    }
}

// ─── The tally of a run ─────────────────────────────────────────────────

/// What a run did so far: counts, the feedback it produced and the
/// fields to check again after filling (DOM id and value).
#[derive(Debug)]
pub struct RunTally {
    pub filled: usize,
    pub skipped: usize,
    pub prompted: usize,
    pub feedback_events: Vec<Feedback>,
    pub to_verify: Vec<(String, String)>,
}

/// The books of a run after `steps` fields were settled: each field was
/// filled or skipped, each fill is queued for the re-render check and
/// stands in the feedback as one accepted event, and no more prompts were
/// shown than fields seen. [`RunTally::new`] starts them balanced at zero
/// steps and each [`RunTally::settle`] keeps them balanced one step on, so
/// they hold after every run.
pub open spec fn books_balance(t: RunTally, steps: nat) -> bool {
    &&& t.filled + t.skipped == steps
    &&& t.to_verify@.len() == t.filled
    &&& count_outcome(t.feedback_events@, true) == t.filled
    &&& t.prompted <= steps
}

impl RunTally {
    pub fn new() -> (r: RunTally)
        ensures
            r.filled == 0 && r.skipped == 0 && r.prompted == 0,
            r.feedback_events@.len() == 0,
            r.to_verify@.len() == 0,
            books_balance(r, 0),
    {
        RunTally {
            filled: 0,
            skipped: 0,
            prompted: 0,
            feedback_events: Vec::new(),
            to_verify: Vec::new(),
        }
    }

    /// A field left alone.
    pub fn record_skip(&mut self)
        requires
            old(self).skipped < usize::MAX,
        ensures
            final(self).skipped == old(self).skipped + 1,
            final(self).filled == old(self).filled,
            final(self).prompted == old(self).prompted,
            final(self).feedback_events@ == old(self).feedback_events@,
            final(self).to_verify@ == old(self).to_verify@,
    {
        self.skipped += 1;
    }

    /// A prompt shown to the user.
    pub fn record_prompt(&mut self)
        requires
            old(self).prompted < usize::MAX,
        ensures
            final(self).prompted == old(self).prompted + 1,
            final(self).filled == old(self).filled,
            final(self).skipped == old(self).skipped,
            final(self).feedback_events@ == old(self).feedback_events@,
            final(self).to_verify@ == old(self).to_verify@,
    {
        self.prompted += 1;
    }

    /// A field filled with `value` under `key`: counted, queued for the
    /// re-render check, and recorded as accepted feedback.
    pub fn record_fill(&mut self, d: &FieldDescriptor, key: &str, value: &str)
        requires
            old(self).filled < usize::MAX,
        ensures
            final(self).filled == old(self).filled + 1,
            final(self).skipped == old(self).skipped,
            final(self).prompted == old(self).prompted,
            final(self).to_verify@.len() == old(self).to_verify@.len() + 1,
            final(self).to_verify@.drop_last() == old(self).to_verify@,
            final(self).to_verify@.last().0@ == d.id@,
            final(self).to_verify@.last().1@ == value@,
            final(self).feedback_events@.len() == old(self).feedback_events@.len() + 1,
            final(self).feedback_events@.drop_last() == old(self).feedback_events@,
            final(self).feedback_events@.last().field@ == d@,
            final(self).feedback_events@.last().predicted@ == key@,
            final(self).feedback_events@.last().actual@ == key@,
            final(self).feedback_events@.last().accepted,
    {
        self.filled += 1;
        self.to_verify.push((d.id.clone(), value.to_owned()));
        self.feedback_events.push(
            Feedback {
                field: d.duplicate(),
                predicted: key.to_owned(),
                actual: key.to_owned(),
                accepted: true,
            },
        );
        assert(self.to_verify@.drop_last() =~= old(self).to_verify@);
        assert(self.feedback_events@.drop_last() =~= old(self).feedback_events@);
    }

    /// A proposal the user declined: counted as skipped and recorded as
    /// declined feedback with no confirmed key.
    pub fn record_declined(&mut self, d: &FieldDescriptor, key: &str)
        requires
            old(self).skipped < usize::MAX,
        ensures
            final(self).skipped == old(self).skipped + 1,
            final(self).filled == old(self).filled,
            final(self).prompted == old(self).prompted,
            final(self).to_verify@ == old(self).to_verify@,
            final(self).feedback_events@.len() == old(self).feedback_events@.len() + 1,
            final(self).feedback_events@.drop_last() == old(self).feedback_events@,
            final(self).feedback_events@.last().field@ == d@,
            final(self).feedback_events@.last().predicted@ == key@,
            final(self).feedback_events@.last().actual@.len() == 0,
            !final(self).feedback_events@.last().accepted,
    {
        self.skipped += 1;
        self.feedback_events.push(
            Feedback {
                field: d.duplicate(),
                predicted: key.to_owned(),
                actual: String::new(),
                accepted: false,
            },
        );
        assert(self.feedback_events@.drop_last() =~= old(self).feedback_events@);
    }

    /// Carry out the decision for field `d` (classified as `key`): count
    /// it, record feedback, and hand back the script to run in the page
    /// when the field is to be filled. `answer` is the user's reply when
    /// the decision was to ask; it is not read otherwise.
    pub fn settle(&mut self, d: &FieldDescriptor, key: &str, decision: &FillDecision, answer: bool) -> (r: Option<String>)
        requires
            old(self).filled < usize::MAX,
            old(self).skipped < usize::MAX,
            old(self).prompted < usize::MAX,
        ensures
            match *decision {
                FillDecision::Skip(_) => {
                    &&& r is None
                    &&& final(self).skipped == old(self).skipped + 1
                    &&& final(self).filled == old(self).filled
                    &&& final(self).prompted == old(self).prompted
                    &&& final(self).feedback_events@ == old(self).feedback_events@
                    &&& final(self).to_verify@ == old(self).to_verify@
                },
                FillDecision::Fill { value } => {
                    &&& r matches Some(js) && js@ == fill_script(d.id@, value@)
                    &&& final(self).filled == old(self).filled + 1
                    &&& final(self).skipped == old(self).skipped
                    &&& final(self).prompted == old(self).prompted
                    &&& final(self).to_verify@ == old(self).to_verify@.push(final(self).to_verify@.last())
                    &&& final(self).to_verify@.last().0@ == d.id@
                    &&& final(self).to_verify@.last().1@ == value@
                    &&& final(self).feedback_events@.len() == old(self).feedback_events@.len() + 1
                    &&& final(self).feedback_events@.drop_last() == old(self).feedback_events@
                    &&& final(self).feedback_events@.last().field@ == d@
                    &&& final(self).feedback_events@.last().predicted@ == key@
                    &&& final(self).feedback_events@.last().actual@ == key@
                    &&& final(self).feedback_events@.last().accepted
                },
                FillDecision::Prompt { value, key: k } => {
                    &&& final(self).prompted == old(self).prompted + 1
                    &&& final(self).feedback_events@.len() == old(self).feedback_events@.len() + 1
                    &&& final(self).feedback_events@.drop_last() == old(self).feedback_events@
                    &&& final(self).feedback_events@.last().field@ == d@
                    &&& final(self).feedback_events@.last().predicted@ == k@
                    &&& final(self).feedback_events@.last().accepted == answer
                    &&& if answer {
                        &&& r matches Some(js) && js@ == fill_script(d.id@, value@)
                        &&& final(self).filled == old(self).filled + 1
                        &&& final(self).skipped == old(self).skipped
                        &&& final(self).to_verify@ == old(self).to_verify@.push(final(self).to_verify@.last())
                        &&& final(self).to_verify@.last().0@ == d.id@
                        &&& final(self).to_verify@.last().1@ == value@
                        &&& final(self).feedback_events@.last().actual@ == k@
                    } else {
                        &&& r is None
                        &&& final(self).filled == old(self).filled
                        &&& final(self).skipped == old(self).skipped + 1
                        &&& final(self).to_verify@ == old(self).to_verify@
                        &&& final(self).feedback_events@.last().actual@.len() == 0
                    }
                },
            },
            forall|n: nat| #[trigger] books_balance(*old(self), n) ==> books_balance(*final(self), n + 1),
    {
        match decision {
            FillDecision::Skip(_) => {
                self.record_skip();
                None
            },
            FillDecision::Fill { value } => {
                self.record_fill(d, key, value);
                assert(self.to_verify@ =~= old(self).to_verify@.push(self.to_verify@.last()));
                Some(fill_js(d.id.as_str(), value))
            },
            FillDecision::Prompt { value, key: k } => {
                self.record_prompt();
                if answer {
                    self.record_fill(d, k, value);
                    assert(self.to_verify@ =~= old(self).to_verify@.push(self.to_verify@.last()));
                    Some(fill_js(d.id.as_str(), value))
                } else {
                    self.record_declined(d, k);
                    None
                }
            },
        }
    }
}

/// The result of one run, for printing.
#[derive(Debug)]
pub struct RunSummary {
    pub url: String,
    pub fields_seen: usize,
    pub fields_filled: usize,
    pub fields_skipped: usize,
    /// Where the screenshot of the filled form was saved, as the path
    /// displays.
    pub screenshot_path: Option<String>,
    /// Feedback events appended during this run.
    pub feedback_events: Vec<Feedback>,
}

pub const SUMMARY_WARNING: &'static str = "\n  ⚠ NOT submitted — review in browser, click Submit yourself.";

/// The summary text before the screenshot line.
pub open spec fn summary_head(s: RunSummary, queue_depth: nat) -> Seq<char> {
    "atsisbroken "@ + "0.1.0"@ + "\n  url: "@ + s.url@ + "\n  fields seen: "@ + dec_string(
        s.fields_seen as nat,
    ) + "\n  filled: "@ + dec_string(s.fields_filled as nat)
        + "\n  skipped (unknown / freetext / empty): "@ + dec_string(s.fields_skipped as nat)
        + "\n  feedback queue: "@ + dec_string(queue_depth) + " events on disk"@
}

/// The run's summary for the terminal. It always ends by saying the form
/// was not submitted.
pub fn format_summary(s: &RunSummary, queue_depth: usize) -> (r: String)
    ensures
        s.screenshot_path is None ==> r@ == summary_head(*s, queue_depth as nat) + SUMMARY_WARNING@,
        s.screenshot_path matches Some(p) ==> r@ == summary_head(*s, queue_depth as nat)
            + "\n  screenshot: "@ + p@ + SUMMARY_WARNING@,
{
    let mut out: Vec<char> = Vec::new();
    push_str(&mut out, "atsisbroken ");
    push_str(&mut out, crate::version());
    push_str(&mut out, "\n  url: ");
    push_str(&mut out, s.url.as_str());
    push_str(&mut out, "\n  fields seen: ");
    let a = dec_chars(s.fields_seen as u64);
    push_all(&mut out, a.as_slice());
    push_str(&mut out, "\n  filled: ");
    let b = dec_chars(s.fields_filled as u64);
    push_all(&mut out, b.as_slice());
    push_str(&mut out, "\n  skipped (unknown / freetext / empty): ");
    let c = dec_chars(s.fields_skipped as u64);
    push_all(&mut out, c.as_slice());
    push_str(&mut out, "\n  feedback queue: ");
    let d = dec_chars(queue_depth as u64);
    push_all(&mut out, d.as_slice());
    push_str(&mut out, " events on disk");
    assert(out@ =~= summary_head(*s, queue_depth as nat));
    match &s.screenshot_path {
        Some(p) => {
            let ghost head = out@;
            push_str(&mut out, "\n  screenshot: ");
            push_str(&mut out, p.as_str());
            push_str(&mut out, SUMMARY_WARNING);
            assert(out@ =~= head + "\n  screenshot: "@ + p@ + SUMMARY_WARNING@);
        },
        None => {
            push_str(&mut out, SUMMARY_WARNING);
        },
    }
    string_of(out.as_slice())
}

} // verus!
