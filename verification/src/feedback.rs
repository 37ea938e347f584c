//! Autonomy modes and the user's feedback: one event per decision, kept
//! in an append-only queue.
use vstd::prelude::*;
use crate::chars::str_eq;
use crate::profile::FieldDescriptor;

verus! {

/// How much the tool does on its own. The user climbs
/// `TrainingWheels` → `Shadow` → `Chaos` and can stop at any rung.
#[derive(Debug, Clone, Copy, PartialEq, Eq, Structural)]
pub enum Mode {
    /// Every fill asks the user yes or no.
    TrainingWheels,
    /// The user fills by hand and the tool watches; a field type whose
    /// confidence clears the threshold fills on its own next time.
    Shadow,
    /// Every classified field fills on its own; the user can still flag
    /// mistakes afterwards.
    Chaos,
}

impl Default for Mode {
    fn default() -> (r: Mode)
        ensures
            r == Mode::TrainingWheels,
    {
        Mode::TrainingWheels
    }
}

/// The mode a command-line spelling names.
pub open spec fn mode_named(s: Seq<char>) -> Option<Mode> {
    if s == "training-wheels"@ || s == "training_wheels"@ || s == "training"@ {
        Some(Mode::TrainingWheels)
    } else if s == "shadow"@ {
        Some(Mode::Shadow)
    } else if s == "chaos"@ {
        Some(Mode::Chaos)
    } else {
        None
    }
}

impl Mode {
    /// Read a mode from its command-line spelling: `training-wheels`,
    /// `training_wheels` or `training`, `shadow`, `chaos`.
    pub fn from_cli_str(s: &str) -> (r: Option<Mode>)
        ensures
            r == mode_named(s@),
    {
        if str_eq(s, "training-wheels") || str_eq(s, "training_wheels") || str_eq(s, "training") {
            Some(Mode::TrainingWheels)
        } else if str_eq(s, "shadow") {
            Some(Mode::Shadow)
        } else if str_eq(s, "chaos") {
            Some(Mode::Chaos)
        } else {
            None
        }
    }
}

/// One decision by the user on one field: the classifier's key, the key
/// the user confirmed (empty when they declined), and whether the fill was
/// accepted.
#[derive(Debug, Clone, PartialEq, Eq)]
pub struct Feedback {
    pub field: FieldDescriptor,
    pub predicted: String,
    pub actual: String,
    pub accepted: bool,
}

/// The user filling a field by hand in Shadow mode: the classifier's key
/// and the profile key the typed value matched (empty when none did). The
/// value itself is never kept. The classifier's confidence at prediction
/// time, a number in [0, 1], is carried as the bits of an `f32`.
#[derive(Debug, Clone, PartialEq, Eq)]
pub struct Observation {
    pub field: FieldDescriptor,
    pub predicted: String,
    pub observed: String,
    pub confidence_bits: u32,
}

/// One row of the seed corpus or of the user's training set.
#[derive(Debug, Clone, PartialEq, Eq)]
pub struct TrainingPair {
    pub field: FieldDescriptor,
    pub expected: String,
}

/// Where queued feedback goes when the user syncs. The default keeps it
/// on the device.
#[derive(Debug, Clone, PartialEq, Eq)]
pub enum FeedbackDelivery {
    /// Feedback stays on disk; syncing does nothing.
    LocalOnly,
    /// When syncing with the network up, send the queue to `destination`
    /// (a `mailto:` or `https:` target).
    SendWhenOnline { destination: String },
}

impl Default for FeedbackDelivery {
    fn default() -> (r: FeedbackDelivery)
        ensures
            r is LocalOnly,
    {
        FeedbackDelivery::LocalOnly
    }
}

/// The append-only feedback log, oldest event first.
#[derive(Debug, Clone, PartialEq, Eq)]
pub struct FeedbackQueue {
    pub events: Vec<Feedback>,
}

impl Default for FeedbackQueue {
    fn default() -> (r: FeedbackQueue)
        ensures
            r.events@.len() == 0,
    {
        FeedbackQueue { events: Vec::new() }
    }
}

impl FeedbackQueue {
    /// Add an event at the end.
    pub fn append(&mut self, fb: Feedback)
        ensures
            final(self).events@ == old(self).events@.push(fb),
    {
        self.events.push(fb);
    }

    pub fn len(&self) -> (r: usize)
        ensures
            r == self.events@.len(),
    {
        self.events.len()
    }

    pub fn is_empty(&self) -> (r: bool)
        ensures
            r == (self.events@.len() == 0),
    {
        self.events.len() == 0
    }
}

} // verus!
