//! The user's configuration: the autonomy mode, the Shadow-mode
//! confidence threshold and where feedback goes, and the moves up and
//! down the autonomy ladder.
use vstd::prelude::*;
use crate::feedback::{FeedbackDelivery, Mode};

verus! {

/// The persisted configuration. The confidence threshold, a number in
/// [0, 1], is carried as the bits of an `f32`.
#[derive(Debug, Clone, PartialEq, Eq)]
pub struct Config {
    pub mode: Mode,
    pub confidence_threshold_bits: u32,
    pub feedback_delivery: FeedbackDelivery,
}

/// The bits of the default threshold, 0.85 as an `f32`.
pub const DEFAULT_THRESHOLD_BITS: u32 = 0x3f59999a;

impl Default for Config {
    fn default() -> (r: Config)
        ensures
            r.mode == Mode::TrainingWheels,
            r.confidence_threshold_bits == DEFAULT_THRESHOLD_BITS,
            r.feedback_delivery is LocalOnly,
    {
        Config {
            mode: Mode::TrainingWheels,
            confidence_threshold_bits: DEFAULT_THRESHOLD_BITS,
            feedback_delivery: FeedbackDelivery::LocalOnly,
        }
    }
}

#[derive(Debug, Clone, Copy, PartialEq, Eq, Structural)]
pub enum GraduationError {
    AlreadyAtTop,
    AlreadyAtBottom,
}

impl GraduationError {
    /// The text the error displays as.
    pub fn message(&self) -> (r: &'static str)
        ensures
            *self == GraduationError::AlreadyAtTop ==> r@ == "already at Chaos — pass --back to step down"@,
            *self == GraduationError::AlreadyAtBottom ==> r@
                == "already at TrainingWheels — already the most supervised mode"@,
    {
        match self {
            GraduationError::AlreadyAtTop => "already at Chaos — pass --back to step down",
            GraduationError::AlreadyAtBottom => "already at TrainingWheels — already the most supervised mode",
        }
    }
}

/// The rung above a mode, if any.
pub open spec fn next_mode(m: Mode) -> Option<Mode> {
    match m {
        Mode::TrainingWheels => Some(Mode::Shadow),
        Mode::Shadow => Some(Mode::Chaos),
        Mode::Chaos => None,
    }
}

/// The rung below a mode, if any.
pub open spec fn previous_mode(m: Mode) -> Option<Mode> {
    match m {
        Mode::Chaos => Some(Mode::Shadow),
        Mode::Shadow => Some(Mode::TrainingWheels),
        Mode::TrainingWheels => None,
    }
}

impl Config {
    /// Move one rung up: TrainingWheels → Shadow → Chaos. Returns the new
    /// mode; at Chaos, an error and nothing changes.
    pub fn graduate(&mut self) -> (r: Result<Mode, GraduationError>)
        ensures
            match next_mode(old(self).mode) {
                Some(m) => r == Ok::<Mode, GraduationError>(m) && final(self).mode == m,
                None => r == Err::<Mode, GraduationError>(GraduationError::AlreadyAtTop)
                    && final(self).mode == old(self).mode,
            },
            final(self).confidence_threshold_bits == old(self).confidence_threshold_bits,
            final(self).feedback_delivery == old(self).feedback_delivery,
    {
        let next = match self.mode {
            Mode::TrainingWheels => Mode::Shadow,
            Mode::Shadow => Mode::Chaos,
            Mode::Chaos => {
                return Err(GraduationError::AlreadyAtTop);
            },
        };
        self.mode = next;
        Ok(next)
    }

    /// Move one rung down: Chaos → Shadow → TrainingWheels. Returns the
    /// new mode; at TrainingWheels, an error and nothing changes.
    pub fn step_back(&mut self) -> (r: Result<Mode, GraduationError>)
        ensures
            match previous_mode(old(self).mode) {
                Some(m) => r == Ok::<Mode, GraduationError>(m) && final(self).mode == m,
                None => r == Err::<Mode, GraduationError>(GraduationError::AlreadyAtBottom)
                    && final(self).mode == old(self).mode,
            },
            final(self).confidence_threshold_bits == old(self).confidence_threshold_bits,
            final(self).feedback_delivery == old(self).feedback_delivery,
    {
        let prev = match self.mode {
            Mode::Chaos => Mode::Shadow,
            Mode::Shadow => Mode::TrainingWheels,
            Mode::TrainingWheels => {
                return Err(GraduationError::AlreadyAtBottom);
            },
        };
        self.mode = prev;
        Ok(prev)
    }
}

/// Graduating and then stepping back returns to the starting mode, and
/// so does stepping back and then graduating, wherever the move succeeds.
pub proof fn graduate_and_step_back_are_inverse(m: Mode)
    ensures
        next_mode(m) matches Some(n) ==> previous_mode(n) == Some(m),
        previous_mode(m) matches Some(p) ==> next_mode(p) == Some(m),
{
}

} // verus!
