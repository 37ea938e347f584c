//! atsisbroken — fill job-application forms locally from the user's own
//! profile, with a model the user trains.
use vstd::prelude::*;

pub mod chars;
pub mod classify;
pub mod profile;
pub mod unicode;

pub use classify::predict_field_key;
pub use profile::{
    Application, ApplicationStatus, Award, Certification, Compensation, Demographics,
    Education, Experience, FieldDescriptor, FreeFormAnswers, Language, LanguageProficiency,
    OnlinePresence, Patent, Profile, Project, Publication, Reference, RemotePreference, RepoRef,
    SecurityClearance, Skill, SkillLevel, WorkAuth, WorkAuthStatus,
};
pub mod browser;
pub mod decimal;
pub mod seqs;
pub mod cdp;
pub mod foreign;
pub mod feedback;
pub mod corpus;
pub mod values;

pub use values::profile_value_for_key;

pub use corpus::{seed_corpus_fingerprint, seed_corpus_size};

pub use feedback::{Feedback, FeedbackDelivery, FeedbackQueue, Mode, Observation, TrainingPair};

verus! {

/// The crate version.
pub fn version() -> (r: &'static str)
    ensures
        r@ == "0.1.0"@,
{
    "0.1.0"
}

} // verus!
pub mod learning;
pub mod run_loop;
pub mod bridge;
pub mod config;
pub mod browser_detect;
pub mod strategy;
pub mod github;
pub mod resume;
pub mod cli;
pub mod textorder;
pub mod jsonl;
pub mod extension;
