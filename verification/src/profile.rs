//! The user's profile: everything a job-application form can ask for,
//! plus the form-field descriptor the classifier reads.
use vstd::prelude::*;

verus! {

/// The user's profile. Built from a pasted resume by
/// [`crate::resume::parse_resume`] and edited by the user.
#[derive(Debug, Clone, PartialEq)]
pub struct Profile {
    pub full_name: String,
    /// Split-out first name (everything of the full name but its last word).
    pub first_name: String,
    /// Split-out last name (the last word of the full name).
    pub last_name: String,
    /// What the user goes by.
    pub preferred_name: String,
    pub pronouns: String,
    pub email: String,
    pub phone: String,
    /// Legacy single-line address.
    pub address: String,
    pub street1: String,
    pub street2: String,
    pub city: String,
    pub state: String,
    pub postal_code: String,
    pub country: String,
    pub linkedin: String,
    pub github: String,
    pub website: String,
    pub presence: OnlinePresence,
    pub work_authorization: String,
    pub years_experience: u8,
    pub experience: Vec<Experience>,
    pub education: Vec<Education>,
    pub skills: Vec<String>,
    pub technical_skills: Vec<Skill>,
    pub languages: Vec<Language>,
    pub soft_skills: Vec<String>,
    pub certifications: Vec<Certification>,
    pub projects: Vec<Project>,
    /// `None` when the user has not chosen to share compensation.
    pub compensation: Option<Compensation>,
    /// Voluntary demographics; `None` by default.
    pub demographics: Option<Demographics>,
    pub work_auth: Option<WorkAuth>,
    pub publications: Vec<Publication>,
    pub patents: Vec<Patent>,
    pub awards: Vec<Award>,
    pub references: Vec<Reference>,
    pub applications: Vec<Application>,
    pub free_form: FreeFormAnswers,
    pub raw_resume_text: String,
}

/// The profile holds no data at all: every string empty, every list
/// empty, every optional section absent.
pub open spec fn is_blank_profile(p: Profile) -> bool {
    &&& p.full_name@.len() == 0
    &&& p.first_name@.len() == 0
    &&& p.last_name@.len() == 0
    &&& p.email@.len() == 0
    &&& p.phone@.len() == 0
    &&& p.linkedin@.len() == 0
    &&& p.github@.len() == 0
    &&& p.website@.len() == 0
    &&& p.raw_resume_text@.len() == 0
    &&& blank_beyond_resume(p)
}

/// Everything a resume does not fill is empty: every field but the name
/// parts, email, phone, LinkedIn, GitHub, website and the resume text.
pub open spec fn blank_beyond_resume(p: Profile) -> bool {
    &&& p.preferred_name@.len() == 0
    &&& p.pronouns@.len() == 0
    &&& p.address@.len() == 0
    &&& p.street1@.len() == 0
    &&& p.street2@.len() == 0
    &&& p.city@.len() == 0
    &&& p.state@.len() == 0
    &&& p.postal_code@.len() == 0
    &&& p.country@.len() == 0
    &&& is_blank_presence(p.presence)
    &&& p.work_authorization@.len() == 0
    &&& p.years_experience == 0
    &&& p.experience@.len() == 0
    &&& p.education@.len() == 0
    &&& p.skills@.len() == 0
    &&& p.technical_skills@.len() == 0
    &&& p.languages@.len() == 0
    &&& p.soft_skills@.len() == 0
    &&& p.certifications@.len() == 0
    &&& p.projects@.len() == 0
    &&& p.compensation is None
    &&& p.demographics is None
    &&& p.work_auth is None
    &&& p.publications@.len() == 0
    &&& p.patents@.len() == 0
    &&& p.awards@.len() == 0
    &&& p.references@.len() == 0
    &&& p.applications@.len() == 0
    &&& is_blank_free_form(p.free_form)
}

impl Default for Profile {
    fn default() -> (p: Profile)
        ensures
            is_blank_profile(p),
    {
        Profile {
            full_name: String::new(),
            first_name: String::new(),
            last_name: String::new(),
            preferred_name: String::new(),
            pronouns: String::new(),
            email: String::new(),
            phone: String::new(),
            address: String::new(),
            street1: String::new(),
            street2: String::new(),
            city: String::new(),
            state: String::new(),
            postal_code: String::new(),
            country: String::new(),
            linkedin: String::new(),
            github: String::new(),
            website: String::new(),
            presence: OnlinePresence::default(),
            work_authorization: String::new(),
            years_experience: 0,
            experience: Vec::new(),
            education: Vec::new(),
            skills: Vec::new(),
            technical_skills: Vec::new(),
            languages: Vec::new(),
            soft_skills: Vec::new(),
            certifications: Vec::new(),
            projects: Vec::new(),
            compensation: None,
            demographics: None,
            work_auth: None,
            publications: Vec::new(),
            patents: Vec::new(),
            awards: Vec::new(),
            references: Vec::new(),
            applications: Vec::new(),
            free_form: FreeFormAnswers::default(),
            raw_resume_text: String::new(),
        }
    }
}

/// The core identity signals counted by
/// [`Profile::is_meaningfully_populated`], in order: full name, email,
/// phone, LinkedIn, GitHub.
pub open spec fn identity_signals(p: Profile) -> Seq<bool> {
    seq![
        p.full_name@.len() > 0,
        p.email@.len() > 0,
        p.phone@.len() > 0,
        p.linkedin@.len() > 0,
        p.github@.len() > 0,
    ]
}

pub open spec fn count_true(s: Seq<bool>) -> nat
    decreases s.len(),
{
    if s.len() == 0 {
        0
    } else {
        (if s.last() {
            1nat
        } else {
            0nat
        }) + count_true(s.drop_last())
    }
}

impl Profile {
    /// True if at least two of the core identity fields are non-empty.
    pub fn is_meaningfully_populated(&self) -> (r: bool)
        ensures
            r == (count_true(identity_signals(*self)) >= 2),
    {
        let signals: [bool; 5] = [
            !self.full_name.as_str().is_empty(),
            !self.email.as_str().is_empty(),
            !self.phone.as_str().is_empty(),
            !self.linkedin.as_str().is_empty(),
            !self.github.as_str().is_empty(),
        ];
        let mut n: usize = 0;
        let mut i: usize = 0;
        let ghost sig = identity_signals(*self);
        assert(signals@ =~= sig);
        while i < 5
            invariant
                i <= 5,
                signals@ == sig,
                sig.len() == 5,
                n == count_true(sig.take(i as int)),
                n <= i,
            decreases 5 - i,
        {
            assert(sig.take(i + 1).drop_last() =~= sig.take(i as int));
            if signals[i] {
                n += 1;
            }
            i += 1;
        }
        assert(sig.take(5) =~= sig);
        n >= 2
    }
}

#[derive(Debug, Clone, PartialEq, Eq, Default)]
pub struct Experience {
    pub company: String,
    pub title: String,
    pub start: String,
    pub end: String,
    pub bullets: Vec<String>,
    pub location: String,
    pub employment_type: String,
    pub supervisor_name: String,
    pub supervisor_email: String,
    pub supervisor_phone: String,
    pub reason_for_leaving: String,
    /// Never assumed: contact permission is opt-in.
    pub can_we_contact: bool,
}

#[derive(Debug, Clone, PartialEq, Eq, Default)]
pub struct Education {
    pub school: String,
    pub degree: String,
    pub field: String,
    pub start: String,
    pub end: String,
    pub gpa: Option<String>,
    pub honors: Vec<String>,
    pub minor: String,
    pub relevant_coursework: Vec<String>,
    pub thesis_title: String,
    pub extracurriculars: Vec<String>,
    pub location: String,
}

/// Online presence beyond LinkedIn / GitHub / website.
#[derive(Debug, Clone, PartialEq, Eq)]
pub struct OnlinePresence {
    pub gitlab: String,
    pub bitbucket: String,
    pub portfolio: String,
    pub blog: String,
    pub twitter: String,
    pub bluesky: String,
    pub mastodon: String,
    pub stackoverflow: String,
    pub devto: String,
    pub medium: String,
    pub hashnode: String,
    pub youtube: String,
    pub dribbble: String,
    pub behance: String,
    pub artstation: String,
}

pub open spec fn is_blank_presence(p: OnlinePresence) -> bool {
    &&& p.gitlab@.len() == 0
    &&& p.bitbucket@.len() == 0
    &&& p.portfolio@.len() == 0
    &&& p.blog@.len() == 0
    &&& p.twitter@.len() == 0
    &&& p.bluesky@.len() == 0
    &&& p.mastodon@.len() == 0
    &&& p.stackoverflow@.len() == 0
    &&& p.devto@.len() == 0
    &&& p.medium@.len() == 0
    &&& p.hashnode@.len() == 0
    &&& p.youtube@.len() == 0
    &&& p.dribbble@.len() == 0
    &&& p.behance@.len() == 0
    &&& p.artstation@.len() == 0
}

impl Default for OnlinePresence {
    fn default() -> (p: OnlinePresence)
        ensures
            is_blank_presence(p),
    {
        OnlinePresence {
            gitlab: String::new(),
            bitbucket: String::new(),
            portfolio: String::new(),
            blog: String::new(),
            twitter: String::new(),
            bluesky: String::new(),
            mastodon: String::new(),
            stackoverflow: String::new(),
            devto: String::new(),
            medium: String::new(),
            hashnode: String::new(),
            youtube: String::new(),
            dribbble: String::new(),
            behance: String::new(),
            artstation: String::new(),
        }
    }
}

/// Self-reported proficiency for one technical skill.
#[derive(Debug, Clone, Copy, PartialEq, Eq)]
pub enum SkillLevel {
    Beginner,
    Intermediate,
    Advanced,
    Expert,
}

impl Default for SkillLevel {
    fn default() -> (r: SkillLevel)
        ensures
            r == SkillLevel::Intermediate,
    {
        SkillLevel::Intermediate
    }
}

/// One technical skill. `years_bits` is the `f32` bit pattern
/// (`f32::to_bits`) of the self-reported years of experience: the
/// library carries it and never computes with it.
#[derive(Debug, Clone, PartialEq, Eq, Default)]
pub struct Skill {
    pub name: String,
    pub years_bits: Option<u32>,
    pub level: SkillLevel,
    pub last_used: String,
}

#[derive(Debug, Clone, Copy, PartialEq, Eq)]
pub enum LanguageProficiency {
    Native,
    Fluent,
    Conversational,
    Beginner,
}

impl Default for LanguageProficiency {
    fn default() -> (r: LanguageProficiency)
        ensures
            r == LanguageProficiency::Conversational,
    {
        LanguageProficiency::Conversational
    }
}

#[derive(Debug, Clone, PartialEq, Eq, Default)]
pub struct Language {
    pub name: String,
    pub proficiency: LanguageProficiency,
}

#[derive(Debug, Clone, PartialEq, Eq, Default)]
pub struct Certification {
    pub name: String,
    pub issuer: String,
    pub issue_date: String,
    pub expiry_date: String,
    pub credential_id: String,
    pub credential_url: String,
}

#[derive(Debug, Clone, PartialEq, Eq, Default)]
pub struct RepoRef {
    pub owner: String,
    pub name: String,
    pub url: String,
}

#[derive(Debug, Clone, PartialEq, Eq, Default)]
pub struct Project {
    pub name: String,
    pub description: String,
    pub url: String,
    pub start_date: String,
    pub end_date: String,
    pub technologies: Vec<String>,
    pub role: String,
    pub highlights: Vec<String>,
    pub github_repo: Option<RepoRef>,
}

#[derive(Debug, Clone, PartialEq, Eq, Default)]
pub struct Compensation {
    pub salary_expectation_min: Option<u32>,
    pub salary_expectation_max: Option<u32>,
    pub salary_currency: String,
    pub compensation_notes: String,
    pub desired_base: Option<u32>,
    pub desired_variable: Option<u32>,
    pub desired_equity: String,
}

#[derive(Debug, Clone, PartialEq, Eq, Default)]
pub struct Demographics {
    pub gender: String,
    pub race_ethnicity: Vec<String>,
    pub veteran_status: String,
    pub disability_status: String,
    pub lgbtq_self_id: String,
}

#[derive(Debug, Clone, PartialEq, Eq)]
pub enum WorkAuthStatus {
    Citizen,
    PermanentResident,
    H1B,
    Opt,
    Ead,
    Tn,
    OptionalPracticalTraining,
    RequireSponsorship,
    Other(String),
}

impl Default for WorkAuthStatus {
    fn default() -> (r: WorkAuthStatus)
        ensures
            r matches WorkAuthStatus::Other(s) && s@.len() == 0,
    {
        WorkAuthStatus::Other(String::new())
    }
}

#[derive(Debug, Clone, PartialEq, Eq)]
pub enum SecurityClearance {
    /// No clearance held.
    NoClearance,
    PublicTrust,
    Confidential,
    Secret,
    TopSecret,
    TsSci,
    Other(String),
}

impl Default for SecurityClearance {
    fn default() -> (r: SecurityClearance)
        ensures
            r matches SecurityClearance::Other(s) && s@.len() == 0,
    {
        SecurityClearance::Other(String::new())
    }
}

#[derive(Debug, Clone, Copy, PartialEq, Eq)]
pub enum RemotePreference {
    Remote,
    Hybrid,
    OnSite,
    Flexible,
}

impl Default for RemotePreference {
    fn default() -> (r: RemotePreference)
        ensures
            r == RemotePreference::Flexible,
    {
        RemotePreference::Flexible
    }
}

#[derive(Debug, Clone, PartialEq, Eq, Default)]
pub struct WorkAuth {
    pub citizenship_country: String,
    pub status: WorkAuthStatus,
    pub visa_sponsorship_required: bool,
    pub security_clearance: SecurityClearance,
    pub relocation_willingness: bool,
    pub region_preferences: Vec<String>,
    pub remote_preference: RemotePreference,
}

#[derive(Debug, Clone, PartialEq, Eq, Default)]
pub struct Publication {
    pub title: String,
    pub authors: Vec<String>,
    pub venue: String,
    pub date: String,
    pub url: String,
    pub doi: String,
}

#[derive(Debug, Clone, PartialEq, Eq, Default)]
pub struct Patent {
    pub title: String,
    pub number: String,
    pub issued_date: String,
    pub inventors: Vec<String>,
    pub url: String,
}

#[derive(Debug, Clone, PartialEq, Eq, Default)]
pub struct Award {
    pub name: String,
    pub issuer: String,
    pub date: String,
    pub description: String,
}

#[derive(Debug, Clone, PartialEq, Eq, Default)]
pub struct Reference {
    pub name: String,
    pub relationship: String,
    pub company: String,
    pub title: String,
    pub email: String,
    pub phone: String,
}

#[derive(Debug, Clone, Copy, PartialEq, Eq)]
pub enum ApplicationStatus {
    Submitted,
    Interviewed,
    Offer,
    Rejected,
    Ghosted,
    Withdrawn,
}

impl Default for ApplicationStatus {
    fn default() -> (r: ApplicationStatus)
        ensures
            r == ApplicationStatus::Submitted,
    {
        ApplicationStatus::Submitted
    }
}

#[derive(Debug, Clone, PartialEq, Eq, Default)]
pub struct Application {
    pub company: String,
    pub role: String,
    pub submitted_at: String,
    pub url: String,
    pub status: ApplicationStatus,
    pub notes: String,
}

/// User-authored free-form answer slots. `custom` is keyed by a
/// question hash or a descriptive name; its keys are kept in strictly
/// ascending order, one entry per key.
#[derive(Debug, Clone, PartialEq, Eq)]
pub struct FreeFormAnswers {
    pub elevator_pitch: Option<String>,
    pub why_this_role_template: Option<String>,
    pub biggest_technical_challenge: Option<String>,
    pub proudest_project: Option<String>,
    pub biggest_failure_and_lesson: Option<String>,
    pub five_year_plan: Option<String>,
    pub strengths: Option<String>,
    pub weaknesses: Option<String>,
    pub management_style: Option<String>,
    pub collaboration_example: Option<String>,
    pub custom: Vec<(String, String)>,
}

pub open spec fn is_blank_free_form(a: FreeFormAnswers) -> bool {
    &&& a.elevator_pitch is None
    &&& a.why_this_role_template is None
    &&& a.biggest_technical_challenge is None
    &&& a.proudest_project is None
    &&& a.biggest_failure_and_lesson is None
    &&& a.five_year_plan is None
    &&& a.strengths is None
    &&& a.weaknesses is None
    &&& a.management_style is None
    &&& a.collaboration_example is None
    &&& a.custom@.len() == 0
}

impl Default for FreeFormAnswers {
    fn default() -> (a: FreeFormAnswers)
        ensures
            is_blank_free_form(a),
    {
        FreeFormAnswers {
            elevator_pitch: None,
            why_this_role_template: None,
            biggest_technical_challenge: None,
            proudest_project: None,
            biggest_failure_and_lesson: None,
            five_year_plan: None,
            strengths: None,
            weaknesses: None,
            management_style: None,
            collaboration_example: None,
            custom: Vec::new(),
        }
    }
}

/// One form field as seen by the DOM extractor: the classifier's input.
#[derive(Debug, Clone, PartialEq, Eq)]
pub struct FieldDescriptor {
    pub label: String,
    pub placeholder: String,
    pub aria_label: String,
    pub name: String,
    pub id: String,
    pub kind: String,
}

/// The abstract value of a [`FieldDescriptor`].
pub struct FieldView {
    pub label: Seq<char>,
    pub placeholder: Seq<char>,
    pub aria_label: Seq<char>,
    pub name: Seq<char>,
    pub id: Seq<char>,
    pub kind: Seq<char>,
}

impl View for FieldDescriptor {
    type V = FieldView;

    open spec fn view(&self) -> FieldView {
        FieldView {
            label: self.label@,
            placeholder: self.placeholder@,
            aria_label: self.aria_label@,
            name: self.name@,
            id: self.id@,
            kind: self.kind@,
        }
    }
}

impl FieldDescriptor {
    /// A copy with the same text in every attribute.
    pub fn duplicate(&self) -> (r: FieldDescriptor)
        ensures
            r@ == self@,
    {
        FieldDescriptor {
            label: self.label.clone(),
            placeholder: self.placeholder.clone(),
            aria_label: self.aria_label.clone(),
            name: self.name.clone(),
            id: self.id.clone(),
            kind: self.kind.clone(),
        }
    }
}

/// The views of a list of field descriptors.
pub open spec fn field_views(fs: Seq<FieldDescriptor>) -> Seq<FieldView> {
    fs.map_values(|f: FieldDescriptor| f@)
}

} // verus!
