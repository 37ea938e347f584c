//! Connectors: the sources a product can come from, and how the user
//! authenticates with each.
use vstd::prelude::*;

verus! {

/// The source of a product. Additions are append-only: the on-disk graph
/// stores each variant by its wire name.
#[derive(Debug, Clone, Copy, PartialEq, Eq, Structural, PartialOrd, Ord, Hash)]
pub enum ConnectorKind {
    /// Github.com — repos, READMEs, commits, languages.
    GitHub,
    GitLab,
    Bitbucket,
    Codeberg,
    Sourcehut,
    /// Personal blog via RSS / Atom / sitemap.
    PersonalBlog,
    Substack,
    Medium,
    DevTo,
    Hashnode,
    /// Q&A history.
    StackOverflow,
    /// HN comments and submissions.
    HackerNews,
    Reddit,
    /// Microblog identities.
    Bluesky,
    Mastodon,
    Twitter,
    /// Published software packages.
    NpmRegistry,
    CratesIo,
    PyPI,
    RubyGems,
    DockerHub,
    /// Patents and papers.
    USPTO,
    ArXiv,
    GoogleScholar,
    OrcID,
    /// Video, audio, talks.
    YouTube,
    Twitch,
    /// Design portfolios.
    Behance,
    Dribbble,
    ArtStation,
    /// OAuth-bound services.
    LinkedIn,
    /// Federal applicants.
    USAJOBS,
    /// User-pasted content; the user attests authorship.
    ManualPaste,
    /// The resume-derived profile, treated as a connector so it composes
    /// uniformly with the others.
    ManualResume,
}

/// How the Connect flow talks to a source.
#[derive(Debug, Clone, Copy, PartialEq, Eq, Structural)]
pub enum AuthShape {
    /// The user gives a public handle (a token is optional).
    PublicHandle,
    /// OAuth 2.0 with the redirect captured by the browser itself.
    OAuth,
    /// The user signs in normally; the session cookie is captured.
    SessionCookie,
    /// The user pastes content and attests authorship.
    ManualPaste,
}

/// The name shown for each connector.
pub open spec fn display_name_of(k: ConnectorKind) -> Seq<char> {
    match k {
        ConnectorKind::GitHub => "GitHub"@,
        ConnectorKind::GitLab => "GitLab"@,
        ConnectorKind::Bitbucket => "Bitbucket"@,
        ConnectorKind::Codeberg => "Codeberg"@,
        ConnectorKind::Sourcehut => "Sourcehut"@,
        ConnectorKind::PersonalBlog => "Personal blog"@,
        ConnectorKind::Substack => "Substack"@,
        ConnectorKind::Medium => "Medium"@,
        ConnectorKind::DevTo => "Dev.to"@,
        ConnectorKind::Hashnode => "Hashnode"@,
        ConnectorKind::StackOverflow => "Stack Overflow"@,
        ConnectorKind::HackerNews => "Hacker News"@,
        ConnectorKind::Reddit => "Reddit"@,
        ConnectorKind::Bluesky => "Bluesky"@,
        ConnectorKind::Mastodon => "Mastodon"@,
        ConnectorKind::Twitter => "Twitter / X"@,
        ConnectorKind::NpmRegistry => "npm"@,
        ConnectorKind::CratesIo => "crates.io"@,
        ConnectorKind::PyPI => "PyPI"@,
        ConnectorKind::RubyGems => "RubyGems"@,
        ConnectorKind::DockerHub => "Docker Hub"@,
        ConnectorKind::USPTO => "USPTO Patents"@,
        ConnectorKind::ArXiv => "arXiv"@,
        ConnectorKind::GoogleScholar => "Google Scholar"@,
        ConnectorKind::OrcID => "ORCID"@,
        ConnectorKind::YouTube => "YouTube"@,
        ConnectorKind::Twitch => "Twitch"@,
        ConnectorKind::Behance => "Behance"@,
        ConnectorKind::Dribbble => "Dribbble"@,
        ConnectorKind::ArtStation => "ArtStation"@,
        ConnectorKind::LinkedIn => "LinkedIn"@,
        ConnectorKind::USAJOBS => "USAJOBS"@,
        ConnectorKind::ManualPaste => "Manual paste"@,
        ConnectorKind::ManualResume => "Resume"@,
    }
}

/// The auth shape of each connector.
pub open spec fn auth_shape_of(k: ConnectorKind) -> AuthShape {
    match k {
        ConnectorKind::GitHub => AuthShape::PublicHandle,
        ConnectorKind::GitLab => AuthShape::PublicHandle,
        ConnectorKind::Bitbucket => AuthShape::PublicHandle,
        ConnectorKind::Codeberg => AuthShape::PublicHandle,
        ConnectorKind::Sourcehut => AuthShape::PublicHandle,
        ConnectorKind::PersonalBlog => AuthShape::PublicHandle,
        ConnectorKind::Substack => AuthShape::SessionCookie,
        ConnectorKind::Medium => AuthShape::SessionCookie,
        ConnectorKind::DevTo => AuthShape::PublicHandle,
        ConnectorKind::Hashnode => AuthShape::PublicHandle,
        ConnectorKind::StackOverflow => AuthShape::PublicHandle,
        ConnectorKind::HackerNews => AuthShape::PublicHandle,
        ConnectorKind::Reddit => AuthShape::PublicHandle,
        ConnectorKind::Bluesky => AuthShape::PublicHandle,
        ConnectorKind::Mastodon => AuthShape::PublicHandle,
        ConnectorKind::Twitter => AuthShape::OAuth,
        ConnectorKind::NpmRegistry => AuthShape::PublicHandle,
        ConnectorKind::CratesIo => AuthShape::PublicHandle,
        ConnectorKind::PyPI => AuthShape::PublicHandle,
        ConnectorKind::RubyGems => AuthShape::PublicHandle,
        ConnectorKind::DockerHub => AuthShape::PublicHandle,
        ConnectorKind::USPTO => AuthShape::PublicHandle,
        ConnectorKind::ArXiv => AuthShape::PublicHandle,
        ConnectorKind::GoogleScholar => AuthShape::PublicHandle,
        ConnectorKind::OrcID => AuthShape::PublicHandle,
        ConnectorKind::YouTube => AuthShape::PublicHandle,
        ConnectorKind::Twitch => AuthShape::PublicHandle,
        ConnectorKind::Behance => AuthShape::PublicHandle,
        ConnectorKind::Dribbble => AuthShape::PublicHandle,
        ConnectorKind::ArtStation => AuthShape::PublicHandle,
        ConnectorKind::LinkedIn => AuthShape::OAuth,
        ConnectorKind::USAJOBS => AuthShape::PublicHandle,
        ConnectorKind::ManualPaste => AuthShape::ManualPaste,
        ConnectorKind::ManualResume => AuthShape::ManualPaste,
    }
}

/// The variant's name as `{:?}` writes it; the product graph keys its
/// sync times by it.
pub open spec fn debug_name_of(k: ConnectorKind) -> Seq<char> {
    match k {
        ConnectorKind::GitHub => "GitHub"@,
        ConnectorKind::GitLab => "GitLab"@,
        ConnectorKind::Bitbucket => "Bitbucket"@,
        ConnectorKind::Codeberg => "Codeberg"@,
        ConnectorKind::Sourcehut => "Sourcehut"@,
        ConnectorKind::PersonalBlog => "PersonalBlog"@,
        ConnectorKind::Substack => "Substack"@,
        ConnectorKind::Medium => "Medium"@,
        ConnectorKind::DevTo => "DevTo"@,
        ConnectorKind::Hashnode => "Hashnode"@,
        ConnectorKind::StackOverflow => "StackOverflow"@,
        ConnectorKind::HackerNews => "HackerNews"@,
        ConnectorKind::Reddit => "Reddit"@,
        ConnectorKind::Bluesky => "Bluesky"@,
        ConnectorKind::Mastodon => "Mastodon"@,
        ConnectorKind::Twitter => "Twitter"@,
        ConnectorKind::NpmRegistry => "NpmRegistry"@,
        ConnectorKind::CratesIo => "CratesIo"@,
        ConnectorKind::PyPI => "PyPI"@,
        ConnectorKind::RubyGems => "RubyGems"@,
        ConnectorKind::DockerHub => "DockerHub"@,
        ConnectorKind::USPTO => "USPTO"@,
        ConnectorKind::ArXiv => "ArXiv"@,
        ConnectorKind::GoogleScholar => "GoogleScholar"@,
        ConnectorKind::OrcID => "OrcID"@,
        ConnectorKind::YouTube => "YouTube"@,
        ConnectorKind::Twitch => "Twitch"@,
        ConnectorKind::Behance => "Behance"@,
        ConnectorKind::Dribbble => "Dribbble"@,
        ConnectorKind::ArtStation => "ArtStation"@,
        ConnectorKind::LinkedIn => "LinkedIn"@,
        ConnectorKind::USAJOBS => "USAJOBS"@,
        ConnectorKind::ManualPaste => "ManualPaste"@,
        ConnectorKind::ManualResume => "ManualResume"@,
    }
}

/// Every connector, in declaration order.
pub open spec fn all_connectors() -> Seq<ConnectorKind> {
    seq![
        ConnectorKind::GitHub,
        ConnectorKind::GitLab,
        ConnectorKind::Bitbucket,
        ConnectorKind::Codeberg,
        ConnectorKind::Sourcehut,
        ConnectorKind::PersonalBlog,
        ConnectorKind::Substack,
        ConnectorKind::Medium,
        ConnectorKind::DevTo,
        ConnectorKind::Hashnode,
        ConnectorKind::StackOverflow,
        ConnectorKind::HackerNews,
        ConnectorKind::Reddit,
        ConnectorKind::Bluesky,
        ConnectorKind::Mastodon,
        ConnectorKind::Twitter,
        ConnectorKind::NpmRegistry,
        ConnectorKind::CratesIo,
        ConnectorKind::PyPI,
        ConnectorKind::RubyGems,
        ConnectorKind::DockerHub,
        ConnectorKind::USPTO,
        ConnectorKind::ArXiv,
        ConnectorKind::GoogleScholar,
        ConnectorKind::OrcID,
        ConnectorKind::YouTube,
        ConnectorKind::Twitch,
        ConnectorKind::Behance,
        ConnectorKind::Dribbble,
        ConnectorKind::ArtStation,
        ConnectorKind::LinkedIn,
        ConnectorKind::USAJOBS,
        ConnectorKind::ManualPaste,
        ConnectorKind::ManualResume,
    ]
}

impl ConnectorKind {
    /// Every variant in declaration order, each exactly once.
    pub fn all() -> (r: Vec<ConnectorKind>)
        ensures
            r@ == all_connectors(),
    {
        vec![
            ConnectorKind::GitHub,
            ConnectorKind::GitLab,
            ConnectorKind::Bitbucket,
            ConnectorKind::Codeberg,
            ConnectorKind::Sourcehut,
            ConnectorKind::PersonalBlog,
            ConnectorKind::Substack,
            ConnectorKind::Medium,
            ConnectorKind::DevTo,
            ConnectorKind::Hashnode,
            ConnectorKind::StackOverflow,
            ConnectorKind::HackerNews,
            ConnectorKind::Reddit,
            ConnectorKind::Bluesky,
            ConnectorKind::Mastodon,
            ConnectorKind::Twitter,
            ConnectorKind::NpmRegistry,
            ConnectorKind::CratesIo,
            ConnectorKind::PyPI,
            ConnectorKind::RubyGems,
            ConnectorKind::DockerHub,
            ConnectorKind::USPTO,
            ConnectorKind::ArXiv,
            ConnectorKind::GoogleScholar,
            ConnectorKind::OrcID,
            ConnectorKind::YouTube,
            ConnectorKind::Twitch,
            ConnectorKind::Behance,
            ConnectorKind::Dribbble,
            ConnectorKind::ArtStation,
            ConnectorKind::LinkedIn,
            ConnectorKind::USAJOBS,
            ConnectorKind::ManualPaste,
            ConnectorKind::ManualResume,
        ]
    }

    /// Human-readable name for the UI.
    pub fn display_name(&self) -> (r: &'static str)
        ensures
            r@ == display_name_of(*self),
    {
        match self {
            ConnectorKind::GitHub => "GitHub",
            ConnectorKind::GitLab => "GitLab",
            ConnectorKind::Bitbucket => "Bitbucket",
            ConnectorKind::Codeberg => "Codeberg",
            ConnectorKind::Sourcehut => "Sourcehut",
            ConnectorKind::PersonalBlog => "Personal blog",
            ConnectorKind::Substack => "Substack",
            ConnectorKind::Medium => "Medium",
            ConnectorKind::DevTo => "Dev.to",
            ConnectorKind::Hashnode => "Hashnode",
            ConnectorKind::StackOverflow => "Stack Overflow",
            ConnectorKind::HackerNews => "Hacker News",
            ConnectorKind::Reddit => "Reddit",
            ConnectorKind::Bluesky => "Bluesky",
            ConnectorKind::Mastodon => "Mastodon",
            ConnectorKind::Twitter => "Twitter / X",
            ConnectorKind::NpmRegistry => "npm",
            ConnectorKind::CratesIo => "crates.io",
            ConnectorKind::PyPI => "PyPI",
            ConnectorKind::RubyGems => "RubyGems",
            ConnectorKind::DockerHub => "Docker Hub",
            ConnectorKind::USPTO => "USPTO Patents",
            ConnectorKind::ArXiv => "arXiv",
            ConnectorKind::GoogleScholar => "Google Scholar",
            ConnectorKind::OrcID => "ORCID",
            ConnectorKind::YouTube => "YouTube",
            ConnectorKind::Twitch => "Twitch",
            ConnectorKind::Behance => "Behance",
            ConnectorKind::Dribbble => "Dribbble",
            ConnectorKind::ArtStation => "ArtStation",
            ConnectorKind::LinkedIn => "LinkedIn",
            ConnectorKind::USAJOBS => "USAJOBS",
            ConnectorKind::ManualPaste => "Manual paste",
            ConnectorKind::ManualResume => "Resume",
        }
    }

    /// The variant's name as `{:?}` writes it.
    pub fn debug_name(&self) -> (r: &'static str)
        ensures
            r@ == debug_name_of(*self),
    {
        match self {
            ConnectorKind::GitHub => "GitHub",
            ConnectorKind::GitLab => "GitLab",
            ConnectorKind::Bitbucket => "Bitbucket",
            ConnectorKind::Codeberg => "Codeberg",
            ConnectorKind::Sourcehut => "Sourcehut",
            ConnectorKind::PersonalBlog => "PersonalBlog",
            ConnectorKind::Substack => "Substack",
            ConnectorKind::Medium => "Medium",
            ConnectorKind::DevTo => "DevTo",
            ConnectorKind::Hashnode => "Hashnode",
            ConnectorKind::StackOverflow => "StackOverflow",
            ConnectorKind::HackerNews => "HackerNews",
            ConnectorKind::Reddit => "Reddit",
            ConnectorKind::Bluesky => "Bluesky",
            ConnectorKind::Mastodon => "Mastodon",
            ConnectorKind::Twitter => "Twitter",
            ConnectorKind::NpmRegistry => "NpmRegistry",
            ConnectorKind::CratesIo => "CratesIo",
            ConnectorKind::PyPI => "PyPI",
            ConnectorKind::RubyGems => "RubyGems",
            ConnectorKind::DockerHub => "DockerHub",
            ConnectorKind::USPTO => "USPTO",
            ConnectorKind::ArXiv => "ArXiv",
            ConnectorKind::GoogleScholar => "GoogleScholar",
            ConnectorKind::OrcID => "OrcID",
            ConnectorKind::YouTube => "YouTube",
            ConnectorKind::Twitch => "Twitch",
            ConnectorKind::Behance => "Behance",
            ConnectorKind::Dribbble => "Dribbble",
            ConnectorKind::ArtStation => "ArtStation",
            ConnectorKind::LinkedIn => "LinkedIn",
            ConnectorKind::USAJOBS => "USAJOBS",
            ConnectorKind::ManualPaste => "ManualPaste",
            ConnectorKind::ManualResume => "ManualResume",
        }
    }

    /// The auth shape this connector uses; it drives the Connect flow.
    pub fn auth_shape(&self) -> (r: AuthShape)
        ensures
            r == auth_shape_of(*self),
    {
        match self {
            ConnectorKind::GitHub | ConnectorKind::GitLab | ConnectorKind::Bitbucket | ConnectorKind::Codeberg | ConnectorKind::Sourcehut | ConnectorKind::PersonalBlog | ConnectorKind::DevTo | ConnectorKind::Hashnode | ConnectorKind::StackOverflow | ConnectorKind::HackerNews | ConnectorKind::Reddit | ConnectorKind::Bluesky | ConnectorKind::Mastodon | ConnectorKind::NpmRegistry | ConnectorKind::CratesIo | ConnectorKind::PyPI | ConnectorKind::RubyGems | ConnectorKind::DockerHub | ConnectorKind::USPTO | ConnectorKind::ArXiv | ConnectorKind::GoogleScholar | ConnectorKind::OrcID | ConnectorKind::YouTube | ConnectorKind::Twitch | ConnectorKind::Behance | ConnectorKind::Dribbble | ConnectorKind::ArtStation | ConnectorKind::USAJOBS => AuthShape::PublicHandle,
            ConnectorKind::Substack | ConnectorKind::Medium => AuthShape::SessionCookie,
            ConnectorKind::Twitter | ConnectorKind::LinkedIn => AuthShape::OAuth,
            ConnectorKind::ManualPaste | ConnectorKind::ManualResume => AuthShape::ManualPaste,
        }
    }
}

/// The list of all connectors holds every variant, each exactly once.
pub proof fn all_lists_every_connector_once(k: ConnectorKind)
    ensures
        all_connectors().len() == 34,
        all_connectors().contains(k),
        all_connectors().no_duplicates(),
{
    let s = all_connectors();
    match k {
        ConnectorKind::GitHub => assert(s[0] == k),
        ConnectorKind::GitLab => assert(s[1] == k),
        ConnectorKind::Bitbucket => assert(s[2] == k),
        ConnectorKind::Codeberg => assert(s[3] == k),
        ConnectorKind::Sourcehut => assert(s[4] == k),
        ConnectorKind::PersonalBlog => assert(s[5] == k),
        ConnectorKind::Substack => assert(s[6] == k),
        ConnectorKind::Medium => assert(s[7] == k),
        ConnectorKind::DevTo => assert(s[8] == k),
        ConnectorKind::Hashnode => assert(s[9] == k),
        ConnectorKind::StackOverflow => assert(s[10] == k),
        ConnectorKind::HackerNews => assert(s[11] == k),
        ConnectorKind::Reddit => assert(s[12] == k),
        ConnectorKind::Bluesky => assert(s[13] == k),
        ConnectorKind::Mastodon => assert(s[14] == k),
        ConnectorKind::Twitter => assert(s[15] == k),
        ConnectorKind::NpmRegistry => assert(s[16] == k),
        ConnectorKind::CratesIo => assert(s[17] == k),
        ConnectorKind::PyPI => assert(s[18] == k),
        ConnectorKind::RubyGems => assert(s[19] == k),
        ConnectorKind::DockerHub => assert(s[20] == k),
        ConnectorKind::USPTO => assert(s[21] == k),
        ConnectorKind::ArXiv => assert(s[22] == k),
        ConnectorKind::GoogleScholar => assert(s[23] == k),
        ConnectorKind::OrcID => assert(s[24] == k),
        ConnectorKind::YouTube => assert(s[25] == k),
        ConnectorKind::Twitch => assert(s[26] == k),
        ConnectorKind::Behance => assert(s[27] == k),
        ConnectorKind::Dribbble => assert(s[28] == k),
        ConnectorKind::ArtStation => assert(s[29] == k),
        ConnectorKind::LinkedIn => assert(s[30] == k),
        ConnectorKind::USAJOBS => assert(s[31] == k),
        ConnectorKind::ManualPaste => assert(s[32] == k),
        ConnectorKind::ManualResume => assert(s[33] == k),
    }
    assert forall|i: int, j: int| 0 <= i < s.len() && 0 <= j < s.len() && i != j implies s[i]
        != s[j] by {
        assert(connector_index(s[i]) == i);
        assert(connector_index(s[j]) == j);
    }
}

/// Position of a connector in declaration order.
spec fn connector_index(k: ConnectorKind) -> int {
    match k {
        ConnectorKind::GitHub => 0,
        ConnectorKind::GitLab => 1,
        ConnectorKind::Bitbucket => 2,
        ConnectorKind::Codeberg => 3,
        ConnectorKind::Sourcehut => 4,
        ConnectorKind::PersonalBlog => 5,
        ConnectorKind::Substack => 6,
        ConnectorKind::Medium => 7,
        ConnectorKind::DevTo => 8,
        ConnectorKind::Hashnode => 9,
        ConnectorKind::StackOverflow => 10,
        ConnectorKind::HackerNews => 11,
        ConnectorKind::Reddit => 12,
        ConnectorKind::Bluesky => 13,
        ConnectorKind::Mastodon => 14,
        ConnectorKind::Twitter => 15,
        ConnectorKind::NpmRegistry => 16,
        ConnectorKind::CratesIo => 17,
        ConnectorKind::PyPI => 18,
        ConnectorKind::RubyGems => 19,
        ConnectorKind::DockerHub => 20,
        ConnectorKind::USPTO => 21,
        ConnectorKind::ArXiv => 22,
        ConnectorKind::GoogleScholar => 23,
        ConnectorKind::OrcID => 24,
        ConnectorKind::YouTube => 25,
        ConnectorKind::Twitch => 26,
        ConnectorKind::Behance => 27,
        ConnectorKind::Dribbble => 28,
        ConnectorKind::ArtStation => 29,
        ConnectorKind::LinkedIn => 30,
        ConnectorKind::USAJOBS => 31,
        ConnectorKind::ManualPaste => 32,
        ConnectorKind::ManualResume => 33,
    }
}

/// Every connector has a non-empty display name.
pub proof fn every_display_name_is_non_empty(k: ConnectorKind)
    ensures
        display_name_of(k).len() > 0,
{
    match k {
        ConnectorKind::GitHub => reveal_strlit("GitHub"),
        ConnectorKind::GitLab => reveal_strlit("GitLab"),
        ConnectorKind::Bitbucket => reveal_strlit("Bitbucket"),
        ConnectorKind::Codeberg => reveal_strlit("Codeberg"),
        ConnectorKind::Sourcehut => reveal_strlit("Sourcehut"),
        ConnectorKind::PersonalBlog => reveal_strlit("Personal blog"),
        ConnectorKind::Substack => reveal_strlit("Substack"),
        ConnectorKind::Medium => reveal_strlit("Medium"),
        ConnectorKind::DevTo => reveal_strlit("Dev.to"),
        ConnectorKind::Hashnode => reveal_strlit("Hashnode"),
        ConnectorKind::StackOverflow => reveal_strlit("Stack Overflow"),
        ConnectorKind::HackerNews => reveal_strlit("Hacker News"),
        ConnectorKind::Reddit => reveal_strlit("Reddit"),
        ConnectorKind::Bluesky => reveal_strlit("Bluesky"),
        ConnectorKind::Mastodon => reveal_strlit("Mastodon"),
        ConnectorKind::Twitter => reveal_strlit("Twitter / X"),
        ConnectorKind::NpmRegistry => reveal_strlit("npm"),
        ConnectorKind::CratesIo => reveal_strlit("crates.io"),
        ConnectorKind::PyPI => reveal_strlit("PyPI"),
        ConnectorKind::RubyGems => reveal_strlit("RubyGems"),
        ConnectorKind::DockerHub => reveal_strlit("Docker Hub"),
        ConnectorKind::USPTO => reveal_strlit("USPTO Patents"),
        ConnectorKind::ArXiv => reveal_strlit("arXiv"),
        ConnectorKind::GoogleScholar => reveal_strlit("Google Scholar"),
        ConnectorKind::OrcID => reveal_strlit("ORCID"),
        ConnectorKind::YouTube => reveal_strlit("YouTube"),
        ConnectorKind::Twitch => reveal_strlit("Twitch"),
        ConnectorKind::Behance => reveal_strlit("Behance"),
        ConnectorKind::Dribbble => reveal_strlit("Dribbble"),
        ConnectorKind::ArtStation => reveal_strlit("ArtStation"),
        ConnectorKind::LinkedIn => reveal_strlit("LinkedIn"),
        ConnectorKind::USAJOBS => reveal_strlit("USAJOBS"),
        ConnectorKind::ManualPaste => reveal_strlit("Manual paste"),
        ConnectorKind::ManualResume => reveal_strlit("Resume"),
    }
}


/// The position, in declaration order, of the connector whose debug name
/// is `s`, read off its length and its first and fourth characters; -1
/// for a text that is no connector's debug name.
spec fn index_of_debug_name(s: Seq<char>) -> int {
    if s.len() == 6 && s[0] == 'G' && s[3] == 'H' {
        0
    } else if s.len() == 6 && s[0] == 'G' && s[3] == 'L' {
        1
    } else if s.len() == 9 && s[0] == 'B' && s[3] == 'b' {
        2
    } else if s.len() == 8 && s[0] == 'C' && s[3] == 'e' {
        3
    } else if s.len() == 9 && s[0] == 'S' && s[3] == 'r' {
        4
    } else if s.len() == 12 && s[0] == 'P' && s[3] == 's' {
        5
    } else if s.len() == 8 && s[0] == 'S' && s[3] == 's' {
        6
    } else if s.len() == 6 && s[0] == 'M' && s[3] == 'i' {
        7
    } else if s.len() == 5 && s[0] == 'D' && s[3] == 'T' {
        8
    } else if s.len() == 8 && s[0] == 'H' && s[3] == 'h' {
        9
    } else if s.len() == 13 && s[0] == 'S' && s[3] == 'c' {
        10
    } else if s.len() == 10 && s[0] == 'H' && s[3] == 'k' {
        11
    } else if s.len() == 6 && s[0] == 'R' && s[3] == 'd' {
        12
    } else if s.len() == 7 && s[0] == 'B' && s[3] == 'e' {
        13
    } else if s.len() == 8 && s[0] == 'M' && s[3] == 't' {
        14
    } else if s.len() == 7 && s[0] == 'T' && s[3] == 't' {
        15
    } else if s.len() == 11 && s[0] == 'N' && s[3] == 'R' {
        16
    } else if s.len() == 8 && s[0] == 'C' && s[3] == 't' {
        17
    } else if s.len() == 4 && s[0] == 'P' && s[3] == 'I' {
        18
    } else if s.len() == 8 && s[0] == 'R' && s[3] == 'y' {
        19
    } else if s.len() == 9 && s[0] == 'D' && s[3] == 'k' {
        20
    } else if s.len() == 5 && s[0] == 'U' && s[3] == 'T' {
        21
    } else if s.len() == 5 && s[0] == 'A' && s[3] == 'i' {
        22
    } else if s.len() == 13 && s[0] == 'G' && s[3] == 'g' {
        23
    } else if s.len() == 5 && s[0] == 'O' && s[3] == 'I' {
        24
    } else if s.len() == 7 && s[0] == 'Y' && s[3] == 'T' {
        25
    } else if s.len() == 6 && s[0] == 'T' && s[3] == 't' {
        26
    } else if s.len() == 7 && s[0] == 'B' && s[3] == 'a' {
        27
    } else if s.len() == 8 && s[0] == 'D' && s[3] == 'b' {
        28
    } else if s.len() == 10 && s[0] == 'A' && s[3] == 'S' {
        29
    } else if s.len() == 8 && s[0] == 'L' && s[3] == 'k' {
        30
    } else if s.len() == 7 && s[0] == 'U' && s[3] == 'J' {
        31
    } else if s.len() == 11 && s[0] == 'M' && s[3] == 'u' {
        32
    } else if s.len() == 12 && s[0] == 'M' && s[3] == 'u' {
        33
    } else {
        -1
    }
}

proof fn lemma_index_of_debug_name(k: ConnectorKind)
    ensures
        index_of_debug_name(debug_name_of(k)) == connector_index(k),
{
    match k {
        ConnectorKind::GitHub => reveal_strlit("GitHub"),
        ConnectorKind::GitLab => reveal_strlit("GitLab"),
        ConnectorKind::Bitbucket => reveal_strlit("Bitbucket"),
        ConnectorKind::Codeberg => reveal_strlit("Codeberg"),
        ConnectorKind::Sourcehut => reveal_strlit("Sourcehut"),
        ConnectorKind::PersonalBlog => reveal_strlit("PersonalBlog"),
        ConnectorKind::Substack => reveal_strlit("Substack"),
        ConnectorKind::Medium => reveal_strlit("Medium"),
        ConnectorKind::DevTo => reveal_strlit("DevTo"),
        ConnectorKind::Hashnode => reveal_strlit("Hashnode"),
        ConnectorKind::StackOverflow => reveal_strlit("StackOverflow"),
        ConnectorKind::HackerNews => reveal_strlit("HackerNews"),
        ConnectorKind::Reddit => reveal_strlit("Reddit"),
        ConnectorKind::Bluesky => reveal_strlit("Bluesky"),
        ConnectorKind::Mastodon => reveal_strlit("Mastodon"),
        ConnectorKind::Twitter => reveal_strlit("Twitter"),
        ConnectorKind::NpmRegistry => reveal_strlit("NpmRegistry"),
        ConnectorKind::CratesIo => reveal_strlit("CratesIo"),
        ConnectorKind::PyPI => reveal_strlit("PyPI"),
        ConnectorKind::RubyGems => reveal_strlit("RubyGems"),
        ConnectorKind::DockerHub => reveal_strlit("DockerHub"),
        ConnectorKind::USPTO => reveal_strlit("USPTO"),
        ConnectorKind::ArXiv => reveal_strlit("ArXiv"),
        ConnectorKind::GoogleScholar => reveal_strlit("GoogleScholar"),
        ConnectorKind::OrcID => reveal_strlit("OrcID"),
        ConnectorKind::YouTube => reveal_strlit("YouTube"),
        ConnectorKind::Twitch => reveal_strlit("Twitch"),
        ConnectorKind::Behance => reveal_strlit("Behance"),
        ConnectorKind::Dribbble => reveal_strlit("Dribbble"),
        ConnectorKind::ArtStation => reveal_strlit("ArtStation"),
        ConnectorKind::LinkedIn => reveal_strlit("LinkedIn"),
        ConnectorKind::USAJOBS => reveal_strlit("USAJOBS"),
        ConnectorKind::ManualPaste => reveal_strlit("ManualPaste"),
        ConnectorKind::ManualResume => reveal_strlit("ManualResume"),
    }
}

/// Different connectors have different debug names, so what the product
/// graph keeps per debug name it keeps per connector.
pub proof fn debug_names_are_distinct(a: ConnectorKind, b: ConnectorKind)
    ensures
        debug_name_of(a) == debug_name_of(b) ==> a == b,
{
    lemma_index_of_debug_name(a);
    lemma_index_of_debug_name(b);
    if debug_name_of(a) == debug_name_of(b) {
        assert(connector_index(a) == connector_index(b));
        match a {
            ConnectorKind::GitHub => assert(b == ConnectorKind::GitHub),
            ConnectorKind::GitLab => assert(b == ConnectorKind::GitLab),
            ConnectorKind::Bitbucket => assert(b == ConnectorKind::Bitbucket),
            ConnectorKind::Codeberg => assert(b == ConnectorKind::Codeberg),
            ConnectorKind::Sourcehut => assert(b == ConnectorKind::Sourcehut),
            ConnectorKind::PersonalBlog => assert(b == ConnectorKind::PersonalBlog),
            ConnectorKind::Substack => assert(b == ConnectorKind::Substack),
            ConnectorKind::Medium => assert(b == ConnectorKind::Medium),
            ConnectorKind::DevTo => assert(b == ConnectorKind::DevTo),
            ConnectorKind::Hashnode => assert(b == ConnectorKind::Hashnode),
            ConnectorKind::StackOverflow => assert(b == ConnectorKind::StackOverflow),
            ConnectorKind::HackerNews => assert(b == ConnectorKind::HackerNews),
            ConnectorKind::Reddit => assert(b == ConnectorKind::Reddit),
            ConnectorKind::Bluesky => assert(b == ConnectorKind::Bluesky),
            ConnectorKind::Mastodon => assert(b == ConnectorKind::Mastodon),
            ConnectorKind::Twitter => assert(b == ConnectorKind::Twitter),
            ConnectorKind::NpmRegistry => assert(b == ConnectorKind::NpmRegistry),
            ConnectorKind::CratesIo => assert(b == ConnectorKind::CratesIo),
            ConnectorKind::PyPI => assert(b == ConnectorKind::PyPI),
            ConnectorKind::RubyGems => assert(b == ConnectorKind::RubyGems),
            ConnectorKind::DockerHub => assert(b == ConnectorKind::DockerHub),
            ConnectorKind::USPTO => assert(b == ConnectorKind::USPTO),
            ConnectorKind::ArXiv => assert(b == ConnectorKind::ArXiv),
            ConnectorKind::GoogleScholar => assert(b == ConnectorKind::GoogleScholar),
            ConnectorKind::OrcID => assert(b == ConnectorKind::OrcID),
            ConnectorKind::YouTube => assert(b == ConnectorKind::YouTube),
            ConnectorKind::Twitch => assert(b == ConnectorKind::Twitch),
            ConnectorKind::Behance => assert(b == ConnectorKind::Behance),
            ConnectorKind::Dribbble => assert(b == ConnectorKind::Dribbble),
            ConnectorKind::ArtStation => assert(b == ConnectorKind::ArtStation),
            ConnectorKind::LinkedIn => assert(b == ConnectorKind::LinkedIn),
            ConnectorKind::USAJOBS => assert(b == ConnectorKind::USAJOBS),
            ConnectorKind::ManualPaste => assert(b == ConnectorKind::ManualPaste),
            ConnectorKind::ManualResume => assert(b == ConnectorKind::ManualResume),
        }
    }
}

} // verus!
