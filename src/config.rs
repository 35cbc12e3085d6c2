use vstd::prelude::*;

verus! {

/// Log verbosity of a run.
#[derive(Clone, Copy, Debug, PartialEq, Eq, Structural)]
pub enum LogLevel {
    Info,
    Debug,
    Trace,
}

impl Default for LogLevel {
    fn default() -> (r: Self)
        ensures
            r == LogLevel::Info,
    {
        LogLevel::Info
    }
}

/// Options shared by every triage kind.
pub struct CommonConfig {
    /// Path to a checkout of the repository whose issues are triaged.
    pub repo_path: String,
    pub log_level: LogLevel,
}

/// Where a triage writes its artifacts, and the title of its document.
pub struct CommonTriageConfig {
    /// Where the normalized issue records are written as JSON.
    pub persist_path: String,
    pub markdown_stub_title: String,
    /// Where the Markdown review document is written.
    pub markdown_stub_path: String,
}

pub struct PHighTriage {
    pub common: CommonTriageConfig,
}

pub struct CompilerTrackingIssueTriage {
    pub common: CommonTriageConfig,
}

pub struct NoTeamTrackingIssueTriage {
    pub common: CommonTriageConfig,
}

/// The triage to perform.
pub enum Cmd {
    PHighTriage(PHighTriage),
    CompilerTrackingIssueTriage(CompilerTrackingIssueTriage),
    NoTeamTrackingIssueTriage(NoTeamTrackingIssueTriage),
}

/// A whole run's configuration.
pub struct Config {
    pub common: CommonConfig,
    pub cmd: Cmd,
}

/// The human-readable name of a triage kind.
pub open spec fn triage_kind_name(cmd: &Cmd) -> Seq<char> {
    match cmd {
        Cmd::PHighTriage(_) => "P-high triage"@,
        Cmd::CompilerTrackingIssueTriage(_) => "T-compiler tracking issue triage"@,
        Cmd::NoTeamTrackingIssueTriage(_) => "No-team tracking issue triage"@,
    }
}

impl Cmd {
    pub fn triage_kind(&self) -> (r: &'static str)
        ensures
            r@ == triage_kind_name(self),
    {
        match self {
            Cmd::PHighTriage(_) => "P-high triage",
            Cmd::CompilerTrackingIssueTriage(_) => "T-compiler tracking issue triage",
            Cmd::NoTeamTrackingIssueTriage(_) => "No-team tracking issue triage",
        }
    }
}

} // verus!
