use vstd::prelude::*;

verus! {

/// How serious a finding is, from least to most severe.
#[derive(Debug, Clone, Copy, PartialEq, Eq, Structural)]
pub enum Severity {
    Info,
    Low,
    Medium,
    High,
    Critical,
}

/// Rank of a severity: `Info` is 0 and `Critical` is 4.
pub open spec fn severity_rank(s: Severity) -> nat {
    match s {
        Severity::Info => 0,
        Severity::Low => 1,
        Severity::Medium => 2,
        Severity::High => 3,
        Severity::Critical => 4,
    }
}

/// The lowercase name of a severity, as reports and `zerum.toml` spell it.
pub open spec fn severity_name(s: Severity) -> Seq<char> {
    match s {
        Severity::Info => "info"@,
        Severity::Low => "low"@,
        Severity::Medium => "medium"@,
        Severity::High => "high"@,
        Severity::Critical => "critical"@,
    }
}

impl Severity {
    /// The lowercase name of the severity.
    pub fn as_str(&self) -> (s: &'static str)
        ensures
            s@ == severity_name(*self),
    {
        match self {
            Severity::Info => "info",
            Severity::Low => "low",
            Severity::Medium => "medium",
            Severity::High => "high",
            Severity::Critical => "critical",
        }
    }

    /// Numeric rank (0 for `Info` up to 4 for `Critical`); higher is more severe.
    pub fn rank(&self) -> (r: u8)
        ensures
            r as nat == severity_rank(*self),
    {
        match self {
            Severity::Info => 0,
            Severity::Low => 1,
            Severity::Medium => 2,
            Severity::High => 3,
            Severity::Critical => 4,
        }
    }
}

} // verus!
