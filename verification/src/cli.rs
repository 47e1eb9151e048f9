//! What the command line prints and how it exits, apart from the I/O.
use vstd::prelude::*;
use crate::base::category::category_name;
use crate::base::severity::severity_name;
use crate::checks::catalog::{CatalogCheck, CheckView};
use crate::reporters::render::ReportKind;
use crate::text::{push_str, string_of};

verus! {

/// Exit code when issues are found.
pub const EXIT_ISSUES: u8 = 1;

/// Exit code for operational failures (I/O, every file failing to parse, CLI errors).
pub const EXIT_ERROR: u8 = 2;

/// The `--format` values of `zerum check`.
#[derive(Debug, Clone, Copy, PartialEq, Eq, Structural)]
pub enum ReportFormat {
    Human,
    Json,
    Sarif,
}

impl From<ReportFormat> for ReportKind {
    fn from(format: ReportFormat) -> (r: ReportKind) {
        match format {
            ReportFormat::Human => ReportKind::Human,
            ReportFormat::Json => ReportKind::Json,
            ReportFormat::Sarif => ReportKind::Sarif,
        }
    }
}

impl vstd::std_specs::convert::FromSpecImpl<ReportFormat> for ReportKind {
    open spec fn obeys_from_spec() -> bool {
        true
    }

    open spec fn from_spec(format: ReportFormat) -> ReportKind {
        match format {
            ReportFormat::Human => ReportKind::Human,
            ReportFormat::Json => ReportKind::Json,
            ReportFormat::Sarif => ReportKind::Sarif,
        }
    }
}

/// The subcommands of `zerum`.
pub enum Commands {
    /// Run deterministic checks on a path (exits 1 when issues are found).
    Check { path: String, format: ReportFormat, profile: Option<String>, with_external: Vec<String> },
    /// Explain a check by id (e.g. ZR001).
    Explain { id: String },
    /// Write a starter `zerum.toml` in the current directory.
    Init { strict: bool },
    /// List built-in deterministic checks.
    ListChecks,
    /// List configured and available external checkers.
    ListCheckers,
}

/// A parsed `zerum` command line.
pub struct Cli {
    pub command: Commands,
}

/// The exit code of `zerum check`: an operational error when files failed
/// and no issue was found, success when there is no issue, else "issues".
pub open spec fn exit_code_for(issues: nat, file_errors: nat) -> u8 {
    if file_errors > 0 && issues == 0 {
        EXIT_ERROR
    } else if issues == 0 {
        0
    } else {
        EXIT_ISSUES
    }
}

/// The exit code of `zerum check` for its outcome.
pub fn check_exit_code(issues: usize, file_errors: usize) -> (r: u8)
    ensures
        r == exit_code_for(issues as nat, file_errors as nat),
{
    if file_errors > 0 && issues == 0 {
        EXIT_ERROR
    } else if issues == 0 {
        0
    } else {
        EXIT_ISSUES
    }
}

/// The text of `zerum explain <ID>`: identity, category, severity,
/// explanation, false positives, tradeoffs, examples and remediation.
pub open spec fn explain_spec(c: CheckView) -> Seq<char> {
    c.id + " — "@ + c.name + "\n"@ + "category: "@ + category_name(c.category) + "\n"@ + "severity: "@
        + severity_name(c.severity) + "\n"@ + "\n"@ + c.explanation + "\n"@ + "\n"@ + "False positives: "@
        + c.false_positives + "\n"@ + "Tradeoffs: "@ + c.tradeoffs + "\n"@ + "Examples: "@ + c.examples + "\n"@
        + "\n"@ + "Remediation: "@ + c.remediation + "\n"@
}

/// The text of `zerum explain` for a check.
pub fn explain_text(c: &CatalogCheck) -> (r: String)
    ensures
        r@ == explain_spec(c@),
{
    let mut s = string_of(c.metadata.id);
    let ghost s0 = s@;
    push_str(&mut s, " — ");
    push_str(&mut s, c.metadata.name);
    push_str(&mut s, "\n");
    push_str(&mut s, "category: ");
    push_str(&mut s, c.metadata.category.as_str());
    push_str(&mut s, "\n");
    push_str(&mut s, "severity: ");
    push_str(&mut s, c.metadata.severity.as_str());
    push_str(&mut s, "\n");
    let ghost s1 = s@;
    proof {
        assert(s1 =~= c@.id + " — "@ + c@.name + "\n"@ + "category: "@ + category_name(c@.category) + "\n"@
            + "severity: "@ + severity_name(c@.severity) + "\n"@);
    }
    push_str(&mut s, "\n");
    push_str(&mut s, c.explanation);
    push_str(&mut s, "\n");
    push_str(&mut s, "\n");
    push_str(&mut s, "False positives: ");
    push_str(&mut s, c.false_positives);
    push_str(&mut s, "\n");
    let ghost s2 = s@;
    proof {
        assert(s2 =~= s1 + "\n"@ + c@.explanation + "\n"@ + "\n"@ + "False positives: "@ + c@.false_positives + "\n"@);
    }
    push_str(&mut s, "Tradeoffs: ");
    push_str(&mut s, c.tradeoffs);
    push_str(&mut s, "\n");
    push_str(&mut s, "Examples: ");
    push_str(&mut s, c.metadata.examples);
    push_str(&mut s, "\n");
    push_str(&mut s, "\n");
    push_str(&mut s, "Remediation: ");
    push_str(&mut s, c.remediation);
    push_str(&mut s, "\n");
    proof {
        assert(s@ =~= s2 + "Tradeoffs: "@ + c@.tradeoffs + "\n"@ + "Examples: "@ + c@.examples + "\n"@ + "\n"@
            + "Remediation: "@ + c@.remediation + "\n"@);
        assert(s@ =~= explain_spec(c@));
    }
    s
}

/// One line of `zerum list-checks`: `ID  name  [category] severity`.
pub open spec fn list_line_spec(c: CheckView) -> Seq<char> {
    c.id + "  "@ + c.name + "  ["@ + category_name(c.category) + "] "@ + severity_name(c.severity)
}

/// The `zerum list-checks` line of a check.
pub fn list_line(c: &CatalogCheck) -> (r: String)
    ensures
        r@ == list_line_spec(c@),
{
    let mut s = string_of(c.metadata.id);
    push_str(&mut s, "  ");
    push_str(&mut s, c.metadata.name);
    push_str(&mut s, "  [");
    push_str(&mut s, c.metadata.category.as_str());
    push_str(&mut s, "] ");
    push_str(&mut s, c.metadata.severity.as_str());
    proof {
        assert(s@ =~= list_line_spec(c@));
    }
    s
}

} // verus!
