//! Choosing a report format.
use vstd::prelude::*;
use super::human::{human_report, HumanReporter};
use crate::base::issue::{issue_views, Issue};

verus! {

/// Something that renders a list of issues as text.
pub trait Reporter {
    /// The report for `issues`.
    fn report(&self, issues: &Vec<Issue>) -> String;
}

/// The report formats of `zerum check`.
#[derive(Debug, Clone, Copy, PartialEq, Eq, Structural)]
pub enum ReportKind {
    Human,
    Json,
    Sarif,
}

/// The text report for the formats rendered here (human); `None` for the
/// serialized formats (JSON, SARIF), which the caller serializes from the
/// issues or from [`super::sarif::SarifReporter::build`].
pub fn render(kind: ReportKind, issues: &Vec<Issue>) -> (r: Option<String>)
    ensures
        match kind {
            ReportKind::Human => r matches Some(t) && t@ == human_report(issue_views(issues@)),
            _ => r is None,
        },
{
    match kind {
        ReportKind::Human => Some(HumanReporter.report(issues)),
        _ => None,
    }
}

} // verus!
