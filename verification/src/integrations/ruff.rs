//! Ruff: how its diagnostics become findings.
use vstd::prelude::*;
use super::external_checker::{ExternalChecker, ExternalFinding};
use crate::base::severity::Severity;
use crate::text::{has_prefix, starts_with, string_of};

verus! {

/// The Ruff linter, run as an external checker.
pub struct RuffChecker;

impl ExternalChecker for RuffChecker {
    open spec fn checker_id(&self) -> Seq<char> {
        "ruff"@
    }

    open spec fn checker_name(&self) -> Seq<char> {
        "Ruff"@
    }

    fn id(&self) -> (r: &'static str)
        ensures
            r@ == "ruff"@,
    {
        "ruff"
    }

    fn name(&self) -> (r: &'static str)
        ensures
            r@ == "Ruff"@,
    {
        "Ruff"
    }
}

/// Errors (`E…`) and pyflakes findings (`F…`) are high severity; the rest medium.
pub open spec fn ruff_severity(code: Seq<char>) -> Severity {
    if has_prefix(code, "E"@) || has_prefix(code, "F"@) {
        Severity::High
    } else {
        Severity::Medium
    }
}

/// The severity of a Ruff rule code.
pub fn map_ruff_severity(code: &str) -> (r: Severity)
    ensures
        r == ruff_severity(code@),
{
    if starts_with(code, "E") || starts_with(code, "F") {
        Severity::High
    } else {
        Severity::Medium
    }
}

/// One diagnostic of `ruff check --output-format json`: its rule code,
/// message, file and 1-based location.
pub struct RuffDiagnostic {
    pub code: String,
    pub message: String,
    pub filename: String,
    pub row: usize,
    pub column: usize,
}

/// `f` is the finding Ruff's diagnostic `d` becomes: tool `ruff`, the same
/// code, message and file, the code's severity, and the location moved to at
/// least line 1, column 1.
pub open spec fn is_finding_of(f: ExternalFinding, d: RuffDiagnostic) -> bool {
    &&& f.tool@ == "ruff"@
    &&& f.code@ == d.code@
    &&& f.message@ == d.message@
    &&& f.file@ == d.filename@
    &&& f.line == if d.row >= 1 { d.row } else { 1 }
    &&& f.column == if d.column >= 1 { d.column } else { 1 }
    &&& f.severity == ruff_severity(d.code@)
}

/// The findings of a Ruff run: one per diagnostic, in Ruff's order.
pub fn findings_from_diagnostics(ds: &Vec<RuffDiagnostic>) -> (r: Vec<ExternalFinding>)
    ensures
        r@.len() == ds@.len(),
        forall|i: int| 0 <= i < ds@.len() ==> is_finding_of(#[trigger] r@[i], ds@[i]),
{
    let mut out: Vec<ExternalFinding> = Vec::new();
    let mut i: usize = 0;
    while i < ds.len()
        invariant
            i <= ds@.len(),
            out@.len() == i,
            forall|j: int| 0 <= j < i ==> is_finding_of(#[trigger] out@[j], ds@[j]),
        decreases ds@.len() - i,
    {
        let d = &ds[i];
        let f = finding_from_diagnostic(d.code.clone(), d.message.clone(), d.filename.clone(), d.row, d.column);
        out.push(f);
        i = i + 1;
    }
    out
}

/// A Ruff diagnostic as a finding: tool `ruff`, the code's severity, and a
/// location of at least line 1, column 1.
pub fn finding_from_diagnostic(code: String, message: String, filename: String, row: usize, column: usize) -> (r:
    ExternalFinding)
    ensures
        r.tool@ == "ruff"@,
        r.code@ == code@,
        r.message@ == message@,
        r.file@ == filename@,
        r.line == if row >= 1 { row } else { 1 },
        r.column == if column >= 1 { column } else { 1 },
        r.severity == ruff_severity(code@),
{
    let severity = map_ruff_severity(code.as_str());
    ExternalFinding {
        tool: string_of("ruff"),
        code,
        message,
        file: filename,
        line: if row >= 1 { row } else { 1 },
        column: if column >= 1 { column } else { 1 },
        severity,
    }
}

} // verus!
