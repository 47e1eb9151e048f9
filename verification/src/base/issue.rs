use vstd::prelude::*;
use super::category::Category;
use super::severity::Severity;

verus! {

/// How a finding was obtained.
#[derive(Debug, Clone, Copy, PartialEq, Eq, Structural)]
pub enum ConfidenceKind {
    Deterministic,
    ToolReported,
    LlmInferred,
    ConsensusInferred,
}

/// One finding reported against a source location.
#[derive(Debug)]
pub struct Issue {
    pub id: String,
    pub title: String,
    pub message: String,
    pub explanation: Option<String>,
    pub remediation: Option<String>,
    pub file: String,
    pub line: usize,
    pub column: usize,
    pub severity: Severity,
    pub category: Category,
    pub source: String,
    pub confidence: ConfidenceKind,
}

/// The character views of an optional string.
pub open spec fn opt_text(o: Option<String>) -> Option<Seq<char>> {
    match o {
        Some(s) => Some(s@),
        None => None,
    }
}

/// Mathematical model of an [`Issue`].
pub ghost struct IssueView {
    pub id: Seq<char>,
    pub title: Seq<char>,
    pub message: Seq<char>,
    pub explanation: Option<Seq<char>>,
    pub remediation: Option<Seq<char>>,
    pub file: Seq<char>,
    pub line: int,
    pub column: int,
    pub severity: Severity,
    pub category: Category,
    pub source: Seq<char>,
    pub confidence: ConfidenceKind,
}

impl View for Issue {
    type V = IssueView;

    open spec fn view(&self) -> IssueView {
        IssueView {
            id: self.id@,
            title: self.title@,
            message: self.message@,
            explanation: opt_text(self.explanation),
            remediation: opt_text(self.remediation),
            file: self.file@,
            line: self.line as int,
            column: self.column as int,
            severity: self.severity,
            category: self.category,
            source: self.source@,
            confidence: self.confidence,
        }
    }
}

/// The models of a sequence of issues.
pub open spec fn issue_views(v: Seq<Issue>) -> Seq<IssueView> {
    v.map_values(|i: Issue| i@)
}

impl Issue {
    /// A deterministic finding produced by Zerum itself, without guidance text.
    pub fn deterministic(
        id: String,
        title: String,
        message: String,
        file: String,
        line: usize,
        column: usize,
        severity: Severity,
        category: Category,
    ) -> (r: Issue)
        ensures
            r.id == id,
            r.title == title,
            r.message == message,
            r.explanation is None,
            r.remediation is None,
            r.file == file,
            r.line == line,
            r.column == column,
            r.severity == severity,
            r.category == category,
            r.source@ == "zerum"@,
            r.confidence == ConfidenceKind::Deterministic,
    {
        Issue {
            id,
            title,
            message,
            explanation: None,
            remediation: None,
            file,
            line,
            column,
            severity,
            category,
            source: crate::text::string_of("zerum"),
            confidence: ConfidenceKind::Deterministic,
        }
    }

    /// The same finding with its explanation and remediation set.
    pub fn with_guidance(self, explanation: String, remediation: String) -> (r: Issue)
        ensures
            r.explanation == Some(explanation),
            r.remediation == Some(remediation),
            r.id == self.id,
            r.title == self.title,
            r.message == self.message,
            r.file == self.file,
            r.line == self.line,
            r.column == self.column,
            r.severity == self.severity,
            r.category == self.category,
            r.source == self.source,
            r.confidence == self.confidence,
    {
        let mut s = self;
        s.explanation = Some(explanation);
        s.remediation = Some(remediation);
        s
    }
}

} // verus!
