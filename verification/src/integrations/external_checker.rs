//! Findings reported by external checkers, and the checkers Zerum knows.
use vstd::prelude::*;
use super::ruff::RuffChecker;
use crate::base::category::Category;
use crate::base::issue::{ConfidenceKind, Issue, IssueView};
use crate::base::severity::Severity;
use crate::text::{push_char, push_str, str_eq, string_of, to_uppercase, unicode_uppercase};

verus! {

/// One finding of an external tool.
pub struct ExternalFinding {
    pub tool: String,
    pub code: String,
    pub message: String,
    pub file: String,
    pub line: usize,
    pub column: usize,
    pub severity: Severity,
}

/// The issue an external finding becomes, given its tool name uppercased:
/// id `EXT-<TOOL>-<code>`, title `<tool>:<code>`, a warning attributed to
/// the tool and marked as tool-reported, without guidance text.
pub open spec fn external_issue_named(f: ExternalFinding, tool_upper: Seq<char>) -> IssueView {
    IssueView {
        id: "EXT-"@ + tool_upper + seq!['-'] + f.code@,
        title: f.tool@ + seq![':'] + f.code@,
        message: f.message@,
        explanation: None,
        remediation: None,
        file: f.file@,
        line: f.line as int,
        column: f.column as int,
        severity: f.severity,
        category: Category::Warning,
        source: f.tool@,
        confidence: ConfidenceKind::ToolReported,
    }
}

/// The issue an external finding becomes: the tool name in its id is the
/// Unicode uppercase form of the tool's name.
pub open spec fn external_issue(f: ExternalFinding) -> IssueView {
    external_issue_named(f, unicode_uppercase(f.tool@))
}

impl ExternalFinding {
    /// The issue this finding becomes.
    pub fn into_issue(self) -> (r: Issue)
        ensures
            r@ == external_issue(self),
    {
        let tool_upper = to_uppercase(self.tool.as_str());
        self.into_issue_named(tool_upper.as_str())
    }

    /// The issue this finding becomes, given its tool name uppercased.
    pub fn into_issue_named(self, tool_upper: &str) -> (r: Issue)
        ensures
            r@ == external_issue_named(self, tool_upper@),
    {
        let mut id = string_of("EXT-");
        push_str(&mut id, tool_upper);
        push_char(&mut id, '-');
        push_str(&mut id, self.code.as_str());
        let mut title = self.tool.clone();
        push_char(&mut title, ':');
        push_str(&mut title, self.code.as_str());
        proof {
            assert(id@ =~= "EXT-"@ + tool_upper@ + seq!['-'] + self.code@);
            assert(title@ =~= self.tool@ + seq![':'] + self.code@);
        }
        Issue {
            id,
            title,
            message: self.message,
            explanation: None,
            remediation: None,
            file: self.file,
            line: self.line,
            column: self.column,
            severity: self.severity,
            category: Category::Warning,
            source: self.tool,
            confidence: ConfidenceKind::ToolReported,
        }
    }
}

/// An external checker: an id to select it by and a display name.
pub trait ExternalChecker {
    /// The id this checker is selected by.
    spec fn checker_id(&self) -> Seq<char>;

    /// The name this checker is shown under.
    spec fn checker_name(&self) -> Seq<char>;

    fn id(&self) -> (r: &'static str)
        ensures
            r@ == self.checker_id(),
    ;

    fn name(&self) -> (r: &'static str)
        ensures
            r@ == self.checker_name(),
    ;
}

/// The external checkers Zerum knows: Ruff alone, with id `ruff` and name
/// `Ruff`.
pub fn builtin_checkers() -> (r: Vec<RuffChecker>)
    ensures
        r@.len() == 1,
        r@[0].checker_id() == "ruff"@,
        r@[0].checker_name() == "Ruff"@,
{
    let mut v: Vec<RuffChecker> = Vec::new();
    v.push(RuffChecker);
    v
}

/// The known external checker with this id (compared exactly).
pub fn find_checker(id: &str) -> (r: Option<RuffChecker>)
    ensures
        r is Some <==> id@ == "ruff"@,
        r matches Some(c) ==> c.checker_id() == id@,
{
    if str_eq(id, "ruff") {
        Some(RuffChecker)
    } else {
        None
    }
}

} // verus!
