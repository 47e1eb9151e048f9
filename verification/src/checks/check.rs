//! What every check offers: its identity and documentation, and the issues
//! it reports on a file.
use vstd::prelude::*;
use super::catalog::{CheckMetadata, CheckView};
use super::run::CheckContext;
use crate::base::category::Category;
use crate::base::issue::{issue_views, Issue, IssueView};
use crate::base::severity::Severity;
use crate::config::ConfigView;
use crate::parser::python::ParsedFile;

verus! {

/// A check: an id and name, a category and severity, guidance for the
/// reader, and a run over one parsed file.
pub trait Check {
    /// The check's identity, documentation and detector.
    spec fn check_view(&self) -> CheckView;

    /// The issues the check reports on the file at `path` under `cfg`.
    spec fn reported(&self, cfg: ConfigView, path: Seq<char>, p: ParsedFile) -> Seq<IssueView>;

    /// The check's identity.
    fn metadata(&self) -> (r: CheckMetadata)
        ensures
            r.id@ == self.check_view().id,
            r.name@ == self.check_view().name,
            r.category == self.check_view().category,
            r.severity == self.check_view().severity,
            r.safe_fixable == self.check_view().safe_fixable,
            r.examples@ == self.check_view().examples,
    ;

    /// The check's id.
    fn id(&self) -> (r: &'static str)
        ensures
            r@ == self.check_view().id,
    ;

    /// The check's name.
    fn name(&self) -> (r: &'static str)
        ensures
            r@ == self.check_view().name,
    ;

    /// The check's category.
    fn category(&self) -> (r: Category)
        ensures
            r == self.check_view().category,
    ;

    /// The check's own severity.
    fn severity(&self) -> (r: Severity)
        ensures
            r == self.check_view().severity,
    ;

    /// Why the finding matters.
    fn explanation(&self) -> (r: &'static str)
        ensures
            r@ == self.check_view().explanation,
    ;

    /// How to fix it.
    fn remediation(&self) -> (r: &'static str)
        ensures
            r@ == self.check_view().remediation,
    ;

    /// When the check may fire without a real problem.
    fn false_positives(&self) -> (r: &'static str)
        ensures
            r@ == self.check_view().false_positives,
    ;

    /// What turning the check off costs.
    fn tradeoffs(&self) -> (r: &'static str)
        ensures
            r@ == self.check_view().tradeoffs,
    ;

    /// The issues the check reports on the file of `ctx`.
    fn run(&self, ctx: &CheckContext) -> (r: Vec<Issue>)
        requires
            ctx.wf(),
        ensures
            issue_views(r@) == self.reported(ctx.config@, ctx.path@, *ctx.parsed),
    ;
}

} // verus!
