//! Running a catalog check on a parsed file: what each detector finds, and
//! the issues the check reports for it.
use vstd::prelude::*;
use vstd::string::StringSliceAdditionalSpecFns;
use vstd::utf8::encode_utf8;
use super::catalog::{patterns_of, pattern_list, CatalogCheck, CatalogDetector, CheckMetadata, CheckView, Detector};
use super::check::Check;
use super::expr_rules::{
    detect_mixed_string_quotes, detect_repeated_literal, mixed_quotes_hits, module_expr_hits, repeated_literal_hits,
    scan_expressions, ExprRule,
};
use super::flow_rules::{block_sort_hits, detect_sort_then_reverse};
use super::hit::{append_hits, hit_views, Anchor, Hit, HitView};
use super::layering::{detect_forbidden_imports, forbidden_import_hits};
use super::model_rules::{
    class_threshold_hits, classes_over, detect_inconsistent_function_naming, detect_service_naming_explosion,
    detect_test_and_should_mix, functions_missing_docstring, functions_over, missing_docstring_hits, naming_mix_hits,
    service_explosion_hits, test_should_hits, threshold_hits, ClassMeasure, FunctionMeasure,
};
use super::stmt_rules::HandlerRule;
use super::stmt_scan::{
    detect_global_mutable_assignment, module_global_mutable_hits, module_stmt_hits, scan_statements, StmtRule,
};
use super::text_rules::{
    comment_hits, detect_missing_module_docstring, missing_module_docstring_hits, pattern_comment_hits,
    pattern_line_hits, scan_comment_patterns, scan_comments, scan_line_patterns, CommentRule,
};
use crate::analysis::lines::{comments_of, source_lines};
use crate::analysis::model::{module_classes, module_functions, module_imports, src_bytes};
use crate::analysis::source_model::SourceModel;
use crate::base::category::Category;
use crate::base::issue::{issue_views, ConfidenceKind, Issue, IssueView};
use crate::base::severity::Severity;
use crate::config::{resolve, rules_view, Config, ConfigView, ResolvedView};
use crate::parser::location::{line_col_at, spec_line_col};
use crate::parser::python::ParsedFile;
use crate::text::string_of;

verus! {

/// What a check runs against: the file's path, its parse, the
/// configuration, and the facts read from the parse.
pub struct CheckContext<'a> {
    pub path: &'a str,
    pub parsed: &'a ParsedFile,
    pub config: &'a Config,
    pub model: SourceModel,
}

impl<'a> CheckContext<'a> {
    /// The context holds the facts of its parse.
    pub open spec fn wf(&self) -> bool {
        self.parsed.wf() && self.model.describes(*self.parsed)
    }

    /// A context for one parsed file.
    pub fn new(path: &'a str, parsed: &'a ParsedFile, config: &'a Config) -> (r: CheckContext<'a>)
        requires
            parsed.wf(),
        ensures
            r.wf(),
            r.path == path,
            r.parsed == parsed,
            r.config == config,
    {
        CheckContext { path, parsed, config, model: SourceModel::from_parsed(parsed) }
    }

    /// The path of the file, as a `String`.
    pub fn file_path(&self) -> (r: String)
        ensures
            r@ == self.path@,
    {
        string_of(self.path)
    }

    /// The facts of the file.
    pub fn source_model(&self) -> (r: &SourceModel)
        requires
            self.wf(),
        ensures
            r.describes(*self.parsed),
    {
        &self.model
    }
}

/// A configured limit, or the default when the configuration sets none.
pub open spec fn limit(o: Option<usize>, default: usize) -> usize {
    match o {
        Some(v) => v,
        None => default,
    }
}

/// What an AST-precise detector finds in a file.
pub open spec fn precise_hits(c: CatalogDetector, p: ParsedFile) -> Seq<HitView> {
    let src = src_bytes(p);
    let m = p.module;
    let fs = module_functions(src, m);
    let cs = module_classes(src, m);
    let cm = comments_of(p.source@);
    match c {
        CatalogDetector::CommentedOutCode => comment_hits(CommentRule::CommentedOutCode, cm),
        CatalogDetector::AiPlaceholderInComment => comment_hits(CommentRule::AiPlaceholder, cm),
        CatalogDetector::GeneratedCommentPattern => comment_hits(CommentRule::GeneratedCommentPattern, cm),
        CatalogDetector::GeneratedDeadBranch => module_stmt_hits(StmtRule::DeadBranch, src, m),
        CatalogDetector::RedundantBooleanComparison => module_expr_hits(ExprRule::RedundantBooleanComparison, m),
        CatalogDetector::DataclassWithoutBehavior => module_stmt_hits(StmtRule::DataclassWithoutBehavior, src, m),
        CatalogDetector::GlobalMutableAssignment => module_global_mutable_hits(m),
        CatalogDetector::ExceptHandlerOnlyPass { typed_only } => module_stmt_hits(
            StmtRule::Handler(HandlerRule::OnlyPass { typed_only }),
            src,
            m,
        ),
        CatalogDetector::MixedStringQuotes => mixed_quotes_hits(src, m),
        CatalogDetector::ShortVariableName => module_stmt_hits(StmtRule::ShortVariableName, src, m),
        CatalogDetector::TestAndShouldFunctionMix => test_should_hits(fs),
        CatalogDetector::DefensiveNamingSuffix => module_stmt_hits(StmtRule::DefensiveNamingSuffix, src, m),
        CatalogDetector::ServiceNamingExplosion => service_explosion_hits(cs),
        CatalogDetector::UnnecessaryElseAfterReturn => module_stmt_hits(StmtRule::ElseAfterReturn, src, m),
        CatalogDetector::IdentityPassthrough => module_stmt_hits(StmtRule::IdentityPassthrough, src, m),
        CatalogDetector::IdentityMap => module_expr_hits(ExprRule::IdentityMap, m),
        CatalogDetector::BlanketExceptException => module_stmt_hits(
            StmtRule::Handler(HandlerRule::BlanketException),
            src,
            m,
        ),
        CatalogDetector::SilentFallbackReturnNone => module_stmt_hits(
            StmtRule::Handler(HandlerRule::SilentFallback),
            src,
            m,
        ),
        CatalogDetector::GenericExceptionMessage => module_stmt_hits(StmtRule::GenericExceptionMessage, src, m),
        CatalogDetector::CollapsibleIf => module_stmt_hits(StmtRule::CollapsibleIf, src, m),
        CatalogDetector::DuplicateBranchBody => module_stmt_hits(StmtRule::DuplicateBranchBody, src, m),
        CatalogDetector::ManualStringJoinInLoop => module_stmt_hits(StmtRule::ManualStringJoin, src, m),
        CatalogDetector::SortThenReverse => block_sort_hits(m.body@),
        CatalogDetector::SortForTopK => module_expr_hits(ExprRule::SortForTopK, m),
        CatalogDetector::QueryInLoop => module_stmt_hits(StmtRule::QueryInLoop, src, m),
        CatalogDetector::SimplifiableIfExpression => module_expr_hits(ExprRule::SimplifiableIfExpression, m),
        CatalogDetector::ExtractableCondition => module_stmt_hits(StmtRule::ExtractableCondition, src, m),
        CatalogDetector::RepeatedTryExcept => module_stmt_hits(StmtRule::RepeatedTryExcept, src, m),
        CatalogDetector::AmbiguousNoneReturn => module_stmt_hits(StmtRule::AmbiguousNoneReturn, src, m),
        CatalogDetector::RejectNoneGuard => module_stmt_hits(StmtRule::RejectNoneGuard, src, m),
        CatalogDetector::FilterNonePattern => module_expr_hits(ExprRule::FilterNoneComprehension, m)
            + module_stmt_hits(StmtRule::LoopFilterNone, src, m),
        CatalogDetector::InconsistentFunctionNaming => naming_mix_hits(fs),
        CatalogDetector::RepeatedLiteral => repeated_literal_hits(m),
        CatalogDetector::EmptyWrapperFunction => module_stmt_hits(StmtRule::EmptyWrapperFunction, src, m),
        CatalogDetector::MixedReturnStyle => module_stmt_hits(StmtRule::MixedReturnStyle, src, m),
    }
}

/// What a detector finds in the file at `path`, with the check's resolved
/// settings `rc` (limits and layering rules).
pub open spec fn detector_hits(d: Detector, rc: ResolvedView, path: Seq<char>, p: ParsedFile) -> Seq<HitView> {
    let src = src_bytes(p);
    let m = p.module;
    let fs = module_functions(src, m);
    let cs = module_classes(src, m);
    let ls = source_lines(p.source@);
    let cm = comments_of(p.source@);
    match d {
        Detector::LongFunction(def) => threshold_hits(FunctionMeasure::BodyLines, limit(rc.max_lines, def) as int, fs),
        Detector::TooManyArguments(def) => threshold_hits(
            FunctionMeasure::Arguments,
            limit(rc.max_arguments, def) as int,
            fs,
        ),
        Detector::DeepNesting(def) => threshold_hits(FunctionMeasure::NestingDepth, limit(rc.max_depth, def) as int, fs),
        Detector::TooManyBranches(def) => threshold_hits(
            FunctionMeasure::Branches,
            limit(rc.max_branches, def) as int,
            fs,
        ),
        Detector::GodClass(def) => class_threshold_hits(ClassMeasure::Methods, limit(rc.max_methods, def) as int, cs),
        Detector::TooManyPublicMethods(def) => class_threshold_hits(
            ClassMeasure::PublicMethods,
            limit(rc.max_methods, def) as int,
            cs,
        ),
        Detector::ComplexBooleanExpression(max) => module_expr_hits(ExprRule::ComplexBooleanExpression(max), m),
        Detector::MagicNumber => module_expr_hits(ExprRule::MagicNumber, m),
        Detector::TodoWithoutContext => comment_hits(CommentRule::TodoWithoutContext, cm),
        Detector::AssertProduction => module_stmt_hits(StmtRule::Assert, src, m),
        Detector::DangerousEvalExec => module_expr_hits(ExprRule::DangerousEvalExec, m),
        Detector::LengthComparison => module_expr_hits(ExprRule::LengthComparison, m),
        Detector::PatternAny(ps) => pattern_line_hits(pattern_list(ps), ls),
        Detector::PatternComment(ps) => pattern_comment_hits(pattern_list(ps), cm),
        Detector::MissingModuleDocstring => missing_module_docstring_hits(ls),
        Detector::MissingFunctionDocstring => missing_docstring_hits(fs),
        Detector::BroadExcept => module_stmt_hits(StmtRule::Handler(HandlerRule::BroadExcept), src, m),
        Detector::BareExcept => module_stmt_hits(StmtRule::Handler(HandlerRule::BareExcept), src, m),
        Detector::BroadOrBareExcept => module_stmt_hits(StmtRule::Handler(HandlerRule::BroadOrBare), src, m),
        Detector::MutableDefaultArgument => module_stmt_hits(StmtRule::MutableDefaultArgument, src, m),
        Detector::PrintDebugging => module_expr_hits(ExprRule::PrintDebugging, m),
        Detector::ForbiddenArchitectureImport => forbidden_import_hits(path, rc.rules, module_imports(src, m)),
        Detector::Precise(c) => precise_hits(c, p),
    }
}

/// The line and column a finding points at.
pub open spec fn anchor_position(src: Seq<u8>, a: Anchor) -> (int, int) {
    match a {
        Anchor::Offset(o) => spec_line_col(src, o as int),
        Anchor::At(l, c) => (l as int, c as int),
    }
}

/// The issue a check reports for a finding: the check's id, name, category
/// and guidance, the given severity, the file and the finding's place and
/// message.
pub open spec fn issue_of(c: CheckView, severity: Severity, file: Seq<char>, src: Seq<u8>, h: HitView) -> IssueView {
    IssueView {
        id: c.id,
        title: c.name,
        message: h.message,
        explanation: Some(c.explanation),
        remediation: Some(c.remediation),
        file,
        line: anchor_position(src, h.anchor).0,
        column: anchor_position(src, h.anchor).1,
        severity,
        category: c.category,
        source: "zerum"@,
        confidence: ConfidenceKind::Deterministic,
    }
}

/// The severity a check reports with: the configured one, or its own.
pub open spec fn effective_severity(c: CheckView, rc: ResolvedView) -> Severity {
    match rc.severity {
        Some(s) => s,
        None => c.severity,
    }
}

/// The issues [`issue_of`] gives for each finding, in order.
pub open spec fn issues_of(c: CheckView, severity: Severity, file: Seq<char>, src: Seq<u8>, hs: Seq<HitView>) -> Seq<
    IssueView,
> {
    hs.map_values(|h: HitView| issue_of(c, severity, file, src, h))
}

/// The issues a check reports on a file: none when the configuration
/// disables it; otherwise one per finding of its detector, in the
/// detector's order.
pub open spec fn check_issues(c: CheckView, cfg: ConfigView, path: Seq<char>, p: ParsedFile) -> Seq<IssueView> {
    let rc = resolve(cfg, c.id);
    if !rc.enabled {
        Seq::empty()
    } else {
        issues_of(c, effective_severity(c, rc), path, src_bytes(p), detector_hits(c.detector, rc, path, p))
    }
}

impl Issue {
    /// The issue `check` reports for a finding in `file`.
    pub fn from_check(check: &CatalogCheck, severity: Severity, file: &str, source: &str, h: &Hit) -> (r: Issue)
        requires
            source.spec_bytes().len() < usize::MAX,
        ensures
            r@ == issue_of(check@, severity, file@, source.spec_bytes(), h@),
    {
        let (line, column) = match h.anchor {
            Anchor::Offset(o) => line_col_at(source, o),
            Anchor::At(l, c) => (l, c),
        };
        Issue {
            id: string_of(check.metadata.id),
            title: string_of(check.metadata.name),
            message: h.message.clone(),
            explanation: Some(string_of(check.explanation)),
            remediation: Some(string_of(check.remediation)),
            file: string_of(file),
            line,
            column,
            severity,
            category: check.metadata.category,
            source: string_of("zerum"),
            confidence: ConfidenceKind::Deterministic,
        }
    }
}

/// What an AST-precise detector finds.
fn run_precise(c: CatalogDetector, ctx: &CheckContext) -> (r: Vec<Hit>)
    requires
        ctx.wf(),
    ensures
        hit_views(r@) == precise_hits(c, *ctx.parsed),
{
    let p = ctx.parsed;
    let model = ctx.source_model();
    match c {
        CatalogDetector::CommentedOutCode => scan_comments(CommentRule::CommentedOutCode, model.comments()),
        CatalogDetector::AiPlaceholderInComment => scan_comments(CommentRule::AiPlaceholder, model.comments()),
        CatalogDetector::GeneratedCommentPattern => scan_comments(CommentRule::GeneratedCommentPattern, model.comments()),
        CatalogDetector::GeneratedDeadBranch => scan_statements(StmtRule::DeadBranch, p),
        CatalogDetector::RedundantBooleanComparison => scan_expressions(ExprRule::RedundantBooleanComparison, &p.module),
        CatalogDetector::DataclassWithoutBehavior => scan_statements(StmtRule::DataclassWithoutBehavior, p),
        CatalogDetector::GlobalMutableAssignment => detect_global_mutable_assignment(&p.module),
        CatalogDetector::ExceptHandlerOnlyPass { typed_only } => scan_statements(
            StmtRule::Handler(HandlerRule::OnlyPass { typed_only }),
            p,
        ),
        CatalogDetector::MixedStringQuotes => detect_mixed_string_quotes(p),
        CatalogDetector::ShortVariableName => scan_statements(StmtRule::ShortVariableName, p),
        CatalogDetector::TestAndShouldFunctionMix => detect_test_and_should_mix(model.functions()),
        CatalogDetector::DefensiveNamingSuffix => scan_statements(StmtRule::DefensiveNamingSuffix, p),
        CatalogDetector::ServiceNamingExplosion => detect_service_naming_explosion(model.classes()),
        CatalogDetector::UnnecessaryElseAfterReturn => scan_statements(StmtRule::ElseAfterReturn, p),
        CatalogDetector::IdentityPassthrough => scan_statements(StmtRule::IdentityPassthrough, p),
        CatalogDetector::IdentityMap => scan_expressions(ExprRule::IdentityMap, &p.module),
        CatalogDetector::BlanketExceptException => scan_statements(StmtRule::Handler(HandlerRule::BlanketException), p),
        CatalogDetector::SilentFallbackReturnNone => scan_statements(StmtRule::Handler(HandlerRule::SilentFallback), p),
        CatalogDetector::GenericExceptionMessage => scan_statements(StmtRule::GenericExceptionMessage, p),
        CatalogDetector::CollapsibleIf => scan_statements(StmtRule::CollapsibleIf, p),
        CatalogDetector::DuplicateBranchBody => scan_statements(StmtRule::DuplicateBranchBody, p),
        CatalogDetector::ManualStringJoinInLoop => scan_statements(StmtRule::ManualStringJoin, p),
        CatalogDetector::SortThenReverse => detect_sort_then_reverse(&p.module),
        CatalogDetector::SortForTopK => scan_expressions(ExprRule::SortForTopK, &p.module),
        CatalogDetector::QueryInLoop => scan_statements(StmtRule::QueryInLoop, p),
        CatalogDetector::SimplifiableIfExpression => scan_expressions(ExprRule::SimplifiableIfExpression, &p.module),
        CatalogDetector::ExtractableCondition => scan_statements(StmtRule::ExtractableCondition, p),
        CatalogDetector::RepeatedTryExcept => scan_statements(StmtRule::RepeatedTryExcept, p),
        CatalogDetector::AmbiguousNoneReturn => scan_statements(StmtRule::AmbiguousNoneReturn, p),
        CatalogDetector::RejectNoneGuard => scan_statements(StmtRule::RejectNoneGuard, p),
        CatalogDetector::FilterNonePattern => {
            let mut out = scan_expressions(ExprRule::FilterNoneComprehension, &p.module);
            let more = scan_statements(StmtRule::LoopFilterNone, p);
            append_hits(&mut out, more);
            out
        },
        CatalogDetector::InconsistentFunctionNaming => detect_inconsistent_function_naming(model.functions()),
        CatalogDetector::RepeatedLiteral => detect_repeated_literal(&p.module),
        CatalogDetector::EmptyWrapperFunction => scan_statements(StmtRule::EmptyWrapperFunction, p),
        CatalogDetector::MixedReturnStyle => scan_statements(StmtRule::MixedReturnStyle, p),
    }
}

/// A configured limit, or the default.
fn limit_or(o: Option<usize>, default: usize) -> (r: usize)
    ensures
        r == limit(o, default),
{
    match o {
        Some(v) => v,
        None => default,
    }
}

/// What a detector finds, with the check's resolved settings.
fn run_detector(d: Detector, rc: &crate::config::ResolvedCheckConfig, ctx: &CheckContext) -> (r: Vec<Hit>)
    requires
        ctx.wf(),
    ensures
        hit_views(r@) == detector_hits(d, rc@, ctx.path@, *ctx.parsed),
{
    let p = ctx.parsed;
    let model = ctx.source_model();
    match d {
        Detector::LongFunction(def) => functions_over(
            FunctionMeasure::BodyLines,
            limit_or(rc.max_lines, def),
            model.functions(),
        ),
        Detector::TooManyArguments(def) => functions_over(
            FunctionMeasure::Arguments,
            limit_or(rc.max_arguments, def),
            model.functions(),
        ),
        Detector::DeepNesting(def) => functions_over(
            FunctionMeasure::NestingDepth,
            limit_or(rc.max_depth, def),
            model.functions(),
        ),
        Detector::TooManyBranches(def) => functions_over(
            FunctionMeasure::Branches,
            limit_or(rc.max_branches, def),
            model.functions(),
        ),
        Detector::GodClass(def) => classes_over(ClassMeasure::Methods, limit_or(rc.max_methods, def), model.classes()),
        Detector::TooManyPublicMethods(def) => classes_over(
            ClassMeasure::PublicMethods,
            limit_or(rc.max_methods, def),
            model.classes(),
        ),
        Detector::ComplexBooleanExpression(max) => scan_expressions(ExprRule::ComplexBooleanExpression(max), &p.module),
        Detector::MagicNumber => scan_expressions(ExprRule::MagicNumber, &p.module),
        Detector::TodoWithoutContext => scan_comments(CommentRule::TodoWithoutContext, model.comments()),
        Detector::AssertProduction => scan_statements(StmtRule::Assert, p),
        Detector::DangerousEvalExec => scan_expressions(ExprRule::DangerousEvalExec, &p.module),
        Detector::LengthComparison => scan_expressions(ExprRule::LengthComparison, &p.module),
        Detector::PatternAny(ps) => scan_line_patterns(&patterns_of(ps), model.lines()),
        Detector::PatternComment(ps) => scan_comment_patterns(&patterns_of(ps), model.comments()),
        Detector::MissingModuleDocstring => detect_missing_module_docstring(model.lines()),
        Detector::MissingFunctionDocstring => functions_missing_docstring(model.functions()),
        Detector::BroadExcept => scan_statements(StmtRule::Handler(HandlerRule::BroadExcept), p),
        Detector::BareExcept => scan_statements(StmtRule::Handler(HandlerRule::BareExcept), p),
        Detector::BroadOrBareExcept => scan_statements(StmtRule::Handler(HandlerRule::BroadOrBare), p),
        Detector::MutableDefaultArgument => scan_statements(StmtRule::MutableDefaultArgument, p),
        Detector::PrintDebugging => scan_expressions(ExprRule::PrintDebugging, &p.module),
        Detector::ForbiddenArchitectureImport => detect_forbidden_imports(ctx.path, &rc.rules, model.imports()),
        Detector::Precise(c) => run_precise(c, ctx),
    }
}

/// The issues a check reports on a file when it always reports with its own
/// severity: none when the configuration disables it; otherwise one per
/// finding of its detector, in the detector's order.
pub open spec fn own_severity_issues(c: CheckView, cfg: ConfigView, path: Seq<char>, p: ParsedFile) -> Seq<IssueView> {
    let rc = resolve(cfg, c.id);
    if !rc.enabled {
        Seq::empty()
    } else {
        issues_of(c, c.severity, path, src_bytes(p), detector_hits(c.detector, rc, path, p))
    }
}

impl CatalogCheck {
    /// The issues for the findings `hits` of this check in the file of `ctx`.
    fn report_hits(&self, severity: Severity, hits: &Vec<Hit>, ctx: &CheckContext) -> (r: Vec<Issue>)
        requires
            ctx.wf(),
        ensures
            issue_views(r@) == issues_of(self@, severity, ctx.path@, src_bytes(*ctx.parsed), hit_views(hits@)),
    {
        let ghost hs = hit_views(hits@);
        let source = ctx.parsed.source.as_str();
        let mut out: Vec<Issue> = Vec::new();
        let n = hits.len();
        let mut i: usize = 0;
        proof {
            assert(issue_views(out@) =~= Seq::<IssueView>::empty());
        }
        while i < n
            invariant
                n == hs.len(),
                hs == hit_views(hits@),
                i <= n,
                source.spec_bytes() == src_bytes(*ctx.parsed),
                source.spec_bytes().len() < usize::MAX,
                issue_views(out@) == issues_of(self@, severity, ctx.path@, src_bytes(*ctx.parsed), hs.take(i as int)),
            decreases n - i,
        {
            let issue = Issue::from_check(self, severity, ctx.path, source, &hits[i]);
            let ghost before = out@;
            out.push(issue);
            proof {
                assert(hits@[i as int]@ == hs[i as int]);
                assert(hs.take(i + 1) =~= hs.take(i as int).push(hs[i as int]));
                assert(issue_views(out@) =~= issue_views(before).push(issue@));
                assert(issues_of(self@, severity, ctx.path@, src_bytes(*ctx.parsed), hs.take(i + 1)) =~= issues_of(
                    self@,
                    severity,
                    ctx.path@,
                    src_bytes(*ctx.parsed),
                    hs.take(i as int),
                ).push(issue@));
            }
            i = i + 1;
        }
        proof {
            assert(hs.take(n as int) =~= hs);
        }
        out
    }

    /// Like [`Check::run`], but always with the check's own severity,
    /// whatever the configuration sets.
    pub fn run_with_own_severity(&self, ctx: &CheckContext) -> (r: Vec<Issue>)
        requires
            ctx.wf(),
        ensures
            issue_views(r@) == own_severity_issues(self@, ctx.config@, ctx.path@, *ctx.parsed),
    {
        let rc = ctx.config.check_config(self.metadata.id);
        if !rc.enabled {
            let none: Vec<Issue> = Vec::new();
            proof {
                assert(issue_views(none@) =~= Seq::<IssueView>::empty());
            }
            return none;
        }
        let hits = run_detector(self.detector, &rc, ctx);
        self.report_hits(self.metadata.severity, &hits, ctx)
    }
}

impl Check for CatalogCheck {
    open spec fn check_view(&self) -> CheckView {
        self@
    }

    open spec fn reported(&self, cfg: ConfigView, path: Seq<char>, p: ParsedFile) -> Seq<IssueView> {
        check_issues(self@, cfg, path, p)
    }

    fn metadata(&self) -> (r: CheckMetadata)
        ensures
            r == self.metadata,
    {
        self.metadata
    }

    fn id(&self) -> (r: &'static str) {
        self.metadata.id
    }

    fn name(&self) -> (r: &'static str) {
        self.metadata.name
    }

    fn category(&self) -> (r: Category) {
        self.metadata.category
    }

    fn severity(&self) -> (r: Severity) {
        self.metadata.severity
    }

    fn explanation(&self) -> (r: &'static str) {
        self.explanation
    }

    fn remediation(&self) -> (r: &'static str) {
        self.remediation
    }

    fn false_positives(&self) -> (r: &'static str) {
        self.false_positives
    }

    fn tradeoffs(&self) -> (r: &'static str) {
        self.tradeoffs
    }

    /// The issues this check reports on the file of `ctx`: none when the
    /// configuration disables the check; otherwise one per finding of its
    /// detector, with the configured severity when one is set.
    fn run(&self, ctx: &CheckContext) -> (r: Vec<Issue>) {
        let rc = ctx.config.check_config(self.metadata.id);
        if !rc.enabled {
            let none: Vec<Issue> = Vec::new();
            proof {
                assert(issue_views(none@) =~= Seq::<IssueView>::empty());
            }
            return none;
        }
        let severity = match rc.severity {
            Some(s) => s,
            None => self.metadata.severity,
        };
        let hits = run_detector(self.detector, &rc, ctx);
        self.report_hits(severity, &hits, ctx)
    }
}

} // verus!
