//! Properties of running checks that hold for every check, configuration
//! and file.
use vstd::prelude::*;
use super::catalog::{CheckView, Detector};
use super::hit::{flagged_at, Anchor, HitView};
use super::model_rules::{
    class_threshold_hits, law_higher_class_limit_flags_no_more, law_higher_class_limit_places_are_a_sub_multiset,
    law_higher_limit_flags_no_more, law_higher_limit_places_are_a_sub_multiset, places, threshold_hits, ClassMeasure,
    FunctionMeasure,
};
use super::run::{anchor_position, check_issues, detector_hits, limit, own_severity_issues};
use crate::analysis::fold::flat_map;
use crate::analysis::model::{module_classes, module_functions, src_bytes};
use crate::analyzers::deterministic::{all_issues, check_issues_fn};
use crate::base::issue::{ConfidenceKind, IssueView};
use crate::config::laws::law_strict_extends_default;
use crate::config::{resolve, ConfigView, ResolvedView};
use crate::parser::python::ParsedFile;

verus! {

/// A check that the configuration switches off reports nothing.
pub proof fn law_disabled_check_reports_nothing(c: CheckView, cfg: ConfigView, path: Seq<char>, p: ParsedFile)
    requires
        !resolve(cfg, c.id).enabled,
    ensures
        check_issues(c, cfg, path, p) == Seq::<IssueView>::empty(),
        own_severity_issues(c, cfg, path, p) == Seq::<IssueView>::empty(),
{
}

/// An enabled check reports exactly one issue per finding of its detector.
pub proof fn law_one_issue_per_finding(c: CheckView, cfg: ConfigView, path: Seq<char>, p: ParsedFile)
    requires
        resolve(cfg, c.id).enabled,
    ensures
        check_issues(c, cfg, path, p).len() == detector_hits(c.detector, resolve(cfg, c.id), path, p).len(),
{
}

/// Every issue a check reports carries the check's id, name and guidance, the
/// file it was run on, and is marked as Zerum's own deterministic finding;
/// its severity is the configured one when the configuration sets one, else
/// the check's own.
pub proof fn law_issue_carries_check_identity(c: CheckView, cfg: ConfigView, path: Seq<char>, p: ParsedFile, k: int)
    requires
        0 <= k < check_issues(c, cfg, path, p).len(),
    ensures
        check_issues(c, cfg, path, p)[k].id == c.id,
        check_issues(c, cfg, path, p)[k].title == c.name,
        check_issues(c, cfg, path, p)[k].explanation == Some(c.explanation),
        check_issues(c, cfg, path, p)[k].remediation == Some(c.remediation),
        check_issues(c, cfg, path, p)[k].file == path,
        check_issues(c, cfg, path, p)[k].category == c.category,
        check_issues(c, cfg, path, p)[k].source == "zerum"@,
        check_issues(c, cfg, path, p)[k].confidence == ConfidenceKind::Deterministic,
        check_issues(c, cfg, path, p)[k].severity == match resolve(cfg, c.id).severity {
            Some(s) => s,
            None => c.severity,
        },
{
}

/// A stand-alone check reports with its own severity, whatever the
/// configuration sets.
pub proof fn law_own_severity_ignores_configuration(
    c: CheckView,
    cfg: ConfigView,
    path: Seq<char>,
    p: ParsedFile,
    k: int,
)
    requires
        0 <= k < own_severity_issues(c, cfg, path, p).len(),
    ensures
        own_severity_issues(c, cfg, path, p)[k].severity == c.severity,
        own_severity_issues(c, cfg, path, p)[k].id == c.id,
{
}

/// Changing only the severity a check is configured with changes nothing in
/// its issues but their severity: the same findings, at the same places, with
/// the same messages.
pub proof fn law_severity_override_changes_only_severity(
    c: CheckView,
    cfg: ConfigView,
    path: Seq<char>,
    p: ParsedFile,
    k: int,
)
    requires
        resolve(cfg, c.id).enabled,
        0 <= k < check_issues(c, cfg, path, p).len(),
    ensures
        own_severity_issues(c, cfg, path, p).len() == check_issues(c, cfg, path, p).len(),
        own_severity_issues(c, cfg, path, p)[k] == (IssueView {
            severity: c.severity,
            ..check_issues(c, cfg, path, p)[k]
        }),
{
}

/// Every issue of an analysis comes from one of the checks run, and that
/// check is enabled by the configuration: a switched-off check never
/// contributes.
pub proof fn law_analysis_reports_only_enabled_checks(
    checks: Seq<CheckView>,
    cfg: ConfigView,
    path: Seq<char>,
    p: ParsedFile,
    k: int,
)
    requires
        0 <= k < all_issues(checks, cfg, path, p).len(),
    ensures
        exists|i: int|
            0 <= i < checks.len() && (#[trigger] checks[i]).id == all_issues(checks, cfg, path, p)[k].id && resolve(
                cfg,
                checks[i].id,
            ).enabled,
    decreases checks.len(),
{
    let f = check_issues_fn(cfg, path, p);
    let prev = checks.drop_last();
    let last = checks.last();
    assert(all_issues(checks, cfg, path, p) == flat_map(prev, f) + f(last));
    assert(all_issues(prev, cfg, path, p) == flat_map(prev, f));
    if k < flat_map(prev, f).len() {
        law_analysis_reports_only_enabled_checks(prev, cfg, path, p, k);
        let i = choose|i: int|
            0 <= i < prev.len() && (#[trigger] prev[i]).id == all_issues(prev, cfg, path, p)[k].id && resolve(
                cfg,
                prev[i].id,
            ).enabled;
        assert(checks[i] == prev[i]);
    } else {
        let j = k - flat_map(prev, f).len();
        assert(f(last) == check_issues(last, cfg, path, p));
        law_issue_carries_check_identity(last, cfg, path, p, j);
        assert(resolve(cfg, last.id).enabled) by {
            if !resolve(cfg, last.id).enabled {
                law_disabled_check_reports_nothing(last, cfg, path, p);
            }
        }
        assert(checks[checks.len() - 1] == last);
    }
}

/// The `strict` profile never drops a finding that the `default` profile
/// reports: under `default` a check reports nothing or exactly what it
/// reports under `strict`.
pub proof fn law_strict_reports_what_default_reports(c: CheckView, cfg: ConfigView, path: Seq<char>, p: ParsedFile)
    requires
        cfg.profile_name == "default"@,
    ensures
        check_issues(c, cfg, path, p).len() == 0 || check_issues(c, cfg, path, p) == check_issues(
            c,
            ConfigView { profile_name: "strict"@, ..cfg },
            path,
            p,
        ),
{
    let strict = ConfigView { profile_name: "strict"@, ..cfg };
    law_strict_extends_default(cfg, c.id);
    if resolve(cfg, c.id).enabled {
        assert(resolve(strict, c.id) == resolve(cfg, c.id));
    }
}

/// The limit a threshold detector applies under the resolved settings `rc`:
/// the configured value of its setting, else the detector's default. `None`
/// for a detector that applies no limit.
pub open spec fn threshold_limit(d: Detector, rc: ResolvedView) -> Option<int> {
    match d {
        Detector::LongFunction(def) => Some(limit(rc.max_lines, def) as int),
        Detector::TooManyArguments(def) => Some(limit(rc.max_arguments, def) as int),
        Detector::DeepNesting(def) => Some(limit(rc.max_depth, def) as int),
        Detector::TooManyBranches(def) => Some(limit(rc.max_branches, def) as int),
        Detector::GodClass(def) => Some(limit(rc.max_methods, def) as int),
        Detector::TooManyPublicMethods(def) => Some(limit(rc.max_methods, def) as int),
        _ => None,
    }
}

/// The findings of a threshold detector under the limit `max`.
pub open spec fn hits_under(d: Detector, max: int, src: Seq<u8>, p: ParsedFile) -> Seq<HitView> {
    let fs = module_functions(src, p.module);
    let cs = module_classes(src, p.module);
    match d {
        Detector::LongFunction(_) => threshold_hits(FunctionMeasure::BodyLines, max, fs),
        Detector::TooManyArguments(_) => threshold_hits(FunctionMeasure::Arguments, max, fs),
        Detector::DeepNesting(_) => threshold_hits(FunctionMeasure::NestingDepth, max, fs),
        Detector::TooManyBranches(_) => threshold_hits(FunctionMeasure::Branches, max, fs),
        Detector::GodClass(_) => class_threshold_hits(ClassMeasure::Methods, max, cs),
        Detector::TooManyPublicMethods(_) => class_threshold_hits(ClassMeasure::PublicMethods, max, cs),
        _ => Seq::empty(),
    }
}

proof fn lemma_hits_under_monotone(d: Detector, a: int, b: int, src: Seq<u8>, p: ParsedFile)
    requires
        a <= b,
    ensures
        hits_under(d, b, src, p).len() <= hits_under(d, a, src, p).len(),
        forall|i: int|
            0 <= i < hits_under(d, b, src, p).len() ==> flagged_at(
                hits_under(d, a, src, p),
                #[trigger] hits_under(d, b, src, p)[i].anchor,
            ),
{
    let fs = module_functions(src, p.module);
    let cs = module_classes(src, p.module);
    match d {
        Detector::LongFunction(_) => law_higher_limit_flags_no_more(FunctionMeasure::BodyLines, a, b, fs),
        Detector::TooManyArguments(_) => law_higher_limit_flags_no_more(FunctionMeasure::Arguments, a, b, fs),
        Detector::DeepNesting(_) => law_higher_limit_flags_no_more(FunctionMeasure::NestingDepth, a, b, fs),
        Detector::TooManyBranches(_) => law_higher_limit_flags_no_more(FunctionMeasure::Branches, a, b, fs),
        Detector::GodClass(_) => law_higher_class_limit_flags_no_more(ClassMeasure::Methods, a, b, cs),
        Detector::TooManyPublicMethods(_) => law_higher_class_limit_flags_no_more(
            ClassMeasure::PublicMethods,
            a,
            b,
            cs,
        ),
        _ => {},
    }
}

proof fn lemma_hits_under_sub_multiset<T>(d: Detector, a: int, b: int, src: Seq<u8>, p: ParsedFile, g: spec_fn(Anchor) -> T)
    requires
        a <= b,
    ensures
        places(hits_under(d, b, src, p), g).to_multiset().subset_of(places(hits_under(d, a, src, p), g).to_multiset()),
{
    let fs = module_functions(src, p.module);
    let cs = module_classes(src, p.module);
    match d {
        Detector::LongFunction(_) => law_higher_limit_places_are_a_sub_multiset(FunctionMeasure::BodyLines, a, b, fs, g),
        Detector::TooManyArguments(_) => law_higher_limit_places_are_a_sub_multiset(
            FunctionMeasure::Arguments,
            a,
            b,
            fs,
            g,
        ),
        Detector::DeepNesting(_) => law_higher_limit_places_are_a_sub_multiset(
            FunctionMeasure::NestingDepth,
            a,
            b,
            fs,
            g,
        ),
        Detector::TooManyBranches(_) => law_higher_limit_places_are_a_sub_multiset(FunctionMeasure::Branches, a, b, fs, g),
        Detector::GodClass(_) => law_higher_class_limit_places_are_a_sub_multiset(ClassMeasure::Methods, a, b, cs, g),
        Detector::TooManyPublicMethods(_) => law_higher_class_limit_places_are_a_sub_multiset(
            ClassMeasure::PublicMethods,
            a,
            b,
            cs,
            g,
        ),
        _ => {
            assert(places(hits_under(d, b, src, p), g) =~= places(hits_under(d, a, src, p), g));
        },
    }
}

/// The places (line, column) of a list of issues, in order.
pub open spec fn issue_places(issues: Seq<IssueView>) -> Seq<(int, int)> {
    issues.map_values(|i: IssueView| (i.line, i.column))
}

/// Some issue of `issues` is reported at `line`, `column`.
pub open spec fn reported_at(issues: Seq<IssueView>, line: int, column: int) -> bool {
    exists|j: int| 0 <= j < issues.len() && issues[j].line == line && issues[j].column == column
}

/// For a check with a limit (long functions, arguments, nesting, branches,
/// methods), a configuration with a higher limit reports no more issues than
/// one with a lower limit: each place (line and column) reported under the
/// higher limit is reported under the lower one too, and counted with
/// multiplicity the places under the higher limit are a sub-multiset of
/// those under the lower one.
pub proof fn law_higher_limit_reports_no_more(c: CheckView, low: ConfigView, high: ConfigView, path: Seq<char>, p: ParsedFile)
    requires
        threshold_limit(c.detector, resolve(low, c.id)) matches Some(a) && threshold_limit(
            c.detector,
            resolve(high, c.id),
        ) matches Some(b) && a <= b,
        resolve(high, c.id).enabled ==> resolve(low, c.id).enabled,
    ensures
        check_issues(c, high, path, p).len() <= check_issues(c, low, path, p).len(),
        forall|i: int|
            0 <= i < check_issues(c, high, path, p).len() ==> reported_at(
                check_issues(c, low, path, p),
                #[trigger] check_issues(c, high, path, p)[i].line,
                check_issues(c, high, path, p)[i].column,
            ),
        issue_places(check_issues(c, high, path, p)).to_multiset().subset_of(
            issue_places(check_issues(c, low, path, p)).to_multiset(),
        ),
{
    broadcast use vstd::seq_lib::group_to_multiset_ensures, vstd::multiset::group_multiset_axioms;

    let rl = resolve(low, c.id);
    let rh = resolve(high, c.id);
    let il = check_issues(c, low, path, p);
    let ih = check_issues(c, high, path, p);
    if rh.enabled {
        let a = threshold_limit(c.detector, rl)->0;
        let b = threshold_limit(c.detector, rh)->0;
        let src = src_bytes(p);
        lemma_hits_under_monotone(c.detector, a, b, src, p);
        let tl = hits_under(c.detector, a, src, p);
        let th = hits_under(c.detector, b, src, p);
        assert(detector_hits(c.detector, rl, path, p) == tl);
        assert(detector_hits(c.detector, rh, path, p) == th);
        assert(il.len() == tl.len());
        assert(ih.len() == th.len());
        assert forall|i: int| 0 <= i < ih.len() implies reported_at(il, #[trigger] ih[i].line, ih[i].column) by {
            assert(flagged_at(tl, th[i].anchor));
            let j = choose|j: int| 0 <= j < tl.len() && #[trigger] tl[j].anchor == th[i].anchor;
            assert(il[j].line == ih[i].line && il[j].column == ih[i].column);
        }
        let g = |x: Anchor| anchor_position(src, x);
        lemma_hits_under_sub_multiset(c.detector, a, b, src, p, g);
        assert(issue_places(ih) =~= places(th, g));
        assert(issue_places(il) =~= places(tl, g));
    } else {
        assert(issue_places(ih) =~= Seq::<(int, int)>::empty());
        assert forall|v: (int, int)|
            issue_places(ih).to_multiset().count(v) <= issue_places(il).to_multiset().count(v) by {}
    }
}

} // verus!
