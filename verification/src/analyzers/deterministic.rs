//! The deterministic analyzer: every catalog check over a file, the
//! findings in report order.
use vstd::prelude::*;
use vstd::string::StringSliceAdditionalSpecFns;
use super::order::{in_report_order, sort_issues};
use crate::analysis::fold::{flat_map, lemma_flat_map_step, lemma_take_ends};
use crate::base::issue::{issue_views, Issue, IssueView};
use crate::checks::catalog::CheckView;
use crate::checks::check::Check;
use crate::checks::registry::{catalog_views, check_views, CheckRegistry};
use crate::checks::run::{check_issues, CheckContext};
use crate::config::{Config, ConfigView};
use crate::parser::ast::module_view;
use crate::parser::python::{
    parsed_statements, python_parse_rendering, ParseFailure, ParsedFile, PythonParser, RustPythonParser,
};

verus! {

/// [`check_issues`] as a function of the check.
pub open spec fn check_issues_fn(cfg: ConfigView, path: Seq<char>, p: ParsedFile) -> spec_fn(CheckView) -> Seq<
    IssueView,
> {
    |c: CheckView| check_issues(c, cfg, path, p)
}

/// The issues of every check, check by check in registry order.
pub open spec fn all_issues(checks: Seq<CheckView>, cfg: ConfigView, path: Seq<char>, p: ParsedFile) -> Seq<IssueView> {
    flat_map(checks, check_issues_fn(cfg, path, p))
}

/// Runs the catalog's checks on files.
pub struct DeterministicAnalyzer {
    pub registry: CheckRegistry,
    pub parser: RustPythonParser,
}

impl DeterministicAnalyzer {
    /// An analyzer over the whole catalog.
    pub fn new() -> (r: DeterministicAnalyzer)
        ensures
            check_views(r.registry.checks@) == catalog_views(),
    {
        DeterministicAnalyzer { registry: CheckRegistry::new(), parser: RustPythonParser }
    }

    /// The checks this analyzer runs.
    pub fn registry(&self) -> (r: &CheckRegistry)
        ensures
            r == &self.registry,
    {
        &self.registry
    }

    /// The issues of every enabled check on a parsed file, in report order
    /// (by line, column, check id and message).
    pub fn analyze_parsed(&self, path: &str, parsed: &ParsedFile, config: &Config) -> (r: Vec<Issue>)
        requires
            parsed.wf(),
        ensures
            issue_views(r@).to_multiset() == all_issues(
                check_views(self.registry.checks@),
                config@,
                path@,
                *parsed,
            ).to_multiset(),
            in_report_order(issue_views(r@)),
    {
        let ctx = CheckContext::new(path, parsed, config);
        let checks = self.registry.iter();
        let ghost cv = check_views(checks@);
        let ghost f = check_issues_fn(config@, path@, *parsed);
        let mut all: Vec<Issue> = Vec::new();
        let mut i: usize = 0;
        proof {
            lemma_take_ends(cv);
            assert(issue_views(all@) =~= Seq::<IssueView>::empty());
        }
        while i < checks.len()
            invariant
                i <= checks@.len(),
                cv == check_views(checks@),
                ctx.wf(),
                ctx.path == path,
                ctx.parsed == parsed,
                ctx.config == config,
                f == check_issues_fn(config@, path@, *parsed),
                issue_views(all@) == flat_map(cv.take(i as int), f),
            decreases checks@.len() - i,
        {
            proof {
                lemma_flat_map_step(cv, i as int, f);
            }
            let c = &checks[i];
            let mut more = c.run(&ctx);
            let ghost before = all@;
            let ghost added = more@;
            all.append(&mut more);
            proof {
                assert(all@ == before + added);
                assert(issue_views(all@) =~= issue_views(before) + issue_views(added));
            }
            i = i + 1;
        }
        proof {
            lemma_take_ends(cv);
        }
        sort_issues(all)
    }

    /// Parses `source` (the contents of `path`) and runs every enabled check
    /// on it; the issues come in report order. Fails exactly when the parser
    /// rejects the source (with its message) or its tree does not read back;
    /// otherwise the issues are those of every check on the file whose
    /// statements the source parses to.
    pub fn analyze_source(&self, path: &str, source: &str, config: &Config) -> (r: Result<Vec<Issue>, ParseFailure>)
        requires
            source.spec_bytes().len() < usize::MAX,
        ensures
            (r matches Err(ParseFailure::Syntax(m))) <==> python_parse_rendering(source@, path@) is Err,
            r matches Err(ParseFailure::Syntax(m)) ==> python_parse_rendering(source@, path@) == Err::<
                Seq<char>,
                Seq<char>,
            >(m@),
            r is Ok <==> parsed_statements(source@, path@) is Some,
            r matches Ok(v) ==> in_report_order(issue_views(v@)) && exists|p: ParsedFile|
                p.wf() && p.source@ == source@ && p.path@ == path@ && Some(module_view(p.module)) == parsed_statements(
                    source@,
                    path@,
                ) && #[trigger] issue_views(v@).to_multiset() == all_issues(
                    check_views(self.registry.checks@),
                    config@,
                    path@,
                    p,
                ).to_multiset(),
    {
        match self.parser.parse_file(source, path) {
            Ok(parsed) => {
                let v = self.analyze_parsed(path, &parsed, config);
                Ok(v)
            },
            Err(e) => Err(e),
        }
    }
}

} // verus!
