//! External checker orchestration: which configured checkers run, and the
//! issues their findings become.
use vstd::prelude::*;
use crate::analysis::fold::{flat_map, lemma_flat_map_step, lemma_take_ends};
use crate::base::issue::{issue_views, ConfidenceKind, Issue, IssueView};
use crate::config::{strings_view, Config};
use crate::integrations::external_checker::{external_issue, find_checker, ExternalFinding};
use crate::text::str_eq;

verus! {

/// The issues of a checker's findings, in order.
pub open spec fn finding_issues(fs: Seq<ExternalFinding>) -> Seq<IssueView> {
    fs.map_values(|f: ExternalFinding| external_issue(f))
}

/// The issues contributed by the configured checker `id` given what running
/// it produced: nothing for an unknown checker or one that did not run.
pub open spec fn outcome_issues(id: Seq<char>, outcome: Option<Vec<ExternalFinding>>) -> Seq<IssueView> {
    if id == "ruff"@ {
        match outcome {
            Some(fs) => finding_issues(fs@),
            None => Seq::empty(),
        }
    } else {
        Seq::empty()
    }
}

/// The issue a finding becomes.
fn map_finding(f: ExternalFinding) -> (r: Issue)
    ensures
        r@ == external_issue(f),
{
    f.into_issue()
}

/// Runs the configured external checkers.
pub struct ExternalAnalyzer {
    pub checker_ids: Vec<String>,
}

impl ExternalAnalyzer {
    /// The checkers listed in the configuration, in order.
    pub fn from_config(config: &Config) -> (r: ExternalAnalyzer)
        ensures
            strings_view(r.checker_ids@) == config@.external_checkers,
    {
        let mut ids: Vec<String> = Vec::new();
        let mut i: usize = 0;
        while i < config.external_checkers.len()
            invariant
                i <= config.external_checkers@.len(),
                strings_view(ids@) == strings_view(config.external_checkers@).take(i as int),
            decreases config.external_checkers@.len() - i,
        {
            let ghost before = ids@;
            ids.push(config.external_checkers[i].clone());
            proof {
                assert(strings_view(ids@) =~= strings_view(before).push(config.external_checkers@[i as int]@));
                assert(strings_view(config.external_checkers@).take(i + 1) =~= strings_view(config.external_checkers@).take(
                    i as int,
                ).push(config.external_checkers@[i as int]@));
            }
            i = i + 1;
        }
        proof {
            assert(strings_view(config.external_checkers@).take(config.external_checkers@.len() as int) =~= strings_view(
                config.external_checkers@,
            ));
        }
        ExternalAnalyzer { checker_ids: ids }
    }

    /// The given checkers, in order.
    pub fn with_checkers(ids: Vec<String>) -> (r: ExternalAnalyzer)
        ensures
            r.checker_ids@ == ids@,
    {
        ExternalAnalyzer { checker_ids: ids }
    }

    /// Whether the configured checker at `i` is one Zerum knows how to run.
    pub fn is_known(&self, i: usize) -> (r: bool)
        requires
            i < self.checker_ids@.len(),
        ensures
            r == (self.checker_ids@[i as int]@ == "ruff"@),
    {
        find_checker(self.checker_ids[i].as_str()).is_some()
    }

    /// The issues of the configured checkers, given for each of them (in
    /// order) the findings it produced, or `None` when it is unknown or
    /// could not run.
    pub fn run(&self, outcomes: Vec<Option<Vec<ExternalFinding>>>) -> (r: Vec<Issue>)
        requires
            outcomes@.len() == self.checker_ids@.len(),
        ensures
            issue_views(r@) == external_issues(
                Seq::new(outcomes@.len(), |i: int| (self.checker_ids@[i]@, outcomes@[i])),
            ),
    {
        let ghost pairs = Seq::new(outcomes@.len(), |i: int| (self.checker_ids@[i]@, outcomes@[i]));
        let ghost f = |p: (Seq<char>, Option<Vec<ExternalFinding>>)| outcome_issues(p.0, p.1);
        let ghost all = outcomes@;
        let mut rest = outcomes;
        let mut out: Vec<Issue> = Vec::new();
        let mut i: usize = 0;
        proof {
            lemma_take_ends(pairs);
            assert(issue_views(out@) =~= Seq::<IssueView>::empty());
            assert(rest@ =~= all.skip(0));
        }
        while i < self.checker_ids.len()
            invariant
                i <= self.checker_ids@.len(),
                all.len() == self.checker_ids@.len(),
                pairs == Seq::new(all.len(), |k: int| (self.checker_ids@[k]@, all[k])),
                f == (|p: (Seq<char>, Option<Vec<ExternalFinding>>)| outcome_issues(p.0, p.1)),
                rest@ == all.skip(i as int),
                issue_views(out@) == flat_map(pairs.take(i as int), f),
            decreases self.checker_ids@.len() - i,
        {
            proof {
                lemma_flat_map_step(pairs, i as int, f);
            }
            let outcome = rest.remove(0);
            proof {
                assert(outcome == all[i as int]);
                assert(rest@ =~= all.skip(i + 1));
            }
            if str_eq(self.checker_ids[i].as_str(), "ruff") {
                match outcome {
                    Some(findings) => {
                        let ghost fs = findings@;
                        let mut left = findings;
                        let ghost start = issue_views(out@);
                        let mut k: usize = 0;
                        let n = left.len();
                        proof {
                            assert(left@ =~= fs.skip(0));
                            assert(finding_issues(fs.take(0)) =~= Seq::<IssueView>::empty());
                            assert(start + Seq::<IssueView>::empty() =~= start);
                        }
                        while k < n
                            invariant
                                n == fs.len(),
                                k <= n,
                                left@ == fs.skip(k as int),
                                issue_views(out@) == start + finding_issues(fs.take(k as int)),
                            decreases n - k,
                        {
                            let x = left.remove(0);
                            proof {
                                assert(x == fs[k as int]);
                                assert(left@ =~= fs.skip(k + 1));
                            }
                            let issue = map_finding(x);
                            let ghost before = out@;
                            out.push(issue);
                            proof {
                                assert(issue_views(out@) =~= issue_views(before).push(issue@));
                                assert(finding_issues(fs.take(k + 1)) =~= finding_issues(fs.take(k as int)).push(
                                    external_issue(fs[k as int]),
                                ));
                            }
                            k = k + 1;
                        }
                        proof {
                            assert(fs.take(n as int) =~= fs);
                        }
                    },
                    None => {},
                }
            }
            proof {
                assert(issue_views(out@) =~= flat_map(pairs.take(i + 1), f));
            }
            i = i + 1;
        }
        proof {
            lemma_take_ends(pairs);
        }
        out
    }
}

/// The issues of the external checkers for a list of (checker id, outcome)
/// pairs.
pub open spec fn external_issues(pairs: Seq<(Seq<char>, Option<Vec<ExternalFinding>>)>) -> Seq<IssueView> {
    flat_map(pairs, |p: (Seq<char>, Option<Vec<ExternalFinding>>)| outcome_issues(p.0, p.1))
}

/// Every issue from an external checker is marked as reported by the tool,
/// names the tool as its source and has an id of the form `EXT-…`, so it is
/// never mistaken for one of Zerum's own checks.
pub proof fn law_external_issues_are_tool_reported(pairs: Seq<(Seq<char>, Option<Vec<ExternalFinding>>)>, k: int)
    requires
        0 <= k < external_issues(pairs).len(),
    ensures
        external_issues(pairs)[k].confidence == ConfidenceKind::ToolReported,
        external_issues(pairs)[k].id.take(4) == "EXT-"@,
        exists|i: int, j: int|
            0 <= i < pairs.len() && pairs[i].1 is Some && 0 <= j < pairs[i].1->0@.len()
                && external_issues(pairs)[k].source == (#[trigger] pairs[i].1->0@[j]).tool@,
    decreases pairs.len(),
{
    let f = |p: (Seq<char>, Option<Vec<ExternalFinding>>)| outcome_issues(p.0, p.1);
    let prev = pairs.drop_last();
    let last = pairs.last();
    assert(external_issues(pairs) == external_issues(prev) + f(last));
    if k < external_issues(prev).len() {
        law_external_issues_are_tool_reported(prev, k);
        let (i, j) = choose|i: int, j: int|
            0 <= i < prev.len() && prev[i].1 is Some && 0 <= j < prev[i].1->0@.len()
                && external_issues(prev)[k].source == (#[trigger] prev[i].1->0@[j]).tool@;
        assert(pairs[i] == prev[i]);
    } else {
        let j = k - external_issues(prev).len();
        let i = pairs.len() - 1;
        assert(pairs[i] == last);
        reveal_strlit("EXT-");
        match last.1 {
            Some(fs) => {
                assert(finding_issues(fs@)[j] == external_issue(fs@[j]));
                assert(external_issue(fs@[j]).id.take(4) =~= "EXT-"@);
                assert(external_issues(pairs)[k].source == (pairs[i].1->0@[j]).tool@);
            },
            None => {},
        }
    }
}

} // verus!
