//! The SARIF log model: one rule per distinct check id, one result per issue.
use vstd::prelude::*;
use crate::analysis::fold::lemma_take_ends;
use crate::base::issue::{issue_views, Issue, IssueView};
use crate::base::severity::Severity;
use crate::text::{str_eq, string_of};

verus! {

/// The SARIF level of a severity: info and low are notes, medium is a
/// warning, high and critical are errors.
pub open spec fn sarif_level(s: Severity) -> Seq<char> {
    match s {
        Severity::Info | Severity::Low => "note"@,
        Severity::Medium => "warning"@,
        Severity::High | Severity::Critical => "error"@,
    }
}

/// The SARIF level of a severity.
pub fn severity_to_level(s: Severity) -> (r: String)
    ensures
        r@ == sarif_level(s),
{
    match s {
        Severity::Info | Severity::Low => string_of("note"),
        Severity::Medium => string_of("warning"),
        Severity::High | Severity::Critical => string_of("error"),
    }
}

/// A rule of the SARIF log.
pub struct SarifRule {
    pub id: String,
    pub name: String,
    pub short_description: String,
}

/// A result of the SARIF log.
pub struct SarifResult {
    pub rule_id: String,
    pub level: String,
    pub message: String,
    pub uri: String,
    pub start_line: usize,
    pub start_column: usize,
}

/// A SARIF log of one run of Zerum.
pub struct SarifLog {
    pub version: String,
    pub schema: String,
    pub tool_name: String,
    pub rules: Vec<SarifRule>,
    pub results: Vec<SarifResult>,
}

/// The rule for an issue: its id, and its title as name and description.
pub open spec fn rule_of(i: IssueView) -> (Seq<char>, Seq<char>, Seq<char>) {
    (i.id, i.title, i.title)
}

/// The rules for the first `n` issues: one per id, at its first occurrence.
pub open spec fn rules_upto(is: Seq<IssueView>, n: int) -> Seq<(Seq<char>, Seq<char>, Seq<char>)>
    decreases n,
{
    if n <= 0 {
        Seq::empty()
    } else if exists|j: int| 0 <= j < n - 1 && (#[trigger] is[j]).id == is[n - 1].id {
        rules_upto(is, n - 1)
    } else {
        rules_upto(is, n - 1).push(rule_of(is[n - 1]))
    }
}

/// The result for an issue.
pub open spec fn result_of(i: IssueView) -> (Seq<char>, Seq<char>, Seq<char>, Seq<char>, int, int) {
    (i.id, sarif_level(i.severity), i.message, i.file, i.line, i.column)
}

/// The models of the rules of a log.
pub open spec fn rule_views(v: Seq<SarifRule>) -> Seq<(Seq<char>, Seq<char>, Seq<char>)> {
    v.map_values(|r: SarifRule| (r.id@, r.name@, r.short_description@))
}

/// The models of the results of a log.
pub open spec fn result_views(v: Seq<SarifResult>) -> Seq<(Seq<char>, Seq<char>, Seq<char>, Seq<char>, int, int)> {
    v.map_values(
        |r: SarifResult| (r.rule_id@, r.level@, r.message@, r.uri@, r.start_line as int, r.start_column as int),
    )
}

/// Whether an earlier issue has the same id as issue `k`.
fn id_seen_before(issues: &Vec<Issue>, k: usize) -> (r: bool)
    requires
        k < issues@.len(),
    ensures
        r == exists|j: int| 0 <= j < k && (#[trigger] issue_views(issues@)[j]).id == issue_views(issues@)[k as int].id,
{
    let mut j: usize = 0;
    while j < k
        invariant
            k < issues@.len(),
            j <= k,
            forall|q: int| 0 <= q < j ==> (#[trigger] issue_views(issues@)[q]).id != issue_views(issues@)[k as int].id,
        decreases k - j,
    {
        if str_eq(issues[j].id.as_str(), issues[k].id.as_str()) {
            proof {
                assert(issue_views(issues@)[j as int].id == issue_views(issues@)[k as int].id);
            }
            return true;
        }
        j = j + 1;
    }
    false
}

/// The SARIF reporter.
pub struct SarifReporter;

impl SarifReporter {
    /// The SARIF log of the issues: version 2.1.0, the SARIF 2.1.0 schema,
    /// tool `zerum`, one rule per distinct id (first occurrence order) and
    /// one result per issue.
    pub fn build(&self, issues: &Vec<Issue>) -> (r: SarifLog)
        ensures
            r.version@ == "2.1.0"@,
            r.schema@ == "https://json.schemastore.org/sarif-2.1.0.json"@,
            r.tool_name@ == "zerum"@,
            rule_views(r.rules@) == rules_upto(issue_views(issues@), issues@.len() as int),
            result_views(r.results@) == issue_views(issues@).map_values(|i: IssueView| result_of(i)),
    {
        let ghost is = issue_views(issues@);
        let mut rules: Vec<SarifRule> = Vec::new();
        let mut results: Vec<SarifResult> = Vec::new();
        let mut k: usize = 0;
        proof {
            assert(rule_views(rules@) =~= rules_upto(is, 0));
            assert(result_views(results@) =~= is.take(0).map_values(|i: IssueView| result_of(i)));
        }
        while k < issues.len()
            invariant
                k <= issues@.len(),
                is == issue_views(issues@),
                rule_views(rules@) == rules_upto(is, k as int),
                result_views(results@) == is.take(k as int).map_values(|i: IssueView| result_of(i)),
            decreases issues@.len() - k,
        {
            let i = &issues[k];
            if !id_seen_before(issues, k) {
                let r = SarifRule { id: i.id.clone(), name: i.title.clone(), short_description: i.title.clone() };
                let ghost before = rules@;
                rules.push(r);
                proof {
                    assert(rule_views(rules@) =~= rule_views(before).push((r.id@, r.name@, r.short_description@)));
                }
            }
            let res = SarifResult {
                rule_id: i.id.clone(),
                level: severity_to_level(i.severity),
                message: i.message.clone(),
                uri: i.file.clone(),
                start_line: i.line,
                start_column: i.column,
            };
            let ghost before_res = results@;
            results.push(res);
            proof {
                assert(is[k as int] == i@);
                assert(rule_views(rules@) =~= rules_upto(is, k + 1));
                assert(result_views(results@) =~= result_views(before_res).push(result_of(i@)));
                assert(is.take(k + 1).map_values(|i: IssueView| result_of(i)) =~= is.take(k as int).map_values(
                    |i: IssueView| result_of(i),
                ).push(result_of(i@)));
            }
            k = k + 1;
        }
        proof {
            assert(is.take(is.len() as int) =~= is);
        }
        SarifLog {
            version: string_of("2.1.0"),
            schema: string_of("https://json.schemastore.org/sarif-2.1.0.json"),
            tool_name: string_of("zerum"),
            rules,
            results,
        }
    }
}

} // verus!
