//! The human-readable report.
use vstd::prelude::*;
use crate::analysis::fold::lemma_take_ends;
use super::render::Reporter;
use crate::base::issue::{issue_views, Issue, IssueView};
use crate::base::severity::severity_name;
use crate::text::{decimal, push_decimal, push_str, string_of};

verus! {

/// One issue of the human report: `[severity] ID file:line:column — message`,
/// then the explanation and the remediation on lines of their own when the
/// issue has them.
pub open spec fn human_entry(i: IssueView) -> Seq<char> {
    "["@ + severity_name(i.severity) + "] "@ + i.id + " "@ + i.file + ":"@ + decimal(i.line as nat) + ":"@ + decimal(
        i.column as nat,
    ) + " — "@ + i.message + "\n"@ + match i.explanation {
        Some(e) => "  explanation: "@ + e + "\n"@,
        None => Seq::empty(),
    } + match i.remediation {
        Some(r) => "  remediation: "@ + r + "\n"@,
        None => Seq::empty(),
    }
}

/// The entries of a sequence of issues, concatenated.
pub open spec fn human_entries(is: Seq<IssueView>) -> Seq<char>
    decreases is.len(),
{
    if is.len() == 0 {
        Seq::empty()
    } else {
        human_entries(is.drop_last()) + human_entry(is.last())
    }
}

/// The human report: `No issues found.` for no issues, else one entry per issue.
pub open spec fn human_report(is: Seq<IssueView>) -> Seq<char> {
    if is.len() == 0 {
        "No issues found.\n"@
    } else {
        human_entries(is)
    }
}

/// The header line of an entry.
pub open spec fn entry_head(i: IssueView) -> Seq<char> {
    "["@ + severity_name(i.severity) + "] "@ + i.id + " "@ + i.file + ":"@ + decimal(i.line as nat) + ":"@ + decimal(
        i.column as nat,
    ) + " — "@ + i.message + "\n"@
}

fn push_head(out: &mut String, i: &Issue)
    ensures
        final(out)@ == old(out)@ + entry_head(i@),
{
    let ghost o = out@;
    push_str(out, "[");
    push_str(out, i.severity.as_str());
    push_str(out, "] ");
    push_str(out, i.id.as_str());
    push_str(out, " ");
    push_str(out, i.file.as_str());
    push_str(out, ":");
    push_decimal(out, i.line);
    push_str(out, ":");
    push_decimal(out, i.column);
    push_str(out, " — ");
    push_str(out, i.message.as_str());
    push_str(out, "\n");
    proof {
        assert(out@ =~= o + entry_head(i@));
    }
}

fn push_entry(out: &mut String, i: &Issue)
    ensures
        final(out)@ == old(out)@ + human_entry(i@),
{
    let ghost o = out@;
    push_head(out, i);
    let ghost head = out@;
    match &i.explanation {
        Some(e) => {
            push_str(out, "  explanation: ");
            push_str(out, e.as_str());
            push_str(out, "\n");
        },
        None => {},
    }
    let ghost mid = out@;
    proof {
        assert(mid =~= head + match i@.explanation {
            Some(e) => "  explanation: "@ + e + "\n"@,
            None => Seq::<char>::empty(),
        });
    }
    match &i.remediation {
        Some(r) => {
            push_str(out, "  remediation: ");
            push_str(out, r.as_str());
            push_str(out, "\n");
        },
        None => {},
    }
    proof {
        assert(out@ =~= mid + match i@.remediation {
            Some(r) => "  remediation: "@ + r + "\n"@,
            None => Seq::<char>::empty(),
        });
        assert(human_entry(i@) =~= entry_head(i@) + match i@.explanation {
            Some(e) => "  explanation: "@ + e + "\n"@,
            None => Seq::<char>::empty(),
        } + match i@.remediation {
            Some(r) => "  remediation: "@ + r + "\n"@,
            None => Seq::<char>::empty(),
        });
        assert(out@ =~= o + human_entry(i@));
    }
}

/// The human-readable reporter.
pub struct HumanReporter;

impl Reporter for HumanReporter {
    /// Renders the issues for a terminal.
    fn report(&self, issues: &Vec<Issue>) -> (r: String)
        ensures
            r@ == human_report(issue_views(issues@)),
    {
        if issues.len() == 0 {
            return string_of("No issues found.\n");
        }
        let ghost is = issue_views(issues@);
        let mut out = String::new();
        let mut k: usize = 0;
        proof {
            lemma_take_ends(is);
            assert(out@ =~= human_entries(is.take(0)));
        }
        while k < issues.len()
            invariant
                k <= issues@.len(),
                is == issue_views(issues@),
                out@ == human_entries(is.take(k as int)),
            decreases issues@.len() - k,
        {
            let i = &issues[k];
            push_entry(&mut out, i);
            proof {
                assert(is.take(k + 1).drop_last() =~= is.take(k as int));
                assert(is.take(k + 1).last() == i@);
            }
            k = k + 1;
        }
        proof {
            lemma_take_ends(is);
        }
        out
    }
}

} // verus!
