//! The Markdown table report.
use vstd::prelude::*;
use super::render::Reporter;
use crate::analysis::fold::lemma_take_ends;
use crate::base::issue::{issue_views, Issue, IssueView};
use crate::base::severity::severity_name;
use crate::text::{chars_of, decimal, push_char, push_decimal, push_str, string_of};

verus! {

/// `m` with every `|` written as `\|`, so it stays inside its table cell.
pub open spec fn escape_pipes(m: Seq<char>) -> Seq<char>
    decreases m.len(),
{
    if m.len() == 0 {
        Seq::empty()
    } else {
        escape_pipes(m.drop_last()) + if m.last() == '|' {
            seq!['\\', '|']
        } else {
            seq![m.last()]
        }
    }
}

/// The table header and its separator line.
pub open spec fn markdown_header() -> Seq<char> {
    "| ID | Severity | File | Line | Message |\n"@ + "|----|----------|------|------|----------|\n"@
}

/// One table row: id, severity, file, line and escaped message.
pub open spec fn markdown_row(i: IssueView) -> Seq<char> {
    "| "@ + i.id + " | "@ + severity_name(i.severity) + " | "@ + i.file + " | "@ + decimal(i.line as nat) + " | "@
        + escape_pipes(i.message) + " |\n"@
}

/// The rows of a sequence of issues, concatenated.
pub open spec fn markdown_rows(is: Seq<IssueView>) -> Seq<char>
    decreases is.len(),
{
    if is.len() == 0 {
        Seq::empty()
    } else {
        markdown_rows(is.drop_last()) + markdown_row(is.last())
    }
}

fn push_escaped(out: &mut String, m: &str)
    ensures
        final(out)@ == old(out)@ + escape_pipes(m@),
{
    let cs = chars_of(m);
    let ghost o = out@;
    let mut k: usize = 0;
    proof {
        lemma_take_ends(cs@);
        assert(o + Seq::<char>::empty() =~= o);
    }
    while k < cs.len()
        invariant
            k <= cs@.len(),
            cs@ == m@,
            out@ == o + escape_pipes(cs@.take(k as int)),
        decreases cs@.len() - k,
    {
        let ghost before = out@;
        if cs[k] == '|' {
            push_char(out, '\\');
            push_char(out, '|');
        } else {
            push_char(out, cs[k]);
        }
        proof {
            assert(cs@.take(k + 1).drop_last() =~= cs@.take(k as int));
            assert(cs@.take(k + 1).last() == cs@[k as int]);
            assert(out@ =~= o + escape_pipes(cs@.take(k + 1)));
        }
        k = k + 1;
    }
    proof {
        lemma_take_ends(cs@);
    }
}

fn push_row(out: &mut String, i: &Issue)
    ensures
        final(out)@ == old(out)@ + markdown_row(i@),
{
    let ghost o = out@;
    push_str(out, "| ");
    push_str(out, i.id.as_str());
    push_str(out, " | ");
    push_str(out, i.severity.as_str());
    push_str(out, " | ");
    push_str(out, i.file.as_str());
    push_str(out, " | ");
    push_decimal(out, i.line);
    push_str(out, " | ");
    push_escaped(out, i.message.as_str());
    push_str(out, " |\n");
    proof {
        assert(out@ =~= o + markdown_row(i@));
    }
}

/// The Markdown reporter.
pub struct MarkdownReporter;

impl Reporter for MarkdownReporter {
    /// Renders the issues as a Markdown table.
    fn report(&self, issues: &Vec<Issue>) -> (r: String)
        ensures
            r@ == markdown_header() + markdown_rows(issue_views(issues@)),
    {
        let ghost is = issue_views(issues@);
        let mut out = string_of("| ID | Severity | File | Line | Message |\n");
        push_str(&mut out, "|----|----------|------|------|----------|\n");
        let ghost head = out@;
        let mut k: usize = 0;
        proof {
            lemma_take_ends(is);
            assert(head + Seq::<char>::empty() =~= head);
        }
        while k < issues.len()
            invariant
                k <= issues@.len(),
                is == issue_views(issues@),
                head == markdown_header(),
                out@ == head + markdown_rows(is.take(k as int)),
            decreases issues@.len() - k,
        {
            push_row(&mut out, &issues[k]);
            proof {
                assert(is.take(k + 1).drop_last() =~= is.take(k as int));
                assert(is.take(k + 1).last() == issues@[k as int]@);
                assert(out@ =~= head + markdown_rows(is.take(k + 1)));
            }
            k = k + 1;
        }
        proof {
            lemma_take_ends(is);
        }
        out
    }
}

} // verus!
