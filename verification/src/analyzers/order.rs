//! The order in which issues are reported: by file, line, column, check id
//! and message.
use vstd::prelude::*;
use vstd::multiset::Multiset;
use crate::base::issue::{issue_views, Issue, IssueView};
use crate::checks::layering::{components_of, path_components, rows};
use crate::text::chars_of;

verus! {

/// Lexicographic order on character sequences (by code point).
pub open spec fn seq_lt(a: Seq<char>, b: Seq<char>) -> bool
    decreases a.len(),
{
    if a.len() == 0 {
        b.len() > 0
    } else if b.len() == 0 {
        false
    } else if a[0] != b[0] {
        a[0] < b[0]
    } else {
        seq_lt(a.drop_first(), b.drop_first())
    }
}

/// The order is transitive.
pub proof fn lemma_seq_lt_trans(a: Seq<char>, b: Seq<char>, c: Seq<char>)
    requires
        seq_lt(a, b),
        seq_lt(b, c),
    ensures
        seq_lt(a, c),
    decreases a.len(),
{
    if a.len() > 0 && b.len() > 0 && c.len() > 0 && a[0] == b[0] && b[0] == c[0] {
        lemma_seq_lt_trans(a.drop_first(), b.drop_first(), c.drop_first());
    }
}

/// Whether `a` sorts strictly before `b`.
pub fn string_lt(a: &str, b: &str) -> (r: bool)
    ensures
        r == seq_lt(a@, b@),
{
    let x = chars_of(a);
    let y = chars_of(b);
    let mut k: usize = 0;
    proof {
        assert(x@.skip(0) =~= x@);
        assert(y@.skip(0) =~= y@);
    }
    while k < x.len() && k < y.len() && x[k] == y[k]
        invariant
            x@ == a@,
            y@ == b@,
            k <= x@.len(),
            k <= y@.len(),
            seq_lt(a@, b@) == seq_lt(x@.skip(k as int), y@.skip(k as int)),
        decreases x@.len() - k,
    {
        proof {
            assert(x@.skip(k as int).drop_first() =~= x@.skip(k + 1));
            assert(y@.skip(k as int).drop_first() =~= y@.skip(k + 1));
        }
        k = k + 1;
    }
    if k == x.len() {
        k < y.len()
    } else if k == y.len() {
        false
    } else {
        proof {
            assert(x@.skip(k as int)[0] == x@[k as int]);
            assert(y@.skip(k as int)[0] == y@[k as int]);
        }
        x[k] < y[k]
    }
}

/// Whether `a` sorts strictly before `b` (character vectors).
fn chars_lt(x: &Vec<char>, y: &Vec<char>) -> (r: bool)
    ensures
        r == seq_lt(x@, y@),
{
    let mut k: usize = 0;
    proof {
        assert(x@.skip(0) =~= x@);
        assert(y@.skip(0) =~= y@);
    }
    while k < x.len() && k < y.len() && x[k] == y[k]
        invariant
            k <= x@.len(),
            k <= y@.len(),
            seq_lt(x@, y@) == seq_lt(x@.skip(k as int), y@.skip(k as int)),
        decreases x@.len() - k,
    {
        proof {
            assert(x@.skip(k as int).drop_first() =~= x@.skip(k + 1));
            assert(y@.skip(k as int).drop_first() =~= y@.skip(k + 1));
        }
        k = k + 1;
    }
    if k == x.len() {
        k < y.len()
    } else if k == y.len() {
        false
    } else {
        proof {
            assert(x@.skip(k as int)[0] == x@[k as int]);
            assert(y@.skip(k as int)[0] == y@[k as int]);
        }
        x[k] < y[k]
    }
}

/// Whether two character vectors hold the same characters.
fn chars_eq(x: &Vec<char>, y: &Vec<char>) -> (r: bool)
    ensures
        r == (x@ == y@),
{
    if x.len() != y.len() {
        return false;
    }
    let mut k: usize = 0;
    while k < x.len()
        invariant
            x@.len() == y@.len(),
            k <= x@.len(),
            forall|j: int| 0 <= j < k ==> x@[j] == y@[j],
        decreases x@.len() - k,
    {
        if x[k] != y[k] {
            return false;
        }
        k = k + 1;
    }
    proof {
        assert(x@ =~= y@);
    }
    true
}

/// How `std::path::Component` ranks a component's kind: the root, then `.`,
/// then `..`, then names.
pub open spec fn component_rank(c: Seq<char>) -> int {
    if c == seq!['/'] {
        0
    } else if c == seq!['.'] {
        1
    } else if c == seq!['.', '.'] {
        2
    } else {
        3
    }
}

/// Component `a` sorts before component `b`: by kind, then names by code point.
pub open spec fn component_lt(a: Seq<char>, b: Seq<char>) -> bool {
    component_rank(a) < component_rank(b) || (component_rank(a) == component_rank(b) && seq_lt(a, b))
}

/// Lexicographic order on component sequences.
pub open spec fn components_lt(a: Seq<Seq<char>>, b: Seq<Seq<char>>) -> bool
    decreases a.len(),
{
    if a.len() == 0 {
        b.len() > 0
    } else if b.len() == 0 {
        false
    } else if a[0] != b[0] {
        component_lt(a[0], b[0])
    } else {
        components_lt(a.drop_first(), b.drop_first())
    }
}

/// Path `a` sorts before path `b`, component by component, as `Path`
/// values compare.
pub open spec fn path_lt(a: Seq<char>, b: Seq<char>) -> bool {
    components_lt(path_components(a), path_components(b))
}

/// Two paths compare equal as `Path` values: the same components.
pub open spec fn same_path(a: Seq<char>, b: Seq<char>) -> bool {
    path_components(a) == path_components(b)
}

/// No component sequence sorts before itself.
pub proof fn lemma_components_lt_irrefl(a: Seq<Seq<char>>)
    ensures
        !components_lt(a, a),
    decreases a.len(),
{
    if a.len() > 0 {
        lemma_components_lt_irrefl(a.drop_first());
    }
}

/// The component order is transitive.
pub proof fn lemma_components_lt_trans(a: Seq<Seq<char>>, b: Seq<Seq<char>>, c: Seq<Seq<char>>)
    requires
        components_lt(a, b),
        components_lt(b, c),
    ensures
        components_lt(a, c),
    decreases a.len(),
{
    if a.len() > 0 && b.len() > 0 && c.len() > 0 {
        if a[0] == b[0] && b[0] == c[0] {
            lemma_components_lt_trans(a.drop_first(), b.drop_first(), c.drop_first());
        } else if a[0] != b[0] && b[0] != c[0] {
            if seq_lt(a[0], b[0]) && seq_lt(b[0], c[0]) {
                lemma_seq_lt_trans(a[0], b[0], c[0]);
            }
            if a[0] == c[0] {
                if seq_lt(a[0], b[0]) && seq_lt(b[0], a[0]) {
                    lemma_seq_lt_trans(a[0], b[0], a[0]);
                }
                lemma_seq_lt_irrefl(a[0]);
            }
        }
    }
}

/// Two component sequences are equal or one sorts before the other.
pub proof fn lemma_components_lt_total(a: Seq<Seq<char>>, b: Seq<Seq<char>>)
    ensures
        a == b || components_lt(a, b) || components_lt(b, a),
    decreases a.len(),
{
    if a.len() == 0 && b.len() == 0 {
        assert(a =~= b);
    } else if a.len() > 0 && b.len() > 0 {
        if a[0] == b[0] {
            lemma_components_lt_total(a.drop_first(), b.drop_first());
            if a.drop_first() == b.drop_first() {
                assert(a =~= seq![a[0]] + a.drop_first());
                assert(b =~= seq![b[0]] + b.drop_first());
            }
        } else {
            lemma_seq_lt_total(a[0], b[0]);
        }
    }
}

/// Whether the components `x` sort before `y`, and whether they are equal.
fn compare_components(x: &Vec<Vec<char>>, y: &Vec<Vec<char>>) -> (r: (bool, bool))
    ensures
        r.0 == components_lt(rows(x@), rows(y@)),
        r.1 == (rows(x@) == rows(y@)),
{
    let ghost a = rows(x@);
    let ghost b = rows(y@);
    let mut k: usize = 0;
    proof {
        assert(a.skip(0) =~= a);
        assert(b.skip(0) =~= b);
    }
    while k < x.len() && k < y.len()
        invariant
            a == rows(x@),
            b == rows(y@),
            k <= x@.len(),
            k <= y@.len(),
            a.take(k as int) == b.take(k as int),
            components_lt(a, b) == components_lt(a.skip(k as int), b.skip(k as int)),
        decreases x@.len() - k,
    {
        let xs = &x[k];
        let ys = &y[k];
        proof {
            assert(a.skip(k as int)[0] == xs@);
            assert(b.skip(k as int)[0] == ys@);
        }
        if !chars_eq(xs, ys) {
            let rx = rank_of(xs);
            let ry = rank_of(ys);
            let lt = rx < ry || (rx == ry && chars_lt(xs, ys));
            proof {
                assert(a.skip(k as int)[0] != b.skip(k as int)[0]);
                if a == b {
                    assert(a[k as int] == b[k as int]);
                }
            }
            return (lt, false);
        }
        proof {
            assert(a.skip(k as int).drop_first() =~= a.skip(k + 1));
            assert(b.skip(k as int).drop_first() =~= b.skip(k + 1));
            assert(a.take(k + 1) =~= a.take(k as int).push(a[k as int]));
            assert(b.take(k + 1) =~= b.take(k as int).push(b[k as int]));
        }
        k = k + 1;
    }
    let eq = x.len() == y.len();
    proof {
        if eq {
            assert(a =~= a.take(k as int));
            assert(b =~= b.take(k as int));
        } else if a == b {
            assert(a.len() == b.len());
        }
    }
    (k == x.len() && k < y.len(), eq)
}

/// The rank of a component's kind.
fn rank_of(c: &Vec<char>) -> (r: u8)
    ensures
        r as int == component_rank(c@),
{
    if c.len() == 1 && c[0] == '/' {
        proof {
            assert(c@ =~= seq!['/']);
        }
        0
    } else if c.len() == 1 && c[0] == '.' {
        proof {
            assert(c@ =~= seq!['.']);
            assert(c@ != seq!['/']);
        }
        1
    } else if c.len() == 2 && c[0] == '.' && c[1] == '.' {
        proof {
            assert(c@ =~= seq!['.', '.']);
        }
        2
    } else {
        proof {
            if c@ == seq!['/'] || c@ == seq!['.'] {
                assert(c@.len() == 1);
            }
            if c@ == seq!['.', '.'] {
                assert(c@.len() == 2);
            }
        }
        3
    }
}

/// Whether path `a` sorts before path `b`, and whether they compare equal.
pub fn compare_paths(a: &str, b: &str) -> (r: (bool, bool))
    ensures
        r.0 == path_lt(a@, b@),
        r.1 == same_path(a@, b@),
{
    let x = components_of(a);
    let y = components_of(b);
    compare_components(&x, &y)
}

/// Issue `a` is reported before issue `b`: by file (as paths compare), then
/// line, then column, then check id, then message.
pub open spec fn issue_before(a: IssueView, b: IssueView) -> bool {
    path_lt(a.file, b.file) || (same_path(a.file, b.file) && (a.line < b.line || (a.line == b.line && (a.column
        < b.column || (a.column == b.column && (seq_lt(a.id, b.id) || (a.id == b.id && seq_lt(a.message, b.message))))))))
}

/// The report order is transitive.
pub proof fn lemma_issue_before_trans(a: IssueView, b: IssueView, c: IssueView)
    requires
        issue_before(a, b),
        issue_before(b, c),
    ensures
        issue_before(a, c),
{
    let (pa, pb, pc) = (path_components(a.file), path_components(b.file), path_components(c.file));
    if components_lt(pa, pb) && components_lt(pb, pc) {
        lemma_components_lt_trans(pa, pb, pc);
    }
    if seq_lt(a.id, b.id) && seq_lt(b.id, c.id) {
        lemma_seq_lt_trans(a.id, b.id, c.id);
    }
    if seq_lt(a.message, b.message) && seq_lt(b.message, c.message) {
        lemma_seq_lt_trans(a.message, b.message, c.message);
    }
}

/// Whether issue `a` is reported before issue `b`.
pub fn reported_before(a: &Issue, b: &Issue) -> (r: bool)
    ensures
        r == issue_before(a@, b@),
{
    let (lt, same) = compare_paths(a.file.as_str(), b.file.as_str());
    if !same {
        return lt;
    }
    proof {
        lemma_components_lt_irrefl(path_components(a.file@));
    }
    if a.line != b.line {
        return a.line < b.line;
    }
    if a.column != b.column {
        return a.column < b.column;
    }
    if string_lt(a.id.as_str(), b.id.as_str()) {
        return true;
    }
    if string_lt(b.id.as_str(), a.id.as_str()) {
        proof {
            if a.id@ == b.id@ {
                lemma_seq_lt_irrefl(a.id@);
            }
        }
        return false;
    }
    proof {
        lemma_seq_lt_total(a.id@, b.id@);
    }
    string_lt(a.message.as_str(), b.message.as_str())
}

/// No sequence sorts before itself.
pub proof fn lemma_seq_lt_irrefl(a: Seq<char>)
    ensures
        !seq_lt(a, a),
    decreases a.len(),
{
    if a.len() > 0 {
        lemma_seq_lt_irrefl(a.drop_first());
    }
}

/// Two sequences are equal or one sorts before the other.
pub proof fn lemma_seq_lt_total(a: Seq<char>, b: Seq<char>)
    ensures
        a == b || seq_lt(a, b) || seq_lt(b, a),
    decreases a.len(),
{
    if a.len() == 0 && b.len() == 0 {
        assert(a =~= b);
    } else if a.len() > 0 && b.len() > 0 && a[0] == b[0] {
        lemma_seq_lt_total(a.drop_first(), b.drop_first());
        if a.drop_first() == b.drop_first() {
            assert(a =~= seq![a[0]] + a.drop_first());
            assert(b =~= seq![b[0]] + b.drop_first());
        }
    }
}

/// The issues are in report order: no issue is reported before an earlier one.
pub open spec fn in_report_order(s: Seq<IssueView>) -> bool {
    forall|i: int, j: int| 0 <= i < j < s.len() ==> !issue_before(s[j], s[i])
}

/// Puts issues in report order, keeping every issue.
pub fn sort_issues(items: Vec<Issue>) -> (r: Vec<Issue>)
    ensures
        issue_views(r@).to_multiset() == issue_views(items@).to_multiset(),
        in_report_order(issue_views(r@)),
{
    broadcast use vstd::seq_lib::group_to_multiset_ensures, vstd::multiset::group_multiset_axioms, vstd::multiset::lemma_multiset_empty_len;
    let ghost orig = issue_views(items@).to_multiset();
    let mut rest = items;
    let mut out: Vec<Issue> = Vec::new();
    proof {
        assert(issue_views(out@) =~= Seq::<IssueView>::empty());
        assert(issue_views(out@).to_multiset() =~= Multiset::<IssueView>::empty());
    }
    while rest.len() > 0
        invariant
            issue_views(out@).to_multiset().add(issue_views(rest@).to_multiset()) == orig,
            in_report_order(issue_views(out@)),
            forall|p: int, k: int| 0 <= p < out@.len() && 0 <= k < rest@.len() ==> !issue_before(
                #[trigger] rest@[k]@,
                #[trigger] out@[p]@,
            ),
        decreases rest@.len(),
    {
        let mut m: usize = 0;
        let mut i: usize = 1;
        proof {
            lemma_issue_irrefl(rest@[0]@);
        }
        while i < rest.len()
            invariant
                0 < rest@.len(),
                m < rest@.len(),
                m < i <= rest@.len(),
                forall|k: int| 0 <= k < i ==> !issue_before(#[trigger] rest@[k]@, rest@[m as int]@),
            decreases rest@.len() - i,
        {
            if reported_before(&rest[i], &rest[m]) {
                proof {
                    assert forall|k: int| 0 <= k < i + 1 implies !issue_before(#[trigger] rest@[k]@, rest@[i as int]@) by {
                        if k < i && issue_before(rest@[k]@, rest@[i as int]@) {
                            lemma_issue_before_trans(rest@[k]@, rest@[i as int]@, rest@[m as int]@);
                        }
                        if k == i {
                            lemma_issue_irrefl(rest@[i as int]@);
                        }
                    }
                }
                m = i;
            }
            i = i + 1;
        }
        let ghost old_rest = rest@;
        let ghost old_out = out@;
        let x = rest.remove(m);
        proof {
            assert(rest@ == old_rest.remove(m as int));
            assert(issue_views(rest@) =~= issue_views(old_rest).remove(m as int));
            assert(issue_views(old_rest)[m as int] == x@);
        }
        out.push(x);
        proof {
            assert(issue_views(out@) =~= issue_views(old_out).push(x@));
            vstd::seq_lib::to_multiset_build(issue_views(old_out), x@);
            vstd::seq_lib::to_multiset_remove(issue_views(old_rest), m as int);
            assert(issue_views(old_out).push(x@).to_multiset() =~= issue_views(old_out).to_multiset().insert(x@));
            assert(issue_views(old_rest).remove(m as int).to_multiset() =~= issue_views(old_rest).to_multiset().remove(
                issue_views(old_rest)[m as int],
            ));
            assert(issue_views(out@).to_multiset() == issue_views(old_out).to_multiset().insert(x@));
            assert(issue_views(rest@).to_multiset() == issue_views(old_rest).to_multiset().remove(x@));
            vstd::seq_lib::to_multiset_contains(issue_views(old_rest), x@);
            assert(issue_views(old_rest).contains(x@));
            assert(issue_views(old_rest).to_multiset().count(x@) > 0);
            assert(issue_views(out@).to_multiset().add(issue_views(rest@).to_multiset()) =~= orig);
            assert forall|p: int, k: int| 0 <= p < out@.len() && 0 <= k < rest@.len() implies !issue_before(
                #[trigger] rest@[k]@,
                #[trigger] out@[p]@,
            ) by {
                let kk = if k < m { k } else { k + 1 };
                assert(rest@[k] == old_rest[kk]);
                if p < old_out.len() {
                    assert(out@[p] == old_out[p]);
                } else {
                    assert(out@[p] == x);
                }
            }
            assert forall|a: int, b: int| 0 <= a < b < issue_views(out@).len() implies !issue_before(
                issue_views(out@)[b],
                issue_views(out@)[a],
            ) by {
                if b == old_out.len() {
                    assert(out@[a] == old_out[a]);
                } else {
                    assert(out@[a] == old_out[a]);
                    assert(out@[b] == old_out[b]);
                }
            }
        }
    }
    proof {
        assert(issue_views(rest@) =~= Seq::<IssueView>::empty());
        assert(issue_views(out@).to_multiset().add(Multiset::<IssueView>::empty()) =~= issue_views(out@).to_multiset());
    }
    out
}

/// No issue is reported before itself.
pub proof fn lemma_issue_irrefl(a: IssueView)
    ensures
        !issue_before(a, a),
{
    lemma_components_lt_irrefl(path_components(a.file));
    lemma_seq_lt_irrefl(a.id);
    lemma_seq_lt_irrefl(a.message);
}

} // verus!
