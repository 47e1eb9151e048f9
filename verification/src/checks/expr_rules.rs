//! Detectors that look at one expression at a time, and the module-wide
//! judgements made over all expressions (quote styles, repeated literals).
use vstd::prelude::*;
use super::hit::{append_hits, concat3, hit, hit_views, hv, push_hit, with_number, Anchor, Hit, HitView};
use super::syntax::{
    bool_literal, called_name, expr_as_bool_constant, expr_name, is_call_to, is_name, name_of, not_none_test,
    is_not_none_test,
};
use crate::analysis::fold::{flat_map, lemma_flat_map_step, lemma_take_ends};
use crate::analysis::model::src_bytes;
use crate::analysis::walk::{derefs, module_expressions, module_exprs};
use crate::parser::ast::{CmpOp, Comprehension, Constant, Expr, ExprKind, Module};
use crate::parser::python::ParsedFile;
use crate::text::{decimal, push_str, str_eq};

verus! {

// ---------------------------------------------------------------------------
// Numeric literals
// ---------------------------------------------------------------------------

/// The display text of an integer or float literal.
pub open spec fn number_text(e: Expr) -> Option<Seq<char>> {
    match e.kind {
        ExprKind::Constant { value: Constant::Int(t) } => Some(t@),
        ExprKind::Constant { value: Constant::Float(t) } => Some(t@),
        _ => None,
    }
}

/// The display text of an integer or float literal.
pub fn numeric_constant_text(e: &Expr) -> (r: Option<&String>)
    ensures
        match r {
            Some(t) => number_text(*e) == Some(t@),
            None => number_text(*e) is None,
        },
{
    match &e.kind {
        ExprKind::Constant { value: Constant::Int(t) } => Some(t),
        ExprKind::Constant { value: Constant::Float(t) } => Some(t),
        _ => None,
    }
}

/// ASCII whitespace characters.
pub open spec fn is_ws_char(c: char) -> bool {
    c == ' ' || c == '\t' || c == '\n' || c == '\x0B' || c == '\x0C' || c == '\r'
}

/// `t` without surrounding ASCII whitespace.
pub open spec fn strip_ws(t: Seq<char>) -> Seq<char>
    decreases t.len(),
{
    if t.len() > 0 && is_ws_char(t[0]) {
        strip_ws(t.subrange(1, t.len() as int))
    } else if t.len() > 0 && is_ws_char(t.last()) {
        strip_ws(t.drop_last())
    } else {
        t
    }
}

/// Stripping never lengthens.
pub proof fn lemma_strip_ws_len(t: Seq<char>)
    ensures
        strip_ws(t).len() <= t.len(),
    decreases t.len(),
{
    if t.len() > 0 && is_ws_char(t[0]) {
        lemma_strip_ws_len(t.subrange(1, t.len() as int));
    } else if t.len() > 0 && is_ws_char(t.last()) {
        lemma_strip_ws_len(t.drop_last());
    }
}

/// Small literals that read as self-explanatory.
pub open spec fn is_small_number(c: Seq<char>) -> bool {
    c == "0"@ || c == "1"@ || c == "2"@ || c == "10"@ || c == "0.0"@ || c == "1.0"@ || c == "2.0"@ || c == "10.0"@
}

/// Only ASCII digits and dots.
pub open spec fn digits_and_dots(c: Seq<char>) -> bool {
    forall|i: int| 0 <= i < c.len() ==> ('0' <= #[trigger] c[i] && c[i] <= '9') || c[i] == '.'
}

/// [`is_magic`] of a text already stripped of surrounding whitespace.
pub open spec fn magic_core(c: Seq<char>) -> bool
    decreases c.len(), 0nat,
{
    if c.len() > 0 && c[0] == '-' {
        is_magic(c.subrange(1, c.len() as int))
    } else {
        !is_small_number(c) && digits_and_dots(c)
    }
}

/// A numeric literal text that needs a name: with surrounding ASCII
/// whitespace and leading minus signs removed, only digits and dots remain
/// and it is not 0, 1, 2 or 10 (integral or with `.0`).
pub open spec fn is_magic(t: Seq<char>) -> bool
    decreases t.len(), 1nat,
{
    proof {
        lemma_strip_ws_len(t);
    }
    magic_core(strip_ws(t))
}

/// Whether `cs[lo..hi]` equals the characters of `lit`.
fn range_is(cs: &Vec<char>, lo: usize, hi: usize, lit: &str) -> (r: bool)
    requires
        lo <= hi <= cs@.len(),
    ensures
        r == (cs@.subrange(lo as int, hi as int) == lit@),
{
    let l = crate::text::chars_of(lit);
    if hi - lo != l.len() {
        return false;
    }
    let mut k: usize = 0;
    while k < l.len()
        invariant
            lo <= hi <= cs@.len(),
            l@ == lit@,
            hi - lo == l@.len(),
            k <= l@.len(),
            forall|j: int| 0 <= j < k ==> cs@.subrange(lo as int, hi as int)[j] == #[trigger] l@[j],
        decreases l@.len() - k,
    {
        if cs[lo + k] != l[k] {
            proof {
                assert(cs@.subrange(lo as int, hi as int)[k as int] != l@[k as int]);
            }
            return false;
        }
        k = k + 1;
    }
    proof {
        assert(cs@.subrange(lo as int, hi as int) =~= l@);
    }
    true
}

fn ws_char(c: char) -> (r: bool)
    ensures
        r == is_ws_char(c),
{
    c == ' ' || c == '\t' || c == '\n' || c == '\x0B' || c == '\x0C' || c == '\r'
}

/// Whether a numeric literal's text reads as a magic number.
pub fn is_magic_numeric_literal(text: &str) -> (r: bool)
    ensures
        r == is_magic(text@),
{
    let cs = crate::text::chars_of(text);
    let mut lo: usize = 0;
    let mut hi: usize = cs.len();
    proof {
        assert(cs@.subrange(0, cs@.len() as int) =~= text@);
        reveal_with_fuel(is_magic, 2);
    }
    loop
        invariant
            lo <= hi <= cs@.len(),
            cs@ == text@,
            is_magic(text@) == magic_core(strip_ws(cs@.subrange(lo as int, hi as int))),
        ensures
            lo <= hi <= cs@.len(),
            is_magic(text@) == magic_core(cs@.subrange(lo as int, hi as int)),
            !(lo < hi && cs@[lo as int] == '-'),
        decreases hi - lo,
    {
        let ghost width = hi - lo;
        while lo < hi && ws_char(cs[lo])
            invariant
                lo <= hi <= cs@.len(),
                hi - lo <= width,
                is_magic(text@) == magic_core(strip_ws(cs@.subrange(lo as int, hi as int))),
            decreases hi - lo,
        {
            proof {
                let t = cs@.subrange(lo as int, hi as int);
                assert(t.subrange(1, t.len() as int) =~= cs@.subrange(lo + 1, hi as int));
            }
            lo = lo + 1;
        }
        while hi > lo && ws_char(cs[hi - 1])
            invariant
                lo <= hi <= cs@.len(),
                hi - lo <= width,
                lo < hi ==> !is_ws_char(cs@[lo as int]),
                is_magic(text@) == magic_core(strip_ws(cs@.subrange(lo as int, hi as int))),
            decreases hi - lo,
        {
            proof {
                let t = cs@.subrange(lo as int, hi as int);
                assert(t.drop_last() =~= cs@.subrange(lo as int, hi - 1));
                assert(t[0] == cs@[lo as int]);
            }
            hi = hi - 1;
        }
        proof {
            let t = cs@.subrange(lo as int, hi as int);
            if t.len() > 0 {
                assert(t[0] == cs@[lo as int]);
                assert(t.last() == cs@[hi - 1]);
            }
            assert(strip_ws(t) == t);
        }
        if lo < hi && cs[lo] == '-' {
            proof {
                let t = cs@.subrange(lo as int, hi as int);
                assert(t.subrange(1, t.len() as int) =~= cs@.subrange(lo + 1, hi as int));
                lemma_strip_ws_len(cs@.subrange(lo + 1, hi as int));
            }
            lo = lo + 1;
        } else {
            break;
        }
    }
    proof {
        let t = cs@.subrange(lo as int, hi as int);
        if t.len() > 0 {
            assert(t[0] == cs@[lo as int]);
        }
        assert(is_magic(text@) == (!is_small_number(t) && digits_and_dots(t)));
    }
    let small = range_is(&cs, lo, hi, "0") || range_is(&cs, lo, hi, "1") || range_is(&cs, lo, hi, "2")
        || range_is(&cs, lo, hi, "10") || range_is(&cs, lo, hi, "0.0") || range_is(&cs, lo, hi, "1.0")
        || range_is(&cs, lo, hi, "2.0") || range_is(&cs, lo, hi, "10.0");
    if small {
        return false;
    }
    let mut k: usize = lo;
    while k < hi
        invariant
            lo <= k <= hi <= cs@.len(),
            is_magic(text@) == digits_and_dots(cs@.subrange(lo as int, hi as int)),
            forall|j: int| 0 <= j < k - lo ==> ('0' <= #[trigger] cs@.subrange(lo as int, hi as int)[j] && cs@.subrange(lo as int, hi as int)[j] <= '9') || cs@.subrange(lo as int, hi as int)[j] == '.',
        decreases hi - k,
    {
        let c = cs[k];
        if !(('0' <= c && c <= '9') || c == '.') {
            proof {
                let t = cs@.subrange(lo as int, hi as int);
                assert(t[k - lo] == c);
                assert(!digits_and_dots(t));
            }
            return false;
        }
        k = k + 1;
    }
    true
}

// ---------------------------------------------------------------------------
// Expression-level detectors
// ---------------------------------------------------------------------------

/// The expression-level detectors.
#[derive(Clone, Copy, PartialEq, Eq, Structural)]
pub enum ExprRule {
    /// `and`/`or` chains with more operators than the limit.
    ComplexBooleanExpression(usize),
    MagicNumber,
    DangerousEvalExec,
    LengthComparison,
    RedundantBooleanComparison,
    IdentityMap,
    SortForTopK,
    SimplifiableIfExpression,
    /// Comprehensions and generator expressions filtering `is not None`.
    FilterNoneComprehension,
    PrintDebugging,
}

/// An integer or float literal displayed as one of `allowed`.
pub open spec fn is_number_among(e: Expr, allowed: Seq<Seq<char>>) -> bool {
    number_text(e) matches Some(t) && allowed.contains(t)
}

/// Some element satisfies the predicate.
pub open spec fn any_expr(es: Seq<Expr>, p: spec_fn(Expr) -> bool) -> bool {
    exists|i: int| 0 <= i < es.len() && p(#[trigger] es[i])
}

/// A comparison operator that orders or equates.
pub open spec fn is_suspicious_op(op: CmpOp) -> bool {
    op == CmpOp::Gt || op == CmpOp::Lt || op == CmpOp::Eq || op == CmpOp::GtE || op == CmpOp::LtE
}

/// `len(x)` compared with 0 or 1 by an ordering or equality operator.
pub open spec fn is_length_comparison(e: Expr) -> bool {
    match e.kind {
        ExprKind::Compare { left, ops, comparators } => ops@.len() > 0 && (called_name(*left) == Some("len"@)
            || any_expr(comparators@, |c: Expr| called_name(c) == Some("len"@))) && any_expr(
            comparators@,
            |c: Expr| is_number_among(c, seq!["0"@, "1"@]),
        ) && (exists|k: int| 0 <= k < ops@.len() && is_suspicious_op(#[trigger] ops@[k])),
        _ => false,
    }
}

/// A comparison with a `True` or `False` literal on either side.
pub open spec fn is_redundant_bool_comparison(e: Expr) -> bool {
    match e.kind {
        ExprKind::Compare { left, comparators, .. } => bool_literal(*left) is Some || any_expr(
            comparators@,
            |c: Expr| bool_literal(c) is Some,
        ),
        _ => false,
    }
}

/// `lambda x: x`.
pub open spec fn is_identity_lambda(e: Expr) -> bool {
    match e.kind {
        ExprKind::Lambda { params, body } => params@.len() == 1 && name_of(*body) == Some(params@[0]@),
        _ => false,
    }
}

/// `map(lambda x: x, ...)`.
pub open spec fn is_identity_map(e: Expr) -> bool {
    match e.kind {
        ExprKind::Call { func, args, .. } => name_of(*func) == Some("map"@) && args@.len() > 0 && is_identity_lambda(
            args@[0],
        ),
        _ => false,
    }
}

/// `sorted(...)[..k]`: a slice with an upper bound of a `sorted` call.
pub open spec fn is_sort_for_top_k(e: Expr) -> bool {
    match e.kind {
        ExprKind::Subscript { value, slice } => called_name(*value) == Some("sorted"@) && (slice.kind matches ExprKind::Slice { upper: Some(_), .. }),
        _ => false,
    }
}

/// `True if c else False` (or the reverse).
pub open spec fn is_simplifiable_if_exp(e: Expr) -> bool {
    match e.kind {
        ExprKind::IfExp { body, orelse, .. } => bool_literal(*body) is Some && bool_literal(*orelse) is Some
            && bool_literal(*body) != bool_literal(*orelse),
        _ => false,
    }
}

/// Some comprehension clause filters with `x is not None`.
pub open spec fn filters_not_none(gs: Seq<Comprehension>) -> bool {
    exists|i: int, j: int| 0 <= i < gs.len() && 0 <= j < gs[i].ifs@.len() && (#[trigger] not_none_test(gs[i].ifs@[j])) is Some
}

/// The findings of an expression-level detector on one expression.
pub open spec fn expr_rule_hits(rule: ExprRule, e: Expr) -> Seq<HitView> {
    let at = Anchor::Offset(e.start);
    match rule {
        ExprRule::ComplexBooleanExpression(max) => match e.kind {
            ExprKind::BoolOp { values } => {
                let ops = if values@.len() == 0 { 0 } else { values@.len() - 1 };
                if ops > max {
                    seq![hv(at, "boolean expression has "@ + decimal(ops as nat) + " operators (max "@ + decimal(max as nat) + ")"@)]
                } else {
                    Seq::empty()
                }
            },
            _ => Seq::empty(),
        },
        ExprRule::MagicNumber => match number_text(e) {
            Some(t) => if is_magic(t) {
                seq![hv(at, "magic numeric literal `"@ + t + "`"@)]
            } else {
                Seq::empty()
            },
            None => Seq::empty(),
        },
        ExprRule::DangerousEvalExec => match called_name(e) {
            Some(n) => if n == "eval"@ || n == "exec"@ {
                seq![hv(at, "dangerous dynamic execution via "@ + n + "()"@)]
            } else {
                Seq::empty()
            },
            None => Seq::empty(),
        },
        ExprRule::LengthComparison => if is_length_comparison(e) {
            seq![hv(at, "len(...) comparison can often be simplified to truthiness check"@)]
        } else {
            Seq::empty()
        },
        ExprRule::RedundantBooleanComparison => if is_redundant_bool_comparison(e) {
            seq![hv(at, "redundant comparison to True/False constant"@)]
        } else {
            Seq::empty()
        },
        ExprRule::IdentityMap => if is_identity_map(e) {
            seq![hv(at, "map(lambda x: x, ...) is an identity; use list(...) or copy directly"@)]
        } else {
            Seq::empty()
        },
        ExprRule::SortForTopK => if is_sort_for_top_k(e) {
            seq![hv(at, "full sort then slice for top-k; consider `heapq.nlargest` or partial selection"@)]
        } else {
            Seq::empty()
        },
        ExprRule::SimplifiableIfExpression => if is_simplifiable_if_exp(e) {
            seq![hv(at, "if-expression with True/False branches can simplify to the condition"@)]
        } else {
            Seq::empty()
        },
        ExprRule::FilterNoneComprehension => match e.kind {
            ExprKind::ListComp { generators, .. } => if filters_not_none(generators@) {
                seq![hv(at, "list comprehension filters `is not None`; consider filter(None, ...)"@)]
            } else {
                Seq::empty()
            },
            ExprKind::GeneratorExp { generators, .. } => if filters_not_none(generators@) {
                seq![hv(at, "generator filters `is not None`; consider filter(None, ...)"@)]
            } else {
                Seq::empty()
            },
            _ => Seq::empty(),
        },
        ExprRule::PrintDebugging => if called_name(e) == Some("print"@) {
            seq![hv(at, "print() used for debugging"@)]
        } else {
            Seq::empty()
        },
    }
}

fn one(flag: bool, at: Anchor, message: &str) -> (r: Vec<Hit>)
    ensures
        hit_views(r@) == if flag {
            seq![hv(at, message@)]
        } else {
            Seq::<HitView>::empty()
        },
{
    let mut out: Vec<Hit> = Vec::new();
    if flag {
        push_hit(&mut out, hit(at, message));
    }
    proof {
        if flag {
            assert(hit_views(out@) =~= seq![hv(at, message@)]);
        } else {
            assert(hit_views(out@) =~= Seq::<HitView>::empty());
        }
    }
    out
}

fn any_len_call(es: &Vec<Expr>) -> (r: bool)
    ensures
        r == any_expr(es@, |c: Expr| called_name(c) == Some("len"@)),
{
    let mut i: usize = 0;
    while i < es.len()
        invariant
            i <= es@.len(),
            forall|j: int| 0 <= j < i ==> called_name(#[trigger] es@[j]) != Some("len"@),
        decreases es@.len() - i,
    {
        if is_call_to(&es[i], "len") {
            return true;
        }
        i = i + 1;
    }
    false
}

fn any_zero_or_one(es: &Vec<Expr>) -> (r: bool)
    ensures
        r == any_expr(es@, |c: Expr| is_number_among(c, seq!["0"@, "1"@])),
{
    let mut i: usize = 0;
    while i < es.len()
        invariant
            i <= es@.len(),
            forall|j: int| 0 <= j < i ==> !is_number_among(#[trigger] es@[j], seq!["0"@, "1"@]),
        decreases es@.len() - i,
    {
        match numeric_constant_text(&es[i]) {
            Some(t) => {
                let hit01 = str_eq(t.as_str(), "0") || str_eq(t.as_str(), "1");
                proof {
                    let al = seq!["0"@, "1"@];
                    assert(al[0] == "0"@ && al[1] == "1"@);
                    if hit01 {
                        assert(al.contains(t@));
                    } else {
                        assert(!al.contains(t@));
                    }
                }
                if hit01 {
                    return true;
                }
            },
            None => {},
        }
        i = i + 1;
    }
    false
}

fn any_bool_literal(es: &Vec<Expr>) -> (r: bool)
    ensures
        r == any_expr(es@, |c: Expr| bool_literal(c) is Some),
{
    let mut i: usize = 0;
    while i < es.len()
        invariant
            i <= es@.len(),
            forall|j: int| 0 <= j < i ==> bool_literal(#[trigger] es@[j]) is None,
        decreases es@.len() - i,
    {
        if expr_as_bool_constant(&es[i]).is_some() {
            return true;
        }
        i = i + 1;
    }
    false
}

fn any_suspicious_op(ops: &Vec<CmpOp>) -> (r: bool)
    ensures
        r == (exists|k: int| 0 <= k < ops@.len() && is_suspicious_op(#[trigger] ops@[k])),
{
    let mut i: usize = 0;
    while i < ops.len()
        invariant
            i <= ops@.len(),
            forall|j: int| 0 <= j < i ==> !is_suspicious_op(#[trigger] ops@[j]),
        decreases ops@.len() - i,
    {
        let op = ops[i];
        if op == CmpOp::Gt || op == CmpOp::Lt || op == CmpOp::Eq || op == CmpOp::GtE || op == CmpOp::LtE {
            return true;
        }
        i = i + 1;
    }
    false
}

fn comprehensions_filter_not_none(gs: &Vec<Comprehension>) -> (r: bool)
    ensures
        r == filters_not_none(gs@),
{
    let mut i: usize = 0;
    while i < gs.len()
        invariant
            i <= gs@.len(),
            forall|a: int, b: int| 0 <= a < i && 0 <= b < gs@[a].ifs@.len() ==> (#[trigger] not_none_test(gs@[a].ifs@[b])) is None,
        decreases gs@.len() - i,
    {
        let ifs = &gs[i].ifs;
        let mut j: usize = 0;
        while j < ifs.len()
            invariant
                i < gs@.len(),
                ifs@ == gs@[i as int].ifs@,
                j <= ifs@.len(),
                forall|a: int, b: int| 0 <= a < i && 0 <= b < gs@[a].ifs@.len() ==> (#[trigger] not_none_test(gs@[a].ifs@[b])) is None,
                forall|b: int| 0 <= b < j ==> (#[trigger] not_none_test(ifs@[b])) is None,
            decreases ifs@.len() - j,
        {
            if is_not_none_test(&ifs[j]).is_some() {
                return true;
            }
            j = j + 1;
        }
        i = i + 1;
    }
    false
}

/// The findings of an expression-level detector on one expression.
pub fn run_expr_rule(rule: ExprRule, e: &Expr) -> (r: Vec<Hit>)
    ensures
        hit_views(r@) == expr_rule_hits(rule, *e),
{
    let at = Anchor::Offset(e.start);
    match rule {
        ExprRule::ComplexBooleanExpression(max) => {
            let mut out: Vec<Hit> = Vec::new();
            match &e.kind {
                ExprKind::BoolOp { values } => {
                    let ops = values.len().saturating_sub(1);
                    if ops > max {
                        let mut m = with_number("boolean expression has ", ops, " operators (max ");
                        crate::text::push_decimal(&mut m, max);
                        push_str(&mut m, ")");
                        push_hit(&mut out, Hit { anchor: at, message: m });
                    }
                },
                _ => {},
            }
            proof {
                assert(hit_views(out@) =~= expr_rule_hits(rule, *e));
            }
            out
        },
        ExprRule::MagicNumber => {
            let mut out: Vec<Hit> = Vec::new();
            match numeric_constant_text(e) {
                Some(t) => {
                    if is_magic_numeric_literal(t.as_str()) {
                        push_hit(&mut out, Hit { anchor: at, message: concat3("magic numeric literal `", t.as_str(), "`") });
                    }
                },
                None => {},
            }
            proof {
                assert(hit_views(out@) =~= expr_rule_hits(rule, *e));
            }
            out
        },
        ExprRule::DangerousEvalExec => {
            let mut out: Vec<Hit> = Vec::new();
            match &e.kind {
                ExprKind::Call { func, .. } => match expr_name(func) {
                    Some(n) => {
                        if str_eq(n.as_str(), "eval") || str_eq(n.as_str(), "exec") {
                            push_hit(&mut out, Hit { anchor: at, message: concat3("dangerous dynamic execution via ", n.as_str(), "()") });
                        }
                    },
                    None => {},
                },
                _ => {},
            }
            proof {
                assert(hit_views(out@) =~= expr_rule_hits(rule, *e));
            }
            out
        },
        ExprRule::LengthComparison => {
            let flag = match &e.kind {
                ExprKind::Compare { left, ops, comparators } => ops.len() > 0 && (is_call_to(left, "len")
                    || any_len_call(comparators)) && any_zero_or_one(comparators) && any_suspicious_op(ops),
                _ => false,
            };
            one(flag, at, "len(...) comparison can often be simplified to truthiness check")
        },
        ExprRule::RedundantBooleanComparison => {
            let flag = match &e.kind {
                ExprKind::Compare { left, comparators, .. } => expr_as_bool_constant(left).is_some()
                    || any_bool_literal(comparators),
                _ => false,
            };
            one(flag, at, "redundant comparison to True/False constant")
        },
        ExprRule::IdentityMap => {
            let flag = match &e.kind {
                ExprKind::Call { func, args, .. } => is_name(func, "map") && args.len() > 0 && match &args[0].kind {
                    ExprKind::Lambda { params, body } => params.len() == 1 && is_name(body, params[0].as_str()),
                    _ => false,
                },
                _ => false,
            };
            one(flag, at, "map(lambda x: x, ...) is an identity; use list(...) or copy directly")
        },
        ExprRule::SortForTopK => {
            let flag = match &e.kind {
                ExprKind::Subscript { value, slice } => is_call_to(value, "sorted") && match &slice.kind {
                    ExprKind::Slice { upper: Some(_), .. } => true,
                    _ => false,
                },
                _ => false,
            };
            one(flag, at, "full sort then slice for top-k; consider `heapq.nlargest` or partial selection")
        },
        ExprRule::SimplifiableIfExpression => {
            let flag = match &e.kind {
                ExprKind::IfExp { body, orelse, .. } => {
                    let b = expr_as_bool_constant(body);
                    let o = expr_as_bool_constant(orelse);
                    match (b, o) {
                        (Some(x), Some(y)) => x != y,
                        _ => false,
                    }
                },
                _ => false,
            };
            one(flag, at, "if-expression with True/False branches can simplify to the condition")
        },
        ExprRule::FilterNoneComprehension => match &e.kind {
            ExprKind::ListComp { generators, .. } => one(
                comprehensions_filter_not_none(generators),
                at,
                "list comprehension filters `is not None`; consider filter(None, ...)",
            ),
            ExprKind::GeneratorExp { generators, .. } => one(
                comprehensions_filter_not_none(generators),
                at,
                "generator filters `is not None`; consider filter(None, ...)",
            ),
            _ => {
                let out: Vec<Hit> = Vec::new();
                proof {
                    assert(hit_views(out@) =~= expr_rule_hits(rule, *e));
                }
                out
            },
        },
        ExprRule::PrintDebugging => one(is_call_to(e, "print"), at, "print() used for debugging"),
    }
}

/// [`expr_rule_hits`] as a function of the expression.
pub open spec fn expr_rule_fn(rule: ExprRule) -> spec_fn(Expr) -> Seq<HitView> {
    |e: Expr| expr_rule_hits(rule, e)
}

/// The findings of an expression-level detector over every expression of a
/// module, in order.
pub open spec fn module_expr_hits(rule: ExprRule, m: Module) -> Seq<HitView> {
    flat_map(module_exprs(m), expr_rule_fn(rule))
}

/// Runs an expression-level detector over every expression of a module.
pub fn scan_expressions(rule: ExprRule, m: &Module) -> (r: Vec<Hit>)
    ensures
        hit_views(r@) == module_expr_hits(rule, *m),
{
    let ghost f = expr_rule_fn(rule);
    let es = module_expressions(m);
    let ghost xs = derefs(es@);
    let mut out: Vec<Hit> = Vec::new();
    let mut i: usize = 0;
    proof {
        lemma_take_ends(xs);
        assert(hit_views(out@) =~= Seq::<HitView>::empty());
    }
    while i < es.len()
        invariant
            i <= es@.len(),
            xs == derefs(es@),
            xs == module_exprs(*m),
            f == expr_rule_fn(rule),
            hit_views(out@) == flat_map(xs.take(i as int), f),
        decreases es@.len() - i,
    {
        proof {
            lemma_flat_map_step(xs, i as int, f);
        }
        let more = run_expr_rule(rule, es[i]);
        append_hits(&mut out, more);
        i = i + 1;
    }
    proof {
        lemma_take_ends(xs);
    }
    out
}

// ---------------------------------------------------------------------------
// Module-wide judgements over string literals
// ---------------------------------------------------------------------------

/// The value of a string literal.
pub open spec fn str_value(e: Expr) -> Option<Seq<char>> {
    match e.kind {
        ExprKind::Constant { value: Constant::Str(t) } => Some(t@),
        _ => None,
    }
}

/// A string literal whose source text starts with the quote byte `q`.
pub open spec fn quote_opens(src: Seq<u8>, e: Expr, q: u8) -> bool {
    str_value(e) is Some && e.start < e.end && e.end <= src.len() && src[e.start as int] == q
}

/// Some string literal of the module opens with `q`.
pub open spec fn some_quote(src: Seq<u8>, es: Seq<Expr>, q: u8) -> bool {
    exists|i: int| 0 <= i < es.len() && quote_opens(src, #[trigger] es[i], q)
}

/// One finding at line 1, column 1 when the module has both single- and
/// double-quoted string literals.
pub open spec fn mixed_quotes_hits(src: Seq<u8>, m: Module) -> Seq<HitView> {
    if some_quote(src, module_exprs(m), 39u8) && some_quote(src, module_exprs(m), 34u8) {
        seq![hv(Anchor::At(1, 1), "module mixes single- and double-quoted string literals"@)]
    } else {
        Seq::empty()
    }
}

fn opens_with(src: &[u8], e: &Expr, q: u8) -> (r: bool)
    ensures
        r == quote_opens(src@, *e, q),
{
    match &e.kind {
        ExprKind::Constant { value: Constant::Str(_) } => e.start < e.end && e.end <= src.len() && src[e.start] == q,
        _ => false,
    }
}

/// Whether the module mixes quote styles in its string literals.
pub fn detect_mixed_string_quotes(parsed: &ParsedFile) -> (r: Vec<Hit>)
    ensures
        hit_views(r@) == mixed_quotes_hits(src_bytes(*parsed), parsed.module),
{
    let src = parsed.source.as_str().as_bytes();
    let es = module_expressions(&parsed.module);
    let ghost xs = derefs(es@);
    let mut single = false;
    let mut double = false;
    let mut i: usize = 0;
    while i < es.len()
        invariant
            i <= es@.len(),
            xs == derefs(es@),
            xs == module_exprs(parsed.module),
            src@ == src_bytes(*parsed),
            single == (exists|j: int| 0 <= j < i && quote_opens(src@, #[trigger] xs[j], 39u8)),
            double == (exists|j: int| 0 <= j < i && quote_opens(src@, #[trigger] xs[j], 34u8)),
        decreases es@.len() - i,
    {
        proof {
            assert(xs[i as int] == *es@[i as int]);
        }
        if opens_with(src, es[i], 39u8) {
            single = true;
        }
        if opens_with(src, es[i], 34u8) {
            double = true;
        }
        i = i + 1;
    }
    let mut out: Vec<Hit> = Vec::new();
    if single && double {
        push_hit(&mut out, hit(Anchor::At(1, 1), "module mixes single- and double-quoted string literals"));
    }
    proof {
        assert(hit_views(out@) =~= mixed_quotes_hits(src@, parsed.module));
    }
    out
}

/// How many string literals among `es` have the value `v`.
pub open spec fn literal_count(es: Seq<Expr>, v: Seq<char>) -> int
    decreases es.len(),
{
    if es.len() == 0 {
        0
    } else {
        literal_count(es.drop_last(), v) + if str_value(es.last()) == Some(v) {
            1int
        } else {
            0int
        }
    }
}

/// The finding for the literal at index `i`: it is the first occurrence of
/// its value, and that value occurs three or more times.
pub open spec fn repeated_literal_hit(es: Seq<Expr>, i: int) -> Seq<HitView> {
    match str_value(es[i]) {
        Some(v) => if !(exists|j: int| 0 <= j < i && str_value(#[trigger] es[j]) == Some(v)) && literal_count(es, v)
            >= 3 {
            seq![
                hv(
                    Anchor::Offset(es[i].start),
                    "string literal `"@ + v + "` repeated "@ + decimal(literal_count(es, v) as nat) + " times"@,
                ),
            ]
        } else {
            Seq::empty()
        },
        None => Seq::empty(),
    }
}

/// The repeated-literal findings of the first `n` expressions.
pub open spec fn repeated_hits_upto(es: Seq<Expr>, n: int) -> Seq<HitView>
    decreases n,
{
    if n <= 0 {
        Seq::empty()
    } else {
        repeated_hits_upto(es, n - 1) + repeated_literal_hit(es, n - 1)
    }
}

/// One finding per string value used three or more times in the module, at
/// its first occurrence.
pub open spec fn repeated_literal_hits(m: Module) -> Seq<HitView> {
    repeated_hits_upto(module_exprs(m), module_exprs(m).len() as int)
}

fn count_literal(es: &Vec<&Expr>, v: &String) -> (r: usize)
    ensures
        r == literal_count(derefs(es@), v@),
{
    let ghost xs = derefs(es@);
    let mut n: usize = 0;
    let mut k: usize = 0;
    proof {
        lemma_take_ends(xs);
    }
    while k < es.len()
        invariant
            k <= es@.len(),
            xs == derefs(es@),
            n <= k,
            n == literal_count(xs.take(k as int), v@),
        decreases es@.len() - k,
    {
        proof {
            assert(xs.take(k + 1).drop_last() =~= xs.take(k as int));
            assert(xs.take(k + 1).last() == *es@[k as int]);
        }
        match &es[k].kind {
            ExprKind::Constant { value: Constant::Str(t) } => {
                if str_eq(t.as_str(), v.as_str()) {
                    n = n + 1;
                }
            },
            _ => {},
        }
        k = k + 1;
    }
    proof {
        lemma_take_ends(xs);
    }
    n
}

fn seen_before(es: &Vec<&Expr>, i: usize, v: &String) -> (r: bool)
    requires
        i <= es@.len(),
    ensures
        r == (exists|j: int| 0 <= j < i && str_value(#[trigger] derefs(es@)[j]) == Some(v@)),
{
    let ghost xs = derefs(es@);
    let mut j: usize = 0;
    while j < i
        invariant
            i <= es@.len(),
            xs == derefs(es@),
            j <= i,
            forall|k: int| 0 <= k < j ==> str_value(#[trigger] xs[k]) != Some(v@),
        decreases i - j,
    {
        proof {
            assert(xs[j as int] == *es@[j as int]);
        }
        match &es[j].kind {
            ExprKind::Constant { value: Constant::Str(t) } => {
                if str_eq(t.as_str(), v.as_str()) {
                    return true;
                }
            },
            _ => {},
        }
        j = j + 1;
    }
    false
}

/// String values repeated three or more times in the module.
pub fn detect_repeated_literal(m: &Module) -> (r: Vec<Hit>)
    ensures
        hit_views(r@) == repeated_literal_hits(*m),
{
    let es = module_expressions(m);
    let ghost xs = derefs(es@);
    let mut out: Vec<Hit> = Vec::new();
    let mut i: usize = 0;
    proof {
        assert(hit_views(out@) =~= Seq::<HitView>::empty());
    }
    while i < es.len()
        invariant
            i <= es@.len(),
            xs == derefs(es@),
            xs == module_exprs(*m),
            hit_views(out@) == repeated_hits_upto(xs, i as int),
        decreases es@.len() - i,
    {
        proof {
            assert(xs[i as int] == *es@[i as int]);
        }
        let e = es[i];
        match &e.kind {
            ExprKind::Constant { value: Constant::Str(t) } => {
                if !seen_before(&es, i, t) {
                    let n = count_literal(&es, t);
                    if n >= 3 {
                        let mut msg = concat3("string literal `", t.as_str(), "` repeated ");
                        crate::text::push_decimal(&mut msg, n);
                        push_str(&mut msg, " times");
                        push_hit(&mut out, Hit { anchor: Anchor::Offset(e.start), message: msg });
                    }
                }
            },
            _ => {},
        }
        proof {
            assert(hit_views(out@) =~= repeated_hits_upto(xs, i + 1));
        }
        i = i + 1;
    }
    out
}

} // verus!
