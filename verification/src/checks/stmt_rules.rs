//! Detectors that look at one statement at a time.
use vstd::prelude::*;
use vstd::utf8::encode_utf8;
use super::hit::{append_hits, concat3, hit, hit_views, hv, push_hit, Anchor, Hit, HitView};
use super::syntax::{
    bool_literal, called_name, expr_as_bool_constant, expr_name, is_call_to, is_mutable_expr, is_mutable_literal,
    is_name, is_none_constant, is_none_literal, is_not_none_test, last_meaningful, last_meaningful_stmt, name_of,
    not_none_test,
};
use crate::analysis::fold::lemma_take_ends;
use crate::parser::ast::{Arguments, CmpOp, Constant, ExceptHandler, Expr, ExprKind, Param, Stmt, StmtKind};
use crate::text::{ends_with, has_suffix, push_str, str_eq};

verus! {

/// No finding, or one finding with a fixed message at the statement.
pub open spec fn flag_hit(flag: bool, s: Stmt, message: Seq<char>) -> Seq<HitView> {
    if flag {
        seq![hv(Anchor::Offset(s.start), message)]
    } else {
        Seq::empty()
    }
}

/// One finding with a fixed message when `flag` holds.
fn flag_hits(flag: bool, at: usize, message: &str) -> (r: Vec<Hit>)
    ensures
        hit_views(r@) == if flag {
            seq![hv(Anchor::Offset(at), message@)]
        } else {
            Seq::<HitView>::empty()
        },
{
    let mut out: Vec<Hit> = Vec::new();
    proof {
        assert(hit_views(out@) =~= Seq::<HitView>::empty());
    }
    if flag {
        push_hit(&mut out, hit(Anchor::Offset(at), message));
        proof {
            assert(hit_views(out@) =~= seq![hv(Anchor::Offset(at), message@)]);
        }
    }
    out
}

// ---------------------------------------------------------------------------
// `assert`, constant conditions
// ---------------------------------------------------------------------------

/// An `assert` statement (stripped under `python -O`).
pub open spec fn assert_hits(s: Stmt) -> Seq<HitView> {
    flag_hit(s.kind is Assert, s, "assert statement may be stripped in optimized mode"@)
}

pub fn detect_assert(s: &Stmt) -> (r: Vec<Hit>)
    ensures
        hit_views(r@) == assert_hits(*s),
{
    let flag = match &s.kind {
        StmtKind::Assert { .. } => true,
        _ => false,
    };
    flag_hits(flag, s.start, "assert statement may be stripped in optimized mode")
}

/// An `if` whose condition is the literal `True` or `False`.
pub open spec fn dead_branch_hits(s: Stmt) -> Seq<HitView> {
    flag_hit(
        s.kind matches StmtKind::If { test, .. } && bool_literal(test) is Some,
        s,
        "constant boolean condition suggests generated or placeholder branch"@,
    )
}

pub fn detect_generated_dead_branch(s: &Stmt) -> (r: Vec<Hit>)
    ensures
        hit_views(r@) == dead_branch_hits(*s),
{
    let flag = match &s.kind {
        StmtKind::If { test, .. } => expr_as_bool_constant(test).is_some(),
        _ => false,
    };
    flag_hits(flag, s.start, "constant boolean condition suggests generated or placeholder branch")
}

// ---------------------------------------------------------------------------
// Classes
// ---------------------------------------------------------------------------

/// Some decorator is the bare name `dataclass`.
pub open spec fn has_dataclass_decorator(ds: Seq<Expr>) -> bool {
    exists|i: int| 0 <= i < ds.len() && name_of(#[trigger] ds[i]) == Some("dataclass"@)
}

/// Every statement is `pass`.
pub open spec fn all_pass(b: Seq<Stmt>) -> bool {
    forall|i: int| 0 <= i < b.len() ==> (#[trigger] b[i]).kind is Pass
}

/// A `@dataclass` class whose body is only `pass` statements.
pub open spec fn dataclass_hits(s: Stmt) -> Seq<HitView> {
    match s.kind {
        StmtKind::ClassDef { name, body, decorators } => if has_dataclass_decorator(decorators@) && body@.len() > 0
            && all_pass(body@) {
            seq![hv(Anchor::Offset(s.start), "dataclass `"@ + name@ + "` has no behavior beyond pass"@)]
        } else {
            Seq::empty()
        },
        _ => Seq::empty(),
    }
}

fn dataclass_decorated(ds: &Vec<Expr>) -> (r: bool)
    ensures
        r == has_dataclass_decorator(ds@),
{
    let mut i: usize = 0;
    while i < ds.len()
        invariant
            i <= ds@.len(),
            forall|j: int| 0 <= j < i ==> name_of(#[trigger] ds@[j]) != Some("dataclass"@),
        decreases ds@.len() - i,
    {
        if is_name(&ds[i], "dataclass") {
            return true;
        }
        i = i + 1;
    }
    false
}

/// Whether a block holds only `pass` statements.
fn only_pass(b: &Vec<Stmt>) -> (r: bool)
    ensures
        r == all_pass(b@),
{
    let mut i: usize = 0;
    while i < b.len()
        invariant
            i <= b@.len(),
            forall|j: int| 0 <= j < i ==> (#[trigger] b@[j]).kind is Pass,
        decreases b@.len() - i,
    {
        match &b[i].kind {
            StmtKind::Pass => {},
            _ => {
                return false;
            },
        }
        i = i + 1;
    }
    true
}

pub fn detect_dataclass_without_behavior(s: &Stmt) -> (r: Vec<Hit>)
    ensures
        hit_views(r@) == dataclass_hits(*s),
{
    let mut out: Vec<Hit> = Vec::new();
    proof {
        assert(hit_views(out@) =~= Seq::<HitView>::empty());
    }
    match &s.kind {
        StmtKind::ClassDef { name, body, decorators } => {
            if dataclass_decorated(decorators) && body.len() > 0 && only_pass(body) {
                let m = concat3("dataclass `", name.as_str(), "` has no behavior beyond pass");
                push_hit(&mut out, Hit { anchor: Anchor::Offset(s.start), message: m });
                proof {
                    assert(hit_views(out@) =~= dataclass_hits(*s));
                }
            }
        },
        _ => {},
    }
    out
}

/// The class-name suffixes that suggest defensive layering.
pub open spec fn defensive_suffixes() -> Seq<Seq<char>> {
    seq!["Factory"@, "Builder"@, "Strategy"@]
}

/// One finding per defensive suffix, in order, that the class name ends with.
pub open spec fn suffix_hits(s: Stmt, name: Seq<char>, sfx: Seq<Seq<char>>) -> Seq<HitView>
    decreases sfx.len(),
{
    if sfx.len() == 0 {
        Seq::empty()
    } else {
        suffix_hits(s, name, sfx.drop_last()) + if has_suffix(name, sfx.last()) {
            seq![hv(Anchor::Offset(s.start), "class `"@ + name + "` uses defensive suffix `"@ + sfx.last() + "`"@)]
        } else {
            Seq::empty()
        }
    }
}

/// A class named with a `Factory`, `Builder` or `Strategy` suffix.
pub open spec fn defensive_suffix_hits(s: Stmt) -> Seq<HitView> {
    match s.kind {
        StmtKind::ClassDef { name, .. } => suffix_hits(s, name@, defensive_suffixes()),
        _ => Seq::empty(),
    }
}

fn push_suffix_hit(out: &mut Vec<Hit>, at: usize, name: &String, sfx: &str)
    ensures
        hit_views(final(out)@) == hit_views(old(out)@) + if has_suffix(name@, sfx@) {
            seq![hv(Anchor::Offset(at), "class `"@ + name@ + "` uses defensive suffix `"@ + sfx@ + "`"@)]
        } else {
            Seq::<HitView>::empty()
        },
{
    if ends_with(name.as_str(), sfx) {
        let mut m = concat3("class `", name.as_str(), "` uses defensive suffix `");
        push_str(&mut m, sfx);
        push_str(&mut m, "`");
        let h = Hit { anchor: Anchor::Offset(at), message: m };
        let ghost before = hit_views(out@);
        push_hit(out, h);
        proof {
            assert(h@.message =~= "class `"@ + name@ + "` uses defensive suffix `"@ + sfx@ + "`"@);
            assert(hit_views(out@) =~= before + seq![h@]);
        }
    } else {
        proof {
            assert(hit_views(out@) + Seq::<HitView>::empty() =~= hit_views(out@));
        }
    }
}

pub fn detect_defensive_naming_suffix(s: &Stmt) -> (r: Vec<Hit>)
    ensures
        hit_views(r@) == defensive_suffix_hits(*s),
{
    let mut out: Vec<Hit> = Vec::new();
    proof {
        assert(hit_views(out@) =~= Seq::<HitView>::empty());
    }
    match &s.kind {
        StmtKind::ClassDef { name, .. } => {
            let ghost sfx = defensive_suffixes();
            proof {
                assert(sfx.take(0) =~= Seq::<Seq<char>>::empty());
                assert(sfx.take(1).drop_last() =~= sfx.take(0));
                assert(sfx.take(2).drop_last() =~= sfx.take(1));
                assert(sfx.take(3).drop_last() =~= sfx.take(2));
                assert(sfx.take(3) =~= sfx);
                assert(suffix_hits(*s, name@, sfx.take(0)) =~= Seq::<HitView>::empty());
                assert(hit_views(out@) =~= suffix_hits(*s, name@, sfx.take(0)));
            }
            push_suffix_hit(&mut out, s.start, name, "Factory");
            proof {
                assert(sfx.take(1).last() == "Factory"@);
                assert(hit_views(out@) =~= suffix_hits(*s, name@, sfx.take(1)));
            }
            push_suffix_hit(&mut out, s.start, name, "Builder");
            proof {
                assert(sfx.take(2).last() == "Builder"@);
                assert(hit_views(out@) =~= suffix_hits(*s, name@, sfx.take(2)));
            }
            push_suffix_hit(&mut out, s.start, name, "Strategy");
            proof {
                assert(sfx.take(3).last() == "Strategy"@);
                assert(hit_views(out@) =~= suffix_hits(*s, name@, sfx.take(3)));
            }
        },
        _ => {},
    }
    out
}

// ---------------------------------------------------------------------------
// Assignments
// ---------------------------------------------------------------------------

/// One finding per assignment target that is a bare name of at most two bytes.
pub open spec fn short_name_hits(s: Stmt, ts: Seq<Expr>) -> Seq<HitView>
    decreases ts.len(),
{
    if ts.len() == 0 {
        Seq::empty()
    } else {
        short_name_hits(s, ts.drop_last()) + match name_of(ts.last()) {
            Some(id) => if encode_utf8(id).len() <= 2 {
                seq![hv(Anchor::Offset(s.start), "very short variable name `"@ + id + "`"@)]
            } else {
                Seq::empty()
            },
            None => Seq::empty(),
        }
    }
}

/// Assignments to very short names.
pub open spec fn short_variable_hits(s: Stmt) -> Seq<HitView> {
    match s.kind {
        StmtKind::Assign { targets, .. } => short_name_hits(s, targets@),
        _ => Seq::empty(),
    }
}

pub fn detect_short_variable_names(s: &Stmt) -> (r: Vec<Hit>)
    ensures
        hit_views(r@) == short_variable_hits(*s),
{
    let mut out: Vec<Hit> = Vec::new();
    proof {
        assert(hit_views(out@) =~= Seq::<HitView>::empty());
    }
    match &s.kind {
        StmtKind::Assign { targets, .. } => {
            let mut i: usize = 0;
            proof {
                lemma_take_ends(targets@);
            }
            while i < targets.len()
                invariant
                    i <= targets@.len(),
                    hit_views(out@) == short_name_hits(*s, targets@.take(i as int)),
                decreases targets@.len() - i,
            {
                proof {
                    assert(targets@.take(i + 1).drop_last() =~= targets@.take(i as int));
                    assert(targets@.take(i + 1).last() == targets@[i as int]);
                }
                match expr_name(&targets[i]) {
                    Some(id) => {
                        if id.as_str().as_bytes().len() <= 2 {
                            let h = Hit { anchor: Anchor::Offset(s.start), message: concat3("very short variable name `", id.as_str(), "`") };
                            push_hit(&mut out, h);
                            proof {
                                assert(hit_views(out@) =~= short_name_hits(*s, targets@.take(i + 1)));
                            }
                        } else {
                            proof {
                                assert(hit_views(out@) =~= short_name_hits(*s, targets@.take(i + 1)));
                            }
                        }
                    },
                    None => {
                        proof {
                            assert(hit_views(out@) =~= short_name_hits(*s, targets@.take(i + 1)));
                        }
                    },
                }
                i = i + 1;
            }
            proof {
                lemma_take_ends(targets@);
            }
        },
        _ => {},
    }
    out
}

// ---------------------------------------------------------------------------
// `if` shapes
// ---------------------------------------------------------------------------

/// The block's last statement other than `pass` is a `return`.
pub open spec fn ends_with_return(b: Seq<Stmt>) -> bool {
    last_meaningful(b) matches Some(st) && st.kind is Return
}

fn block_ends_with_return(b: &Vec<Stmt>) -> (r: bool)
    ensures
        r == ends_with_return(b@),
{
    match last_meaningful_stmt(b) {
        Some(k) => match &b[k].kind {
            StmtKind::Return { .. } => true,
            _ => false,
        },
        None => false,
    }
}

/// An `if` with an `else` whose `if` branch ends in `return`.
pub open spec fn else_after_return_hits(s: Stmt) -> Seq<HitView> {
    flag_hit(
        s.kind matches StmtKind::If { body, orelse, .. } && orelse@.len() > 0 && ends_with_return(body@),
        s,
        "if branch returns but is followed by else; else may be unnecessary"@,
    )
}

pub fn detect_unnecessary_else_after_return(s: &Stmt) -> (r: Vec<Hit>)
    ensures
        hit_views(r@) == else_after_return_hits(*s),
{
    let flag = match &s.kind {
        StmtKind::If { body, orelse, .. } => orelse.len() > 0 && block_ends_with_return(body),
        _ => false,
    };
    flag_hits(flag, s.start, "if branch returns but is followed by else; else may be unnecessary")
}

/// An `if` without `else` whose body is a single `if` without `else`.
pub open spec fn collapsible_if_hits(s: Stmt) -> Seq<HitView> {
    flag_hit(
        s.kind matches StmtKind::If { body, orelse, .. } && orelse@.len() == 0 && body@.len() == 1 && (body@[0].kind matches StmtKind::If { orelse: inner_else, .. } && inner_else@.len() == 0),
        s,
        "nested if without else can be collapsed with `and`"@,
    )
}

pub fn detect_collapsible_if(s: &Stmt) -> (r: Vec<Hit>)
    ensures
        hit_views(r@) == collapsible_if_hits(*s),
{
    let flag = match &s.kind {
        StmtKind::If { body, orelse, .. } => orelse.len() == 0 && body.len() == 1 && match &body[0].kind {
            StmtKind::If { orelse: inner_else, .. } => inner_else.len() == 0,
            _ => false,
        },
        _ => false,
    };
    flag_hits(flag, s.start, "nested if without else can be collapsed with `and`")
}

/// How complex a condition reads: operands of an `and`/`or` chain, the
/// comparisons of a comparison chain (one more when it starts with
/// `is`/`is not`), the operand of a unary operator; 1 otherwise.
pub open spec fn condition_complexity(e: Expr) -> int
    decreases e,
{
    match e.kind {
        ExprKind::BoolOp { values } => if values@.len() == 0 {
            1
        } else {
            values@.len() as int
        },
        ExprKind::Compare { ops, comparators, .. } => comparators@.len() + if ops@.len() > 0 && (ops@[0]
            == CmpOp::Is || ops@[0] == CmpOp::IsNot) {
            1int
        } else {
            0int
        },
        ExprKind::UnaryOp { operand } => condition_complexity(*operand),
        _ => 1,
    }
}

fn bool_expression_complexity(e: &Expr) -> (r: usize)
    ensures
        r == crate::analysis::metrics::sat(condition_complexity(*e)),
    decreases e,
{
    match &e.kind {
        ExprKind::BoolOp { values } => values.len().saturating_sub(1) + 1,
        ExprKind::Compare { ops, comparators, .. } => {
            let mut n = comparators.len();
            if ops.len() > 0 && (ops[0] == CmpOp::Is || ops[0] == CmpOp::IsNot) {
                n = n.saturating_add(1);
            }
            n
        },
        ExprKind::UnaryOp { operand } => bool_expression_complexity(operand),
        _ => 1,
    }
}

/// An `if` whose condition has complexity 3 or more.
pub open spec fn extractable_condition_hits(s: Stmt) -> Seq<HitView> {
    flag_hit(
        s.kind matches StmtKind::If { test, .. } && crate::analysis::metrics::sat(condition_complexity(test)) >= 3,
        s,
        "complex if condition may be clearer as a named boolean variable"@,
    )
}

pub fn detect_extractable_condition(s: &Stmt) -> (r: Vec<Hit>)
    ensures
        hit_views(r@) == extractable_condition_hits(*s),
{
    let flag = match &s.kind {
        StmtKind::If { test, .. } => bool_expression_complexity(test) >= 3,
        _ => false,
    };
    flag_hits(flag, s.start, "complex if condition may be clearer as a named boolean variable")
}

/// The block's last statement other than `pass` returns the bare name `n`.
pub open spec fn returns_name(b: Seq<Stmt>, n: Seq<char>) -> bool {
    last_meaningful(b) matches Some(st) && st.kind matches StmtKind::Return { value: Some(v) } && name_of(v)
        == Some(n)
}

fn branch_returns_name(b: &Vec<Stmt>, n: &String) -> (r: bool)
    ensures
        r == returns_name(b@, n@),
{
    match last_meaningful_stmt(b) {
        Some(k) => match &b[k].kind {
            StmtKind::Return { value: Some(v) } => is_name(v, n.as_str()),
            _ => false,
        },
        None => false,
    }
}

/// `if x is not None: return x`.
pub open spec fn reject_none_hits(s: Stmt) -> Seq<HitView> {
    match s.kind {
        StmtKind::If { test, body, .. } => match not_none_test(test) {
            Some(n) => if returns_name(body@, n) {
                seq![hv(Anchor::Offset(s.start), "`if "@ + n + " is not None: return "@ + n + "` can often be simplified"@)]
            } else {
                Seq::empty()
            },
            None => Seq::empty(),
        },
        _ => Seq::empty(),
    }
}

pub fn detect_reject_none_guard(s: &Stmt) -> (r: Vec<Hit>)
    ensures
        hit_views(r@) == reject_none_hits(*s),
{
    let mut out: Vec<Hit> = Vec::new();
    proof {
        assert(hit_views(out@) =~= Seq::<HitView>::empty());
    }
    match &s.kind {
        StmtKind::If { test, body, .. } => match is_not_none_test(test) {
            Some(n) => {
                if branch_returns_name(body, n) {
                    let mut m = concat3("`if ", n.as_str(), " is not None: return ");
                    push_str(&mut m, n.as_str());
                    push_str(&mut m, "` can often be simplified");
                    push_hit(&mut out, Hit { anchor: Anchor::Offset(s.start), message: m });
                    proof {
                        assert(hit_views(out@) =~= reject_none_hits(*s));
                    }
                }
            },
            None => {},
        },
        _ => {},
    }
    out
}

// ---------------------------------------------------------------------------
// Functions
// ---------------------------------------------------------------------------

/// The name of the only positional parameter, when there is exactly one
/// (positional-only or ordinary).
pub open spec fn single_positional(a: Arguments) -> Option<Seq<char>> {
    if a.posonlyargs@.len() + a.args@.len() != 1 {
        None
    } else if a.posonlyargs@.len() == 1 {
        Some(a.posonlyargs@[0].name@)
    } else {
        Some(a.args@[0].name@)
    }
}

/// Statements of a block other than `pass`.
pub open spec fn non_pass_count(b: Seq<Stmt>) -> int
    decreases b.len(),
{
    if b.len() == 0 {
        0
    } else {
        non_pass_count(b.drop_last()) + if b.last().kind is Pass {
            0int
        } else {
            1int
        }
    }
}

fn count_non_pass(b: &Vec<Stmt>) -> (r: usize)
    ensures
        r == non_pass_count(b@),
{
    let mut n: usize = 0;
    let mut i: usize = 0;
    proof {
        lemma_take_ends(b@);
    }
    while i < b.len()
        invariant
            i <= b@.len(),
            n <= i,
            n == non_pass_count(b@.take(i as int)),
        decreases b@.len() - i,
    {
        proof {
            assert(b@.take(i + 1).drop_last() =~= b@.take(i as int));
            assert(b@.take(i + 1).last() == b@[i as int]);
        }
        match &b[i].kind {
            StmtKind::Pass => {},
            _ => {
                n = n + 1;
            },
        }
        i = i + 1;
    }
    proof {
        lemma_take_ends(b@);
    }
    n
}

/// A function of one positional parameter that only returns it.
pub open spec fn identity_passthrough_hits(s: Stmt) -> Seq<HitView> {
    match s.kind {
        StmtKind::FunctionDef { name, args, body, .. } => match single_positional(args) {
            Some(p) => if returns_name(body@, p) && non_pass_count(body@) == 1 {
                seq![hv(Anchor::Offset(s.start), "function `"@ + name@ + "` only returns its single argument"@)]
            } else {
                Seq::empty()
            },
            None => Seq::empty(),
        },
        _ => Seq::empty(),
    }
}

fn single_positional_arg(a: &Arguments) -> (r: Option<&String>)
    ensures
        match r {
            Some(p) => single_positional(*a) == Some(p@),
            None => single_positional(*a) is None,
        },
{
    let np = a.posonlyargs.len();
    let na = a.args.len();
    if np == 1 && na == 0 {
        Some(&a.posonlyargs[0].name)
    } else if np == 0 && na == 1 {
        Some(&a.args[0].name)
    } else {
        None
    }
}

pub fn detect_identity_passthrough(s: &Stmt) -> (r: Vec<Hit>)
    ensures
        hit_views(r@) == identity_passthrough_hits(*s),
{
    let mut out: Vec<Hit> = Vec::new();
    proof {
        assert(hit_views(out@) =~= Seq::<HitView>::empty());
    }
    match &s.kind {
        StmtKind::FunctionDef { name, args, body, .. } => match single_positional_arg(args) {
            Some(p) => {
                if branch_returns_name(body, p) && count_non_pass(body) == 1 {
                    let m = concat3("function `", name.as_str(), "` only returns its single argument");
                    push_hit(&mut out, Hit { anchor: Anchor::Offset(s.start), message: m });
                    proof {
                        assert(hit_views(out@) =~= identity_passthrough_hits(*s));
                    }
                }
            },
            None => {},
        },
        _ => {},
    }
    out
}

/// A function whose whole body is `return <call>`.
pub open spec fn empty_wrapper_hits(s: Stmt) -> Seq<HitView> {
    match s.kind {
        StmtKind::FunctionDef { name, body, .. } => if body@.len() == 1 && (body@[0].kind matches StmtKind::Return {
            value: Some(v),
        } && v.kind is Call) {
            seq![hv(Anchor::Offset(s.start), "function `"@ + name@ + "` only wraps another call"@)]
        } else {
            Seq::empty()
        },
        _ => Seq::empty(),
    }
}

pub fn detect_empty_wrapper_function(s: &Stmt) -> (r: Vec<Hit>)
    ensures
        hit_views(r@) == empty_wrapper_hits(*s),
{
    let mut out: Vec<Hit> = Vec::new();
    proof {
        assert(hit_views(out@) =~= Seq::<HitView>::empty());
    }
    match &s.kind {
        StmtKind::FunctionDef { name, body, .. } => {
            let wraps = body.len() == 1 && match &body[0].kind {
                StmtKind::Return { value: Some(v) } => match &v.kind {
                    ExprKind::Call { .. } => true,
                    _ => false,
                },
                _ => false,
            };
            if wraps {
                let m = concat3("function `", name.as_str(), "` only wraps another call");
                push_hit(&mut out, Hit { anchor: Anchor::Offset(s.start), message: m });
                proof {
                    assert(hit_views(out@) =~= empty_wrapper_hits(*s));
                }
            }
        },
        _ => {},
    }
    out
}

/// Some parameter has a mutable literal as its default.
pub open spec fn params_have_mutable_default(ps: Seq<Param>) -> bool {
    exists|i: int| 0 <= i < ps.len() && ((#[trigger] ps[i]).default matches Some(d) && is_mutable_literal(d))
}

/// Some positional-only, ordinary or keyword-only parameter has a mutable
/// literal as its default.
pub open spec fn mutable_defaults(a: Arguments) -> bool {
    params_have_mutable_default(a.posonlyargs@) || params_have_mutable_default(a.args@)
        || params_have_mutable_default(a.kwonlyargs@)
}

fn params_mutable_default(ps: &Vec<Param>) -> (r: bool)
    ensures
        r == params_have_mutable_default(ps@),
{
    let mut i: usize = 0;
    while i < ps.len()
        invariant
            i <= ps@.len(),
            forall|j: int| 0 <= j < i ==> !((#[trigger] ps@[j]).default matches Some(d) && is_mutable_literal(d)),
        decreases ps@.len() - i,
    {
        match &ps[i].default {
            Some(d) => {
                if is_mutable_expr(d) {
                    return true;
                }
            },
            None => {},
        }
        i = i + 1;
    }
    false
}

/// Whether a parameter list has a mutable default.
pub fn has_mutable_defaults(a: &Arguments) -> (r: bool)
    ensures
        r == mutable_defaults(*a),
{
    params_mutable_default(&a.posonlyargs) || params_mutable_default(&a.args) || params_mutable_default(
        &a.kwonlyargs,
    )
}

/// A function with a mutable default argument.
pub open spec fn mutable_default_hits(s: Stmt) -> Seq<HitView> {
    match s.kind {
        StmtKind::FunctionDef { name, args, .. } => if mutable_defaults(args) {
            seq![hv(Anchor::Offset(s.start), "function `"@ + name@ + "` uses a mutable default argument"@)]
        } else {
            Seq::empty()
        },
        _ => Seq::empty(),
    }
}

/// A list, dict or set display, or a list, dict or set comprehension.
pub open spec fn is_collection_display(e: Expr) -> bool {
    match e.kind {
        ExprKind::List { .. } | ExprKind::Dict { .. } | ExprKind::SetExpr { .. } | ExprKind::ListComp { .. }
        | ExprKind::DictComp { .. } | ExprKind::SetComp { .. } => true,
        _ => false,
    }
}

/// A function one of whose parameters (positional-only, ordinary or
/// keyword-only) defaults to a list, dict or set display or comprehension,
/// such as `def configure(opts={})`, is reported exactly once, at the
/// function, as using a mutable default argument.
pub proof fn law_collection_defaults_are_reported(s: Stmt, ps: Seq<Param>, i: int, d: Expr)
    requires
        s.kind matches StmtKind::FunctionDef { args, .. } && (ps == args.posonlyargs@ || ps == args.args@ || ps
            == args.kwonlyargs@),
        0 <= i < ps.len(),
        ps[i].default == Some(d),
        is_collection_display(d),
    ensures
        mutable_default_hits(s).len() == 1,
        mutable_default_hits(s)[0].anchor == Anchor::Offset(s.start),
        s.kind matches StmtKind::FunctionDef { name, .. } && mutable_default_hits(s)[0].message == "function `"@
            + name@ + "` uses a mutable default argument"@,
{
    assert(is_mutable_literal(d));
    assert(params_have_mutable_default(ps));
}

/// Some parameter of the list defaults to a collection display.
pub open spec fn some_default_is_a_display(ps: Seq<Param>) -> bool {
    exists|i: int| 0 <= i < ps.len() && ((#[trigger] ps[i]).default matches Some(d) && is_collection_display(d))
}

/// Exactly the functions with a parameter defaulting to a list, dict or set
/// display or comprehension are reported: a default such as `None`, a
/// number, a string, a tuple or a call reports nothing, and a function with
/// no such default has no finding.
pub proof fn law_only_collection_defaults_are_reported(s: Stmt)
    ensures
        mutable_default_hits(s).len() <= 1,
        mutable_default_hits(s).len() == 1 <==> (s.kind matches StmtKind::FunctionDef { args, .. } && (
        some_default_is_a_display(args.posonlyargs@) || some_default_is_a_display(args.args@)
            || some_default_is_a_display(args.kwonlyargs@))),
{
    assert forall|e: Expr| is_mutable_literal(e) == is_collection_display(e) by {}
    match s.kind {
        StmtKind::FunctionDef { args, .. } => {
            assert(params_have_mutable_default(args.posonlyargs@) == some_default_is_a_display(args.posonlyargs@));
            assert(params_have_mutable_default(args.args@) == some_default_is_a_display(args.args@));
            assert(params_have_mutable_default(args.kwonlyargs@) == some_default_is_a_display(args.kwonlyargs@));
        },
        _ => {},
    }
}

pub fn detect_mutable_default(s: &Stmt) -> (r: Vec<Hit>)
    ensures
        hit_views(r@) == mutable_default_hits(*s),
{
    let mut out: Vec<Hit> = Vec::new();
    proof {
        assert(hit_views(out@) =~= Seq::<HitView>::empty());
    }
    match &s.kind {
        StmtKind::FunctionDef { name, args, .. } => {
            if has_mutable_defaults(args) {
                let m = concat3("function `", name.as_str(), "` uses a mutable default argument");
                push_hit(&mut out, Hit { anchor: Anchor::Offset(s.start), message: m });
                proof {
                    assert(hit_views(out@) =~= mutable_default_hits(*s));
                }
            }
        },
        _ => {},
    }
    out
}

// ---------------------------------------------------------------------------
// Loops and raises
// ---------------------------------------------------------------------------

/// One finding per `+=` directly in a loop body.
pub open spec fn aug_add_hits(b: Seq<Stmt>) -> Seq<HitView>
    decreases b.len(),
{
    if b.len() == 0 {
        Seq::empty()
    } else {
        aug_add_hits(b.drop_last()) + if b.last().kind matches StmtKind::AugAssign { op_add: true, .. } {
            seq![hv(Anchor::Offset(b.last().start), "string concatenation with += in a loop; prefer `str.join`"@)]
        } else {
            Seq::empty()
        }
    }
}

/// `+=` inside a (non-async) `for` loop body.
pub open spec fn string_join_hits(s: Stmt) -> Seq<HitView> {
    match s.kind {
        StmtKind::For { is_async: false, body, .. } => aug_add_hits(body@),
        _ => Seq::empty(),
    }
}

pub fn detect_manual_string_join_in_loop(s: &Stmt) -> (r: Vec<Hit>)
    ensures
        hit_views(r@) == string_join_hits(*s),
{
    let mut out: Vec<Hit> = Vec::new();
    proof {
        assert(hit_views(out@) =~= Seq::<HitView>::empty());
    }
    match &s.kind {
        StmtKind::For { is_async: false, body, .. } => {
            let mut i: usize = 0;
            proof {
                lemma_take_ends(body@);
            }
            while i < body.len()
                invariant
                    i <= body@.len(),
                    hit_views(out@) == aug_add_hits(body@.take(i as int)),
                decreases body@.len() - i,
            {
                proof {
                    assert(body@.take(i + 1).drop_last() =~= body@.take(i as int));
                    assert(body@.take(i + 1).last() == body@[i as int]);
                }
                let st = &body[i];
                match &st.kind {
                    StmtKind::AugAssign { op_add: true, .. } => {
                        push_hit(&mut out, hit(Anchor::Offset(st.start), "string concatenation with += in a loop; prefer `str.join`"));
                        proof {
                            assert(hit_views(out@) =~= aug_add_hits(body@.take(i + 1)));
                        }
                    },
                    _ => {
                        proof {
                            assert(hit_views(out@) =~= aug_add_hits(body@.take(i + 1)));
                        }
                    },
                }
                i = i + 1;
            }
            proof {
                lemma_take_ends(body@);
            }
        },
        _ => {},
    }
    out
}

/// Some statement directly in the block is an `if` on `x is not None`.
pub open spec fn has_not_none_if(b: Seq<Stmt>) -> bool {
    exists|i: int| 0 <= i < b.len() && ((#[trigger] b[i]).kind matches StmtKind::If { test, .. } && not_none_test(test) is Some)
}

/// A (non-async) `for` loop whose body filters with `if x is not None`.
pub open spec fn loop_filter_none_hits(s: Stmt) -> Seq<HitView> {
    flag_hit(
        s.kind matches StmtKind::For { is_async: false, body, .. } && has_not_none_if(body@),
        s,
        "loop filters with `is not None`; consider filter(None, ...)"@,
    )
}

fn not_none_if_in(b: &Vec<Stmt>) -> (r: bool)
    ensures
        r == has_not_none_if(b@),
{
    let mut i: usize = 0;
    while i < b.len()
        invariant
            i <= b@.len(),
            forall|j: int| 0 <= j < i ==> !((#[trigger] b@[j]).kind matches StmtKind::If { test, .. } && not_none_test(test) is Some),
        decreases b@.len() - i,
    {
        match &b[i].kind {
            StmtKind::If { test, .. } => {
                if is_not_none_test(test).is_some() {
                    return true;
                }
            },
            _ => {},
        }
        i = i + 1;
    }
    false
}

pub fn detect_loop_filter_none(s: &Stmt) -> (r: Vec<Hit>)
    ensures
        hit_views(r@) == loop_filter_none_hits(*s),
{
    let flag = match &s.kind {
        StmtKind::For { is_async: false, body, .. } => not_none_if_in(body),
        _ => false,
    };
    flag_hits(flag, s.start, "loop filters with `is not None`; consider filter(None, ...)")
}

/// Exception messages too generic to act on (compared ignoring ASCII case).
pub open spec fn generic_messages() -> Seq<Seq<char>> {
    seq!["error"@, "failed"@, "something went wrong"@, "an error occurred"@]
}

/// The code of a character with ASCII capitals lowered.
pub open spec fn lower_code(c: char) -> u32 {
    if 'A' <= c && c <= 'Z' {
        (c as u32 + 32) as u32
    } else {
        c as u32
    }
}

/// Equality ignoring ASCII case.
pub open spec fn eq_ignore_ascii_case(a: Seq<char>, b: Seq<char>) -> bool {
    a.len() == b.len() && forall|i: int| 0 <= i < a.len() ==> lower_code(#[trigger] a[i]) == lower_code(b[i])
}

fn lower_of(c: char) -> (r: u32)
    ensures
        r == lower_code(c),
{
    if 'A' <= c && c <= 'Z' {
        c as u32 + 32
    } else {
        c as u32
    }
}

/// Whether two strings are equal ignoring ASCII case.
pub fn same_ignoring_case(a: &str, b: &str) -> (r: bool)
    ensures
        r == eq_ignore_ascii_case(a@, b@),
{
    let x = crate::text::chars_of(a);
    let y = crate::text::chars_of(b);
    if x.len() != y.len() {
        return false;
    }
    let mut i: usize = 0;
    while i < x.len()
        invariant
            x@ == a@,
            y@ == b@,
            x@.len() == y@.len(),
            i <= x@.len(),
            forall|j: int| 0 <= j < i ==> lower_code(#[trigger] x@[j]) == lower_code(y@[j]),
        decreases x@.len() - i,
    {
        if lower_of(x[i]) != lower_of(y[i]) {
            return false;
        }
        i = i + 1;
    }
    true
}

/// The first argument, when it is a string literal.
pub open spec fn first_string_arg(args: Seq<Expr>) -> Option<Seq<char>> {
    if args.len() > 0 {
        match args[0].kind {
            ExprKind::Constant { value: Constant::Str(t) } => Some(t@),
            _ => None,
        }
    } else {
        None
    }
}

/// The generic message raised by `raise Exception("<generic>")`, if any.
pub open spec fn generic_raise(s: Stmt) -> Option<Seq<char>> {
    match s.kind {
        StmtKind::Raise { exc: Some(e), .. } => match e.kind {
            ExprKind::Call { func, args, .. } => if name_of(*func) == Some("Exception"@) {
                match first_string_arg(args@) {
                    Some(m) => if exists|k: int| 0 <= k < 4 && eq_ignore_ascii_case(m, #[trigger] generic_messages()[k]) {
                        Some(m)
                    } else {
                        None
                    },
                    None => None,
                }
            } else {
                None
            },
            _ => None,
        },
        _ => None,
    }
}

/// `raise Exception("error")` and similar generic messages.
pub open spec fn generic_exception_hits(s: Stmt) -> Seq<HitView> {
    match generic_raise(s) {
        Some(m) => seq![hv(Anchor::Offset(s.start), "generic exception message `"@ + m + "`"@)],
        None => Seq::empty(),
    }
}

pub fn detect_generic_exception_message(s: &Stmt) -> (r: Vec<Hit>)
    ensures
        hit_views(r@) == generic_exception_hits(*s),
{
    let mut out: Vec<Hit> = Vec::new();
    proof {
        assert(hit_views(out@) =~= Seq::<HitView>::empty());
    }
    match &s.kind {
        StmtKind::Raise { exc: Some(e), .. } => match &e.kind {
            ExprKind::Call { func, args, .. } => {
                if is_name(func, "Exception") && args.len() > 0 {
                    match &args[0].kind {
                        ExprKind::Constant { value: Constant::Str(t) } => {
                            let g = same_ignoring_case(t.as_str(), "error") || same_ignoring_case(t.as_str(), "failed")
                                || same_ignoring_case(t.as_str(), "something went wrong") || same_ignoring_case(
                                t.as_str(),
                                "an error occurred",
                            );
                            proof {
                                let gm = generic_messages();
                                assert(gm[0] == "error"@);
                                assert(gm[1] == "failed"@);
                                assert(gm[2] == "something went wrong"@);
                                assert(gm[3] == "an error occurred"@);
                                if !g {
                                    assert forall|k: int| 0 <= k < 4 implies !eq_ignore_ascii_case(t@, #[trigger] gm[k]) by {
                                        if k == 0 {} else if k == 1 {} else if k == 2 {} else {}
                                    }
                                }
                            }
                            if g {
                                let m = concat3("generic exception message `", t.as_str(), "`");
                                push_hit(&mut out, Hit { anchor: Anchor::Offset(s.start), message: m });
                            }
                            proof {
                                assert(hit_views(out@) =~= generic_exception_hits(*s));
                            }
                        },
                        _ => {},
                    }
                }
            },
            _ => {},
        },
        _ => {},
    }
    out
}

// ---------------------------------------------------------------------------
// `except` handlers
// ---------------------------------------------------------------------------

/// What a handler-level detector looks for.
#[derive(Clone, Copy, PartialEq, Eq, Structural)]
pub enum HandlerRule {
    /// `except BaseException:`.
    BroadExcept,
    /// `except:` with no type.
    BareExcept,
    /// A handler whose body is only `pass`: any handler, or typed handlers
    /// only.
    OnlyPass { typed_only: bool },
    /// `except Exception:`.
    BlanketException,
    /// A handler that ends by returning `None`.
    SilentFallback,
    /// `except:`, `except Exception:` or `except BaseException:`.
    BroadOrBare,
}

/// The handler catches the bare name `n`.
pub open spec fn catches_name(h: ExceptHandler, n: Seq<char>) -> bool {
    h.type_ matches Some(t) && name_of(t) == Some(n)
}

/// The findings of a handler rule on one handler, located at the handler.
pub open spec fn handler_hit(rule: HandlerRule, h: ExceptHandler) -> Seq<HitView> {
    let at = Anchor::Offset(h.start);
    match rule {
        HandlerRule::BroadExcept => if catches_name(h, "BaseException"@) {
            seq![hv(at, "broad except handler catches Exception/BaseException"@)]
        } else {
            Seq::empty()
        },
        HandlerRule::BareExcept => if h.type_ is None {
            seq![hv(at, "bare except handler swallows all exceptions"@)]
        } else {
            Seq::empty()
        },
        HandlerRule::OnlyPass { typed_only } => if typed_only && h.type_ is None {
            Seq::empty()
        } else if h.body@.len() > 0 && all_pass(h.body@) {
            seq![
                hv(
                    at,
                    if h.type_ is None {
                        "bare except handler only contains pass"@
                    } else if catches_name(h, "Exception"@) || catches_name(h, "BaseException"@) {
                        "broad except handler only contains pass"@
                    } else {
                        "except handler only contains pass"@
                    },
                ),
            ]
        } else {
            Seq::empty()
        },
        HandlerRule::BlanketException => if catches_name(h, "Exception"@) {
            seq![hv(at, "except Exception catches nearly all errors; prefer specific exceptions"@)]
        } else {
            Seq::empty()
        },
        HandlerRule::SilentFallback => if last_meaningful(h.body@) matches Some(st) && (st.kind matches StmtKind::Return { value } && (value is None || (value matches Some(v) && is_none_literal(v)))) {
            seq![hv(at, "except handler returns None without logging or re-raising"@)]
        } else {
            Seq::empty()
        },
        HandlerRule::BroadOrBare => if h.type_ is None || catches_name(h, "Exception"@) || catches_name(
            h,
            "BaseException"@,
        ) {
            seq![hv(at, "broad or bare except handler swallows errors"@)]
        } else {
            Seq::empty()
        },
    }
}

/// The findings of a handler rule over a list of handlers.
pub open spec fn handlers_hits(rule: HandlerRule, hs: Seq<ExceptHandler>) -> Seq<HitView>
    decreases hs.len(),
{
    if hs.len() == 0 {
        Seq::empty()
    } else {
        handlers_hits(rule, hs.drop_last()) + handler_hit(rule, hs.last())
    }
}

/// The findings of a handler rule on the handlers of a `try` (or `try*`).
pub open spec fn try_handler_hits(rule: HandlerRule, s: Stmt) -> Seq<HitView> {
    match s.kind {
        StmtKind::Try { handlers, .. } => handlers_hits(rule, handlers@),
        _ => Seq::empty(),
    }
}

fn handler_catches(h: &ExceptHandler, n: &str) -> (r: bool)
    ensures
        r == catches_name(*h, n@),
{
    match &h.type_ {
        Some(t) => is_name(t, n),
        None => false,
    }
}

fn handler_rule_hit(rule: HandlerRule, h: &ExceptHandler) -> (r: Vec<Hit>)
    ensures
        hit_views(r@) == handler_hit(rule, *h),
{
    let at = Anchor::Offset(h.start);
    let mut out: Vec<Hit> = Vec::new();
    proof {
        assert(hit_views(out@) =~= Seq::<HitView>::empty());
    }
    match rule {
        HandlerRule::BroadExcept => {
            if handler_catches(h, "BaseException") {
                push_hit(&mut out, hit(at, "broad except handler catches Exception/BaseException"));
            }
        },
        HandlerRule::BareExcept => {
            if h.type_.is_none() {
                push_hit(&mut out, hit(at, "bare except handler swallows all exceptions"));
            }
        },
        HandlerRule::OnlyPass { typed_only } => {
            let skip = typed_only && h.type_.is_none();
            if !skip && h.body.len() > 0 && only_pass(&h.body) {
                let msg = if h.type_.is_none() {
                    hit(at, "bare except handler only contains pass")
                } else if handler_catches(h, "Exception") || handler_catches(h, "BaseException") {
                    hit(at, "broad except handler only contains pass")
                } else {
                    hit(at, "except handler only contains pass")
                };
                push_hit(&mut out, msg);
            }
        },
        HandlerRule::BlanketException => {
            if handler_catches(h, "Exception") {
                push_hit(&mut out, hit(at, "except Exception catches nearly all errors; prefer specific exceptions"));
            }
        },
        HandlerRule::SilentFallback => {
            let silent = match last_meaningful_stmt(&h.body) {
                Some(k) => match &h.body[k].kind {
                    StmtKind::Return { value: None } => true,
                    StmtKind::Return { value: Some(v) } => is_none_constant(v),
                    _ => false,
                },
                None => false,
            };
            if silent {
                push_hit(&mut out, hit(at, "except handler returns None without logging or re-raising"));
            }
        },
        HandlerRule::BroadOrBare => {
            if h.type_.is_none() || handler_catches(h, "Exception") || handler_catches(h, "BaseException") {
                push_hit(&mut out, hit(at, "broad or bare except handler swallows errors"));
            }
        },
    }
    proof {
        assert(hit_views(out@) =~= handler_hit(rule, *h));
    }
    out
}

pub fn detect_handler_rule(rule: HandlerRule, s: &Stmt) -> (r: Vec<Hit>)
    ensures
        hit_views(r@) == try_handler_hits(rule, *s),
{
    let mut out: Vec<Hit> = Vec::new();
    proof {
        assert(hit_views(out@) =~= Seq::<HitView>::empty());
    }
    match &s.kind {
        StmtKind::Try { handlers, .. } => {
            let mut i: usize = 0;
            proof {
                lemma_take_ends(handlers@);
            }
            while i < handlers.len()
                invariant
                    i <= handlers@.len(),
                    hit_views(out@) == handlers_hits(rule, handlers@.take(i as int)),
                decreases handlers@.len() - i,
            {
                proof {
                    assert(handlers@.take(i + 1).drop_last() =~= handlers@.take(i as int));
                    assert(handlers@.take(i + 1).last() == handlers@[i as int]);
                }
                let more = handler_rule_hit(rule, &handlers[i]);
                append_hits(&mut out, more);
                i = i + 1;
            }
            proof {
                lemma_take_ends(handlers@);
            }
        },
        _ => {},
    }
    out
}

} // verus!
