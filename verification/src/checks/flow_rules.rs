//! Detectors that follow control flow through nested blocks: `try` counts,
//! return styles, queries inside loops, and duplicated `if`/`elif` bodies.
use vstd::prelude::*;
use super::hit::{append_hits, hit, hit_views, hv, push_hit, with_number, Anchor, Hit, HitView};
use super::syntax::{called_method, is_method_call_named, is_none_constant, is_none_literal};
use crate::analysis::fold::lemma_take_ends;
use crate::analysis::metrics::sat;
use crate::parser::ast::{ExceptHandler, Expr, ExprKind, Stmt, StmtKind};

verus! {

// ---------------------------------------------------------------------------
// `try` blocks in a function
// ---------------------------------------------------------------------------

/// `try` statements (not `try*`) in a statement and in the blocks it
/// nests: `if`/`else`, `for` and `with` (not async), `while`, and the body,
/// handlers, `else` and `finally` of a `try`.
pub open spec fn stmt_tries(s: Stmt) -> int
    decreases s,
{
    match s.kind {
        StmtKind::If { body, orelse, .. } => block_tries(body@) + block_tries(orelse@),
        StmtKind::For { is_async: false, body, .. } => block_tries(body@),
        StmtKind::While { body, .. } => block_tries(body@),
        StmtKind::With { is_async: false, body, .. } => block_tries(body@),
        StmtKind::Try { is_star: false, body, handlers, orelse, finalbody } => 1 + block_tries(body@)
            + handler_tries(handlers@) + block_tries(orelse@) + block_tries(finalbody@),
        _ => 0,
    }
}

/// `try` statements of a block and its nested blocks.
pub open spec fn block_tries(b: Seq<Stmt>) -> int
    decreases b,
{
    if b.len() == 0 {
        0
    } else {
        block_tries(b.subrange(0, b.len() - 1)) + stmt_tries(b[b.len() - 1])
    }
}

/// `try` statements inside handler bodies.
pub open spec fn handler_tries(hs: Seq<ExceptHandler>) -> int
    decreases hs,
{
    if hs.len() == 0 {
        0
    } else {
        handler_tries(hs.subrange(0, hs.len() - 1)) + block_tries(hs[hs.len() - 1].body@)
    }
}

/// Counts the `try` statements of a block.
pub fn count_try_stmts(b: &Vec<Stmt>) -> (r: usize)
    ensures
        r == sat(block_tries(b@)),
    decreases b,
{
    let mut n: usize = 0;
    let mut i: usize = 0;
    proof {
        assert(b@.subrange(0, 0) =~= Seq::<Stmt>::empty());
    }
    while i < b.len()
        invariant
            i <= b@.len(),
            n == sat(block_tries(b@.subrange(0, i as int))),
        decreases b@.len() - i,
    {
        let x = stmt_try_count(&b[i]);
        proof {
            let p = b@.subrange(0, i + 1);
            assert(p.subrange(0, p.len() - 1) =~= b@.subrange(0, i as int));
            assert(p[p.len() - 1] == b@[i as int]);
        }
        n = n.saturating_add(x);
        i = i + 1;
    }
    proof {
        assert(b@.subrange(0, b@.len() as int) =~= b@);
    }
    n
}

fn stmt_try_count(s: &Stmt) -> (r: usize)
    ensures
        r == sat(stmt_tries(*s)),
    decreases s,
{
    match &s.kind {
        StmtKind::If { body, orelse, .. } => count_try_stmts(body).saturating_add(count_try_stmts(orelse)),
        StmtKind::For { is_async: false, body, .. } => count_try_stmts(body),
        StmtKind::While { body, .. } => count_try_stmts(body),
        StmtKind::With { is_async: false, body, .. } => count_try_stmts(body),
        StmtKind::Try { is_star: false, body, handlers, orelse, finalbody } => {
            let mut n = 1usize.saturating_add(count_try_stmts(body));
            n = n.saturating_add(handler_try_count(handlers));
            n = n.saturating_add(count_try_stmts(orelse));
            n.saturating_add(count_try_stmts(finalbody))
        },
        _ => 0,
    }
}

fn handler_try_count(hs: &Vec<ExceptHandler>) -> (r: usize)
    ensures
        r == sat(handler_tries(hs@)),
    decreases hs,
{
    let mut n: usize = 0;
    let mut i: usize = 0;
    proof {
        assert(hs@.subrange(0, 0) =~= Seq::<ExceptHandler>::empty());
    }
    while i < hs.len()
        invariant
            i <= hs@.len(),
            n == sat(handler_tries(hs@.subrange(0, i as int))),
        decreases hs@.len() - i,
    {
        let x = count_try_stmts(&hs[i].body);
        proof {
            let p = hs@.subrange(0, i + 1);
            assert(p.subrange(0, p.len() - 1) =~= hs@.subrange(0, i as int));
            assert(p[p.len() - 1] == hs@[i as int]);
        }
        n = n.saturating_add(x);
        i = i + 1;
    }
    proof {
        assert(hs@.subrange(0, hs@.len() as int) =~= hs@);
    }
    n
}

/// A function whose body holds two or more `try` statements.
pub open spec fn repeated_try_hits(s: Stmt) -> Seq<HitView> {
    match s.kind {
        StmtKind::FunctionDef { body, .. } => if sat(block_tries(body@)) >= 2 {
            seq![
                hv(
                    Anchor::Offset(s.start),
                    "function contains "@ + crate::text::decimal(sat(block_tries(body@)) as nat)
                        + " try/except blocks; consider consolidating"@,
                ),
            ]
        } else {
            Seq::empty()
        },
        _ => Seq::empty(),
    }
}

/// Functions with repeated `try`/`except` blocks.
pub fn detect_repeated_try_except(s: &Stmt) -> (r: Vec<Hit>)
    ensures
        hit_views(r@) == repeated_try_hits(*s),
{
    let mut out: Vec<Hit> = Vec::new();
    proof {
        assert(hit_views(out@) =~= Seq::<HitView>::empty());
    }
    match &s.kind {
        StmtKind::FunctionDef { body, .. } => {
            let n = count_try_stmts(body);
            if n >= 2 {
                let m = with_number("function contains ", n, " try/except blocks; consider consolidating");
                push_hit(&mut out, Hit { anchor: Anchor::Offset(s.start), message: m });
                proof {
                    assert(hit_views(out@) =~= repeated_try_hits(*s));
                }
            }
        },
        _ => {},
    }
    out
}

// ---------------------------------------------------------------------------
// Return styles
// ---------------------------------------------------------------------------

/// The kinds of statement a return-style scan looks for.
#[derive(Clone, Copy, PartialEq, Eq, Structural)]
pub enum ReturnProbe {
    /// `return` with no value.
    Bare,
    /// `return None`.
    NoneValue,
    /// `return` with a value other than `None`.
    Value,
    /// An expression statement or assignment whose value is `yield` or `yield from`.
    Yield,
}

/// A `yield` or `yield from` expression.
pub open spec fn is_yield(e: Expr) -> bool {
    e.kind is Yield || e.kind is YieldFrom
}

/// The statement itself is of the probed kind.
pub open spec fn probe_matches(p: ReturnProbe, s: Stmt) -> bool {
    match p {
        ReturnProbe::Bare => s.kind matches StmtKind::Return { value: None },
        ReturnProbe::NoneValue => s.kind matches StmtKind::Return { value: Some(v) } && is_none_literal(v),
        ReturnProbe::Value => s.kind matches StmtKind::Return { value: Some(v) } && !is_none_literal(v),
        ReturnProbe::Yield => (s.kind matches StmtKind::Expr { value } && is_yield(value)) || (s.kind matches StmtKind::Assign { value, .. } && is_yield(value)),
    }
}

/// A statement of the probed kind occurs in `s` or in the blocks it nests
/// that can return from the same function: both arms of `if`, the bodies of
/// `for` (not async) and `while`, and the body, handlers and `else` of a
/// `try` (not `try*`).
pub open spec fn stmt_has(p: ReturnProbe, s: Stmt) -> bool
    decreases s,
{
    probe_matches(p, s) || match s.kind {
        StmtKind::If { body, orelse, .. } => block_has(p, body@) || block_has(p, orelse@),
        StmtKind::For { is_async: false, body, .. } => block_has(p, body@),
        StmtKind::While { body, .. } => block_has(p, body@),
        StmtKind::Try { is_star: false, body, handlers, orelse, .. } => block_has(p, body@) || handlers_have(
            p,
            handlers@,
        ) || block_has(p, orelse@),
        _ => false,
    }
}

/// Some statement of the block has the probed kind (see [`stmt_has`]).
pub open spec fn block_has(p: ReturnProbe, b: Seq<Stmt>) -> bool
    decreases b,
{
    if b.len() == 0 {
        false
    } else {
        block_has(p, b.subrange(0, b.len() - 1)) || stmt_has(p, b[b.len() - 1])
    }
}

/// Some handler body has the probed kind.
pub open spec fn handlers_have(p: ReturnProbe, hs: Seq<ExceptHandler>) -> bool
    decreases hs,
{
    if hs.len() == 0 {
        false
    } else {
        handlers_have(p, hs.subrange(0, hs.len() - 1)) || block_has(p, hs[hs.len() - 1].body@)
    }
}

fn yield_expr(e: &Expr) -> (r: bool)
    ensures
        r == is_yield(*e),
{
    match &e.kind {
        ExprKind::Yield { .. } => true,
        ExprKind::YieldFrom { .. } => true,
        _ => false,
    }
}

fn probe_stmt(p: ReturnProbe, s: &Stmt) -> (r: bool)
    ensures
        r == probe_matches(p, *s),
{
    match p {
        ReturnProbe::Bare => match &s.kind {
            StmtKind::Return { value: None } => true,
            _ => false,
        },
        ReturnProbe::NoneValue => match &s.kind {
            StmtKind::Return { value: Some(v) } => is_none_constant(v),
            _ => false,
        },
        ReturnProbe::Value => match &s.kind {
            StmtKind::Return { value: Some(v) } => !is_none_constant(v),
            _ => false,
        },
        ReturnProbe::Yield => match &s.kind {
            StmtKind::Expr { value } => yield_expr(value),
            StmtKind::Assign { value, .. } => yield_expr(value),
            _ => false,
        },
    }
}

/// Whether a statement of the probed kind occurs in the block.
pub fn block_contains(p: ReturnProbe, b: &Vec<Stmt>) -> (r: bool)
    ensures
        r == block_has(p, b@),
    decreases b,
{
    let mut i: usize = 0;
    proof {
        assert(b@.subrange(0, 0) =~= Seq::<Stmt>::empty());
    }
    while i < b.len()
        invariant
            i <= b@.len(),
            !block_has(p, b@.subrange(0, i as int)),
        decreases b@.len() - i,
    {
        let x = stmt_contains(p, &b[i]);
        proof {
            let q = b@.subrange(0, i + 1);
            assert(q.subrange(0, q.len() - 1) =~= b@.subrange(0, i as int));
            assert(q[q.len() - 1] == b@[i as int]);
        }
        if x {
            proof {
                lemma_block_has_extend(p, b@, i as int + 1);
            }
            return true;
        }
        i = i + 1;
    }
    proof {
        assert(b@.subrange(0, b@.len() as int) =~= b@);
    }
    false
}

/// A prefix that has the probed kind makes the whole block have it.
pub proof fn lemma_block_has_extend(p: ReturnProbe, b: Seq<Stmt>, n: int)
    requires
        0 <= n <= b.len(),
        block_has(p, b.subrange(0, n)),
    ensures
        block_has(p, b),
    decreases b.len() - n,
{
    if n < b.len() {
        let q = b.subrange(0, n + 1);
        assert(q.subrange(0, q.len() - 1) =~= b.subrange(0, n));
        lemma_block_has_extend(p, b, n + 1);
    } else {
        assert(b.subrange(0, n) =~= b);
    }
}

fn stmt_contains(p: ReturnProbe, s: &Stmt) -> (r: bool)
    ensures
        r == stmt_has(p, *s),
    decreases s,
{
    if probe_stmt(p, s) {
        return true;
    }
    match &s.kind {
        StmtKind::If { body, orelse, .. } => block_contains(p, body) || block_contains(p, orelse),
        StmtKind::For { is_async: false, body, .. } => block_contains(p, body),
        StmtKind::While { body, .. } => block_contains(p, body),
        StmtKind::Try { is_star: false, body, handlers, orelse, .. } => block_contains(p, body)
            || handlers_contain(p, handlers) || block_contains(p, orelse),
        _ => false,
    }
}

fn handlers_contain(p: ReturnProbe, hs: &Vec<ExceptHandler>) -> (r: bool)
    ensures
        r == handlers_have(p, hs@),
    decreases hs,
{
    let mut i: usize = 0;
    proof {
        assert(hs@.subrange(0, 0) =~= Seq::<ExceptHandler>::empty());
    }
    while i < hs.len()
        invariant
            i <= hs@.len(),
            !handlers_have(p, hs@.subrange(0, i as int)),
        decreases hs@.len() - i,
    {
        let x = block_contains(p, &hs[i].body);
        proof {
            let q = hs@.subrange(0, i + 1);
            assert(q.subrange(0, q.len() - 1) =~= hs@.subrange(0, i as int));
            assert(q[q.len() - 1] == hs@[i as int]);
        }
        if x {
            proof {
                lemma_handlers_have_extend(p, hs@, i as int + 1);
            }
            return true;
        }
        i = i + 1;
    }
    proof {
        assert(hs@.subrange(0, hs@.len() as int) =~= hs@);
    }
    false
}

/// A prefix of handlers that has the probed kind makes the whole list have it.
pub proof fn lemma_handlers_have_extend(p: ReturnProbe, hs: Seq<ExceptHandler>, n: int)
    requires
        0 <= n <= hs.len(),
        handlers_have(p, hs.subrange(0, n)),
    ensures
        handlers_have(p, hs),
    decreases hs.len() - n,
{
    if n < hs.len() {
        let q = hs.subrange(0, n + 1);
        assert(q.subrange(0, q.len() - 1) =~= hs.subrange(0, n));
        lemma_handlers_have_extend(p, hs, n + 1);
    } else {
        assert(hs.subrange(0, n) =~= hs);
    }
}

/// A function that both returns bare (`return`) and returns `None` explicitly.
pub open spec fn ambiguous_none_hits(s: Stmt) -> Seq<HitView> {
    match s.kind {
        StmtKind::FunctionDef { body, .. } => if block_has(ReturnProbe::NoneValue, body@) && block_has(
            ReturnProbe::Bare,
            body@,
        ) {
            seq![hv(Anchor::Offset(s.start), "function mixes bare `return` and `return None`"@)]
        } else {
            Seq::empty()
        },
        _ => Seq::empty(),
    }
}

/// Functions mixing bare `return` and `return None`.
pub fn detect_ambiguous_none_return(s: &Stmt) -> (r: Vec<Hit>)
    ensures
        hit_views(r@) == ambiguous_none_hits(*s),
{
    let mut out: Vec<Hit> = Vec::new();
    proof {
        assert(hit_views(out@) =~= Seq::<HitView>::empty());
    }
    match &s.kind {
        StmtKind::FunctionDef { body, .. } => {
            let explicit_none = block_contains(ReturnProbe::NoneValue, body);
            let bare_return = block_contains(ReturnProbe::Bare, body);
            if explicit_none && bare_return {
                push_hit(&mut out, hit(Anchor::Offset(s.start), "function mixes bare `return` and `return None`"));
                proof {
                    assert(hit_views(out@) =~= ambiguous_none_hits(*s));
                }
            }
        },
        _ => {},
    }
    out
}

/// A function that both returns a value and yields.
pub open spec fn mixed_return_hits(s: Stmt) -> Seq<HitView> {
    match s.kind {
        StmtKind::FunctionDef { name, body, .. } => if block_has(ReturnProbe::Value, body@) && block_has(
            ReturnProbe::Yield,
            body@,
        ) {
            seq![hv(Anchor::Offset(s.start), "function `"@ + name@ + "` mixes `return <value>` and `yield`"@)]
        } else {
            Seq::empty()
        },
        _ => Seq::empty(),
    }
}

/// Functions that both return a value and yield.
pub fn detect_mixed_return_style(s: &Stmt) -> (r: Vec<Hit>)
    ensures
        hit_views(r@) == mixed_return_hits(*s),
{
    let mut out: Vec<Hit> = Vec::new();
    proof {
        assert(hit_views(out@) =~= Seq::<HitView>::empty());
    }
    match &s.kind {
        StmtKind::FunctionDef { name, body, .. } => {
            if block_contains(ReturnProbe::Value, body) && block_contains(ReturnProbe::Yield, body) {
                let m = super::hit::concat3("function `", name.as_str(), "` mixes `return <value>` and `yield`");
                push_hit(&mut out, Hit { anchor: Anchor::Offset(s.start), message: m });
                proof {
                    assert(hit_views(out@) =~= mixed_return_hits(*s));
                }
            }
        },
        _ => {},
    }
    out
}

// ---------------------------------------------------------------------------
// Queries inside loops
// ---------------------------------------------------------------------------

/// A call of a method named `query` or `execute`.
pub open spec fn is_db_call(e: Expr) -> bool {
    called_method(e) == Some("query"@) || called_method(e) == Some("execute"@)
}

/// The expression is a database call, or a call with such a call among its
/// positional arguments (at any depth of argument nesting).
pub open spec fn shallow_has_db(e: Expr) -> bool
    decreases e,
{
    is_db_call(e) || match e.kind {
        ExprKind::Call { args, .. } => args_have_db(args@),
        _ => false,
    }
}

/// Some argument holds a database call (see [`shallow_has_db`]).
pub open spec fn args_have_db(args: Seq<Expr>) -> bool
    decreases args,
{
    if args.len() == 0 {
        false
    } else {
        args_have_db(args.subrange(0, args.len() - 1)) || shallow_has_db(args[args.len() - 1])
    }
}

/// The statement's own value holds a database call: expression statements,
/// returned values, and the values of plain and augmented assignments.
pub open spec fn stmt_has_db_call(s: Stmt) -> bool {
    match s.kind {
        StmtKind::Expr { value } => shallow_has_db(value),
        StmtKind::Return { value: Some(v) } => shallow_has_db(v),
        StmtKind::Assign { value, .. } => shallow_has_db(value),
        StmtKind::AugAssign { value, .. } => shallow_has_db(value),
        _ => false,
    }
}

/// A statement with a database call occurs in `s` or in the blocks it nests:
/// `for`/`with` (not async), `while`, `if`/`else`, `try` (not `try*`, with
/// handlers, `else` and `finally`), function and class bodies.
pub open spec fn stmt_any_db(s: Stmt) -> bool
    decreases s,
{
    stmt_has_db_call(s) || match s.kind {
        StmtKind::For { is_async: false, body, .. } => block_any_db(body@),
        StmtKind::While { body, .. } => block_any_db(body@),
        StmtKind::With { is_async: false, body, .. } => block_any_db(body@),
        StmtKind::If { body, orelse, .. } => block_any_db(body@) || block_any_db(orelse@),
        StmtKind::Try { is_star: false, body, handlers, orelse, finalbody } => block_any_db(body@)
            || handlers_any_db(handlers@) || block_any_db(orelse@) || block_any_db(finalbody@),
        StmtKind::FunctionDef { body, .. } => block_any_db(body@),
        StmtKind::ClassDef { body, .. } => block_any_db(body@),
        _ => false,
    }
}

/// Some statement of the block or of its nested blocks holds a database call.
pub open spec fn block_any_db(b: Seq<Stmt>) -> bool
    decreases b,
{
    if b.len() == 0 {
        false
    } else {
        block_any_db(b.subrange(0, b.len() - 1)) || stmt_any_db(b[b.len() - 1])
    }
}

/// Some handler body holds a database call.
pub open spec fn handlers_any_db(hs: Seq<ExceptHandler>) -> bool
    decreases hs,
{
    if hs.len() == 0 {
        false
    } else {
        handlers_any_db(hs.subrange(0, hs.len() - 1)) || block_any_db(hs[hs.len() - 1].body@)
    }
}

fn expr_is_db_call(e: &Expr) -> (r: bool)
    ensures
        r == is_db_call(*e),
{
    is_method_call_named(e, "query") || is_method_call_named(e, "execute")
}

#[verifier::loop_isolation(false)]
fn expr_has_db(e: &Expr) -> (r: bool)
    ensures
        r == shallow_has_db(*e),
    decreases e,
{
    if expr_is_db_call(e) {
        return true;
    }
    match &e.kind {
        ExprKind::Call { args, .. } => {
            let mut i: usize = 0;
            proof {
                assert(args@.subrange(0, 0) =~= Seq::<Expr>::empty());
            }
            while i < args.len()
                invariant
                    i <= args@.len(),
                    !args_have_db(args@.subrange(0, i as int)),
                decreases args@.len() - i,
            {
                let x = expr_has_db(&args[i]);
                proof {
                    let q = args@.subrange(0, i + 1);
                    assert(q.subrange(0, q.len() - 1) =~= args@.subrange(0, i as int));
                    assert(q[q.len() - 1] == args@[i as int]);
                }
                if x {
                    proof {
                        lemma_args_db_extend(args@, i as int + 1);
                    }
                    return true;
                }
                i = i + 1;
            }
            proof {
                assert(args@.subrange(0, args@.len() as int) =~= args@);
            }
            false
        },
        _ => false,
    }
}

/// A prefix of arguments with a database call makes the whole list have one.
pub proof fn lemma_args_db_extend(args: Seq<Expr>, n: int)
    requires
        0 <= n <= args.len(),
        args_have_db(args.subrange(0, n)),
    ensures
        args_have_db(args),
    decreases args.len() - n,
{
    if n < args.len() {
        let q = args.subrange(0, n + 1);
        assert(q.subrange(0, q.len() - 1) =~= args.subrange(0, n));
        lemma_args_db_extend(args, n + 1);
    } else {
        assert(args.subrange(0, n) =~= args);
    }
}

fn stmt_contains_db_call(s: &Stmt) -> (r: bool)
    ensures
        r == stmt_has_db_call(*s),
{
    match &s.kind {
        StmtKind::Expr { value } => expr_has_db(value),
        StmtKind::Return { value: Some(v) } => expr_has_db(v),
        StmtKind::Assign { value, .. } => expr_has_db(value),
        StmtKind::AugAssign { value, .. } => expr_has_db(value),
        _ => false,
    }
}

/// Whether a database call occurs anywhere in the block.
pub fn block_has_db_call(b: &Vec<Stmt>) -> (r: bool)
    ensures
        r == block_any_db(b@),
    decreases b,
{
    let mut i: usize = 0;
    proof {
        assert(b@.subrange(0, 0) =~= Seq::<Stmt>::empty());
    }
    while i < b.len()
        invariant
            i <= b@.len(),
            !block_any_db(b@.subrange(0, i as int)),
        decreases b@.len() - i,
    {
        let x = stmt_has_db(&b[i]);
        proof {
            let q = b@.subrange(0, i + 1);
            assert(q.subrange(0, q.len() - 1) =~= b@.subrange(0, i as int));
            assert(q[q.len() - 1] == b@[i as int]);
        }
        if x {
            proof {
                lemma_block_db_extend(b@, i as int + 1);
            }
            return true;
        }
        i = i + 1;
    }
    proof {
        assert(b@.subrange(0, b@.len() as int) =~= b@);
    }
    false
}

/// A prefix with a database call makes the whole block have one.
pub proof fn lemma_block_db_extend(b: Seq<Stmt>, n: int)
    requires
        0 <= n <= b.len(),
        block_any_db(b.subrange(0, n)),
    ensures
        block_any_db(b),
    decreases b.len() - n,
{
    if n < b.len() {
        let q = b.subrange(0, n + 1);
        assert(q.subrange(0, q.len() - 1) =~= b.subrange(0, n));
        lemma_block_db_extend(b, n + 1);
    } else {
        assert(b.subrange(0, n) =~= b);
    }
}

fn stmt_has_db(s: &Stmt) -> (r: bool)
    ensures
        r == stmt_any_db(*s),
    decreases s,
{
    if stmt_contains_db_call(s) {
        return true;
    }
    match &s.kind {
        StmtKind::For { is_async: false, body, .. } => block_has_db_call(body),
        StmtKind::While { body, .. } => block_has_db_call(body),
        StmtKind::With { is_async: false, body, .. } => block_has_db_call(body),
        StmtKind::If { body, orelse, .. } => block_has_db_call(body) || block_has_db_call(orelse),
        StmtKind::Try { is_star: false, body, handlers, orelse, finalbody } => block_has_db_call(body)
            || handlers_have_db(handlers) || block_has_db_call(orelse) || block_has_db_call(finalbody),
        StmtKind::FunctionDef { body, .. } => block_has_db_call(body),
        StmtKind::ClassDef { body, .. } => block_has_db_call(body),
        _ => false,
    }
}

fn handlers_have_db(hs: &Vec<ExceptHandler>) -> (r: bool)
    ensures
        r == handlers_any_db(hs@),
    decreases hs,
{
    let mut i: usize = 0;
    proof {
        assert(hs@.subrange(0, 0) =~= Seq::<ExceptHandler>::empty());
    }
    while i < hs.len()
        invariant
            i <= hs@.len(),
            !handlers_any_db(hs@.subrange(0, i as int)),
        decreases hs@.len() - i,
    {
        let x = block_has_db_call(&hs[i].body);
        proof {
            let q = hs@.subrange(0, i + 1);
            assert(q.subrange(0, q.len() - 1) =~= hs@.subrange(0, i as int));
            assert(q[q.len() - 1] == hs@[i as int]);
        }
        if x {
            proof {
                lemma_handlers_db_extend(hs@, i as int + 1);
            }
            return true;
        }
        i = i + 1;
    }
    proof {
        assert(hs@.subrange(0, hs@.len() as int) =~= hs@);
    }
    false
}

/// A prefix of handlers with a database call makes the whole list have one.
pub proof fn lemma_handlers_db_extend(hs: Seq<ExceptHandler>, n: int)
    requires
        0 <= n <= hs.len(),
        handlers_any_db(hs.subrange(0, n)),
    ensures
        handlers_any_db(hs),
    decreases hs.len() - n,
{
    if n < hs.len() {
        let q = hs.subrange(0, n + 1);
        assert(q.subrange(0, q.len() - 1) =~= hs.subrange(0, n));
        lemma_handlers_db_extend(hs, n + 1);
    } else {
        assert(hs.subrange(0, n) =~= hs);
    }
}

/// A (non-async) `for` loop whose body, at any depth, calls `query` or
/// `execute`.
pub open spec fn query_in_loop_hits(s: Stmt) -> Seq<HitView> {
    match s.kind {
        StmtKind::For { is_async: false, body, .. } => if block_any_db(body@) {
            seq![hv(Anchor::Offset(s.start), "database query or execute inside a loop may cause N+1 access"@)]
        } else {
            Seq::empty()
        },
        _ => Seq::empty(),
    }
}

/// Loops that issue database calls.
pub fn detect_query_in_loop(s: &Stmt) -> (r: Vec<Hit>)
    ensures
        hit_views(r@) == query_in_loop_hits(*s),
{
    let mut out: Vec<Hit> = Vec::new();
    proof {
        assert(hit_views(out@) =~= Seq::<HitView>::empty());
    }
    match &s.kind {
        StmtKind::For { is_async: false, body, .. } => {
            if block_has_db_call(body) {
                push_hit(&mut out, hit(Anchor::Offset(s.start), "database query or execute inside a loop may cause N+1 access"));
                proof {
                    assert(hit_views(out@) =~= query_in_loop_hits(*s));
                }
            }
        },
        _ => {},
    }
    out
}

// ---------------------------------------------------------------------------
// Duplicated `if` / `elif` bodies
// ---------------------------------------------------------------------------

/// ASCII whitespace: space, tab, line feed, vertical tab, form feed, carriage return.
pub open spec fn is_ws_byte(b: u8) -> bool {
    b == 32 || (9 <= b && b <= 13)
}

/// `s` without leading whitespace.
pub open spec fn trim_start(s: Seq<u8>) -> Seq<u8>
    decreases s.len(),
{
    if s.len() > 0 && is_ws_byte(s[0]) {
        trim_start(s.subrange(1, s.len() as int))
    } else {
        s
    }
}

/// `s` without trailing whitespace.
pub open spec fn trim_end(s: Seq<u8>) -> Seq<u8>
    decreases s.len(),
{
    if s.len() > 0 && is_ws_byte(s.last()) {
        trim_end(s.drop_last())
    } else {
        s
    }
}

/// `s` without surrounding whitespace.
pub open spec fn trim_bytes(s: Seq<u8>) -> Seq<u8> {
    trim_end(trim_start(s))
}

/// The source text a statement spans (empty when its range does not fit).
pub open spec fn stmt_text(src: Seq<u8>, s: Stmt) -> Seq<u8> {
    if s.start <= s.end && s.end <= src.len() {
        src.subrange(s.start as int, s.end as int)
    } else {
        Seq::empty()
    }
}

/// Two blocks whose statements read the same, statement by statement,
/// surrounding whitespace aside.
pub open spec fn blocks_equal(src: Seq<u8>, a: Seq<Stmt>, b: Seq<Stmt>) -> bool {
    a.len() == b.len() && forall|i: int| 0 <= i < a.len() ==> trim_bytes(stmt_text(src, #[trigger] a[i]))
        == trim_bytes(stmt_text(src, b[i]))
}

/// The bounds of a statement's text with surrounding whitespace removed.
fn trimmed_text(src: &[u8], s: &Stmt) -> (r: (usize, usize))
    ensures
        r.0 <= r.1 <= src@.len(),
        src@.subrange(r.0 as int, r.1 as int) == trim_bytes(stmt_text(src@, *s)),
{
    if !(s.start <= s.end && s.end <= src.len()) {
        proof {
            assert(src@.subrange(0, 0) =~= Seq::<u8>::empty());
        }
        return (0, 0);
    }
    let end = s.end;
    let mut lo = s.start;
    while lo < end && (src[lo] == 32 || (9 <= src[lo] && src[lo] <= 13))
        invariant
            s.start <= lo <= end <= src@.len(),
            end == s.end,
            trim_start(src@.subrange(s.start as int, end as int)) == trim_start(src@.subrange(lo as int, end as int)),
        decreases end - lo,
    {
        proof {
            let t = src@.subrange(lo as int, end as int);
            assert(t.subrange(1, t.len() as int) =~= src@.subrange(lo + 1, end as int));
        }
        lo = lo + 1;
    }
    let mut hi = end;
    while hi > lo && (src[hi - 1] == 32 || (9 <= src[hi - 1] && src[hi - 1] <= 13))
        invariant
            s.start <= lo <= hi <= end <= src@.len(),
            trim_end(src@.subrange(lo as int, end as int)) == trim_end(src@.subrange(lo as int, hi as int)),
        decreases hi - lo,
    {
        proof {
            let t = src@.subrange(lo as int, hi as int);
            assert(t.drop_last() =~= src@.subrange(lo as int, hi - 1));
        }
        hi = hi - 1;
    }
    (lo, hi)
}

/// Whether two ranges of `src` hold the same bytes.
fn same_bytes(src: &[u8], a: (usize, usize), b: (usize, usize)) -> (r: bool)
    requires
        a.0 <= a.1 <= src@.len(),
        b.0 <= b.1 <= src@.len(),
    ensures
        r == (src@.subrange(a.0 as int, a.1 as int) == src@.subrange(b.0 as int, b.1 as int)),
{
    if a.1 - a.0 != b.1 - b.0 {
        proof {
            assert(src@.subrange(a.0 as int, a.1 as int).len() != src@.subrange(b.0 as int, b.1 as int).len());
        }
        return false;
    }
    let n = a.1 - a.0;
    let mut k: usize = 0;
    while k < n
        invariant
            a.0 <= a.1 <= src@.len(),
            b.0 <= b.1 <= src@.len(),
            n == a.1 - a.0,
            n == b.1 - b.0,
            k <= n,
            forall|j: int| 0 <= j < k ==> src@.subrange(a.0 as int, a.1 as int)[j] == #[trigger] src@.subrange(b.0 as int, b.1 as int)[j],
        decreases n - k,
    {
        if src[a.0 + k] != src[b.0 + k] {
            proof {
                assert(src@.subrange(a.0 as int, a.1 as int)[k as int] != src@.subrange(b.0 as int, b.1 as int)[k as int]);
            }
            return false;
        }
        k = k + 1;
    }
    proof {
        assert(src@.subrange(a.0 as int, a.1 as int) =~= src@.subrange(b.0 as int, b.1 as int));
    }
    true
}

/// Whether two blocks read the same statement by statement.
fn stmt_blocks_equal(src: &[u8], a: &Vec<Stmt>, b: &Vec<Stmt>) -> (r: bool)
    ensures
        r == blocks_equal(src@, a@, b@),
{
    if a.len() != b.len() {
        return false;
    }
    let mut i: usize = 0;
    while i < a.len()
        invariant
            a@.len() == b@.len(),
            i <= a@.len(),
            forall|j: int| 0 <= j < i ==> trim_bytes(stmt_text(src@, #[trigger] a@[j])) == trim_bytes(
                stmt_text(src@, b@[j]),
            ),
        decreases a@.len() - i,
    {
        let x = trimmed_text(src, &a[i]);
        let y = trimmed_text(src, &b[i]);
        if !same_bytes(src, x, y) {
            return false;
        }
        i = i + 1;
    }
    true
}

/// An `if` whose only `else` is an `elif` without `else`, with both bodies
/// reading the same.
pub open spec fn duplicate_branch_hits(src: Seq<u8>, s: Stmt) -> Seq<HitView> {
    match s.kind {
        StmtKind::If { body, orelse, .. } => if orelse@.len() == 1 && (orelse@[0].kind matches StmtKind::If {
            body: elif_body,
            orelse: elif_else,
            ..
        } && elif_else@.len() == 0 && blocks_equal(src, body@, elif_body@)) {
            seq![hv(Anchor::Offset(s.start), "if and elif branches have identical bodies"@)]
        } else {
            Seq::empty()
        },
        _ => Seq::empty(),
    }
}

/// `if`/`elif` pairs with identical bodies.
pub fn detect_duplicate_branch_body(src: &[u8], s: &Stmt) -> (r: Vec<Hit>)
    ensures
        hit_views(r@) == duplicate_branch_hits(src@, *s),
{
    let mut out: Vec<Hit> = Vec::new();
    proof {
        assert(hit_views(out@) =~= Seq::<HitView>::empty());
    }
    match &s.kind {
        StmtKind::If { body, orelse, .. } => {
            if orelse.len() == 1 {
                match &orelse[0].kind {
                    StmtKind::If { body: elif_body, orelse: elif_else, .. } => {
                        if elif_else.len() == 0 && stmt_blocks_equal(src, body, elif_body) {
                            push_hit(&mut out, hit(Anchor::Offset(s.start), "if and elif branches have identical bodies"));
                            proof {
                                assert(hit_views(out@) =~= duplicate_branch_hits(src@, *s));
                            }
                        }
                    },
                    _ => {},
                }
            }
        },
        _ => {},
    }
    out
}

// ---------------------------------------------------------------------------
// `sort()` then `reverse()`
// ---------------------------------------------------------------------------

/// Two receivers that are the same name, or the same attribute of matching
/// receivers.
pub open spec fn receivers_equal(l: Expr, r: Expr) -> bool
    decreases l,
{
    match (l.kind, r.kind) {
        (ExprKind::Name { id: a }, ExprKind::Name { id: b }) => a@ == b@,
        (ExprKind::Attribute { value: lv, attr: la }, ExprKind::Attribute { value: rv, attr: ra }) => la@ == ra@
            && receivers_equal(*lv, *rv),
        _ => false,
    }
}

/// Both are method calls (`x.m(...)`) on equal receivers.
pub open spec fn call_receivers_match(l: Expr, r: Expr) -> bool {
    match (l.kind, r.kind) {
        (ExprKind::Call { func: lf, .. }, ExprKind::Call { func: rf, .. }) => match (lf.kind, rf.kind) {
            (ExprKind::Attribute { value: lv, .. }, ExprKind::Attribute { value: rv, .. }) => receivers_equal(*lv, *rv),
            _ => false,
        },
        _ => false,
    }
}

/// Two consecutive expression statements `x.sort()` then `x.reverse()`.
pub open spec fn pair_hit(a: Stmt, c: Stmt) -> Seq<HitView> {
    match (a.kind, c.kind) {
        (StmtKind::Expr { value: e1 }, StmtKind::Expr { value: e2 }) => if called_method(e1) == Some("sort"@)
            && called_method(e2) == Some("reverse"@) && call_receivers_match(e1, e2) {
            seq![hv(Anchor::Offset(a.start), "sort() followed by reverse(); use `sorted(..., reverse=True)`"@)]
        } else {
            Seq::empty()
        },
        _ => Seq::empty(),
    }
}

/// The findings over the consecutive pairs of a block.
pub open spec fn pair_hits(b: Seq<Stmt>) -> Seq<HitView>
    decreases b.len(),
{
    if b.len() < 2 {
        Seq::empty()
    } else {
        pair_hits(b.drop_last()) + pair_hit(b[b.len() - 2], b[b.len() - 1])
    }
}

/// The findings in a block: its own pairs first, then those of the blocks
/// nested in its statements.
pub open spec fn block_sort_hits(b: Seq<Stmt>) -> Seq<HitView>
    decreases b, 1nat,
{
    pair_hits(b) + nested_sort_hits(b)
}

/// The findings of the blocks nested in each statement of `b`, in order.
pub open spec fn nested_sort_hits(b: Seq<Stmt>) -> Seq<HitView>
    decreases b, 0nat,
{
    if b.len() == 0 {
        Seq::empty()
    } else {
        nested_sort_hits(b.subrange(0, b.len() - 1)) + stmt_sort_hits(b[b.len() - 1])
    }
}

/// The findings of the blocks a statement nests: function and class bodies,
/// both arms of `if`, `for` and `with` bodies (not async), `while` bodies,
/// and the body, handlers, `else` and `finally` of a `try` (not `try*`).
pub open spec fn stmt_sort_hits(s: Stmt) -> Seq<HitView>
    decreases s, 0nat,
{
    match s.kind {
        StmtKind::FunctionDef { body, .. } => block_sort_hits(body@),
        StmtKind::ClassDef { body, .. } => block_sort_hits(body@),
        StmtKind::If { body, orelse, .. } => block_sort_hits(body@) + block_sort_hits(orelse@),
        StmtKind::For { is_async: false, body, .. } => block_sort_hits(body@),
        StmtKind::While { body, .. } => block_sort_hits(body@),
        StmtKind::With { is_async: false, body, .. } => block_sort_hits(body@),
        StmtKind::Try { is_star: false, body, handlers, orelse, finalbody } => block_sort_hits(body@)
            + handler_sort_hits(handlers@) + block_sort_hits(orelse@) + block_sort_hits(finalbody@),
        _ => Seq::empty(),
    }
}

/// The findings of the handler bodies, in order.
pub open spec fn handler_sort_hits(hs: Seq<ExceptHandler>) -> Seq<HitView>
    decreases hs, 0nat,
{
    if hs.len() == 0 {
        Seq::empty()
    } else {
        handler_sort_hits(hs.subrange(0, hs.len() - 1)) + block_sort_hits(hs[hs.len() - 1].body@)
    }
}

fn same_receivers(l: &Expr, r: &Expr) -> (b: bool)
    ensures
        b == receivers_equal(*l, *r),
    decreases l,
{
    match (&l.kind, &r.kind) {
        (ExprKind::Name { id: a }, ExprKind::Name { id: b }) => crate::text::str_eq(a.as_str(), b.as_str()),
        (ExprKind::Attribute { value: lv, attr: la }, ExprKind::Attribute { value: rv, attr: ra }) => crate::text::str_eq(
            la.as_str(),
            ra.as_str(),
        ) && same_receivers(lv, rv),
        _ => false,
    }
}

fn receivers_match(l: &Expr, r: &Expr) -> (b: bool)
    ensures
        b == call_receivers_match(*l, *r),
{
    match (&l.kind, &r.kind) {
        (ExprKind::Call { func: lf, .. }, ExprKind::Call { func: rf, .. }) => match (&lf.kind, &rf.kind) {
            (ExprKind::Attribute { value: lv, .. }, ExprKind::Attribute { value: rv, .. }) => same_receivers(lv, rv),
            _ => false,
        },
        _ => false,
    }
}

fn pair_hits_of(a: &Stmt, c: &Stmt) -> (r: Vec<Hit>)
    ensures
        hit_views(r@) == pair_hit(*a, *c),
{
    let mut out: Vec<Hit> = Vec::new();
    match (&a.kind, &c.kind) {
        (StmtKind::Expr { value: e1 }, StmtKind::Expr { value: e2 }) => {
            if is_method_call_named(e1, "sort") && is_method_call_named(e2, "reverse") && receivers_match(e1, e2) {
                push_hit(&mut out, hit(Anchor::Offset(a.start), "sort() followed by reverse(); use `sorted(..., reverse=True)`"));
            }
        },
        _ => {},
    }
    proof {
        assert(hit_views(out@) =~= pair_hit(*a, *c));
    }
    out
}

/// Appends the findings of a block.
pub fn sort_reverse_in_block(b: &Vec<Stmt>, out: &mut Vec<Hit>)
    ensures
        hit_views(final(out)@) == hit_views(old(out)@) + block_sort_hits(b@),
    decreases b, 1nat,
{
    let ghost start = hit_views(out@);
    let mut k: usize = 1;
    if b.len() >= 2 {
        proof {
            assert(pair_hits(b@.take(1)) =~= Seq::<HitView>::empty());
            assert(start + Seq::<HitView>::empty() =~= start);
        }
        while k < b.len()
            invariant
                1 <= k <= b@.len(),
                hit_views(out@) == start + pair_hits(b@.take(k as int)),
            decreases b@.len() - k,
        {
            proof {
                let p = b@.take(k + 1);
                assert(p.drop_last() =~= b@.take(k as int));
                assert(p[p.len() - 2] == b@[k - 1]);
                assert(p[p.len() - 1] == b@[k as int]);
            }
            let more = pair_hits_of(&b[k - 1], &b[k]);
            append_hits(out, more);
            proof {
                assert(hit_views(out@) =~= start + pair_hits(b@.take(k + 1)));
            }
            k = k + 1;
        }
        proof {
            assert(b@.take(b@.len() as int) =~= b@);
        }
    } else {
        proof {
            assert(pair_hits(b@) =~= Seq::<HitView>::empty());
            assert(hit_views(out@) =~= start + pair_hits(b@));
        }
    }
    let ghost mid = hit_views(out@);
    let mut i: usize = 0;
    proof {
        assert(b@.subrange(0, 0) =~= Seq::<Stmt>::empty());
        assert(mid + Seq::<HitView>::empty() =~= mid);
    }
    while i < b.len()
        invariant
            i <= b@.len(),
            hit_views(out@) == mid + nested_sort_hits(b@.subrange(0, i as int)),
        decreases b@.len() - i,
    {
        let ghost before = hit_views(out@);
        stmt_sort_reverse(&b[i], out);
        proof {
            let p = b@.subrange(0, i + 1);
            assert(p.subrange(0, p.len() - 1) =~= b@.subrange(0, i as int));
            assert(p[p.len() - 1] == b@[i as int]);
            assert(hit_views(out@) =~= mid + nested_sort_hits(b@.subrange(0, i + 1)));
        }
        i = i + 1;
    }
    proof {
        assert(b@.subrange(0, b@.len() as int) =~= b@);
        assert(hit_views(out@) =~= start + block_sort_hits(b@));
    }
}

fn stmt_sort_reverse(s: &Stmt, out: &mut Vec<Hit>)
    ensures
        hit_views(final(out)@) == hit_views(old(out)@) + stmt_sort_hits(*s),
    decreases s, 0nat,
{
    let ghost start = hit_views(out@);
    match &s.kind {
        StmtKind::FunctionDef { body, .. } => sort_reverse_in_block(body, out),
        StmtKind::ClassDef { body, .. } => sort_reverse_in_block(body, out),
        StmtKind::If { body, orelse, .. } => {
            sort_reverse_in_block(body, out);
            sort_reverse_in_block(orelse, out);
        },
        StmtKind::For { is_async: false, body, .. } => sort_reverse_in_block(body, out),
        StmtKind::While { body, .. } => sort_reverse_in_block(body, out),
        StmtKind::With { is_async: false, body, .. } => sort_reverse_in_block(body, out),
        StmtKind::Try { is_star: false, body, handlers, orelse, finalbody } => {
            sort_reverse_in_block(body, out);
            sort_reverse_in_handlers(handlers, out);
            sort_reverse_in_block(orelse, out);
            sort_reverse_in_block(finalbody, out);
        },
        _ => {},
    }
    proof {
        assert(hit_views(out@) =~= start + stmt_sort_hits(*s));
    }
}

fn sort_reverse_in_handlers(hs: &Vec<ExceptHandler>, out: &mut Vec<Hit>)
    ensures
        hit_views(final(out)@) == hit_views(old(out)@) + handler_sort_hits(hs@),
    decreases hs, 0nat,
{
    let ghost start = hit_views(out@);
    let mut i: usize = 0;
    proof {
        assert(hs@.subrange(0, 0) =~= Seq::<ExceptHandler>::empty());
        assert(start + Seq::<HitView>::empty() =~= start);
    }
    while i < hs.len()
        invariant
            i <= hs@.len(),
            hit_views(out@) == start + handler_sort_hits(hs@.subrange(0, i as int)),
        decreases hs@.len() - i,
    {
        sort_reverse_in_block(&hs[i].body, out);
        proof {
            let p = hs@.subrange(0, i + 1);
            assert(p.subrange(0, p.len() - 1) =~= hs@.subrange(0, i as int));
            assert(p[p.len() - 1] == hs@[i as int]);
            assert(hit_views(out@) =~= start + handler_sort_hits(hs@.subrange(0, i + 1)));
        }
        i = i + 1;
    }
    proof {
        assert(hs@.subrange(0, hs@.len() as int) =~= hs@);
    }
}

/// `x.sort()` directly followed by `x.reverse()`, in any block of the module.
pub fn detect_sort_then_reverse(m: &crate::parser::ast::Module) -> (r: Vec<Hit>)
    ensures
        hit_views(r@) == block_sort_hits(m.body@),
{
    let mut out: Vec<Hit> = Vec::new();
    proof {
        assert(hit_views(out@) =~= Seq::<HitView>::empty());
    }
    sort_reverse_in_block(&m.body, &mut out);
    proof {
        assert(Seq::<HitView>::empty() + block_sort_hits(m.body@) =~= block_sort_hits(m.body@));
    }
    out
}

} // verus!
