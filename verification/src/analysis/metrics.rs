//! Per-function measures: parameters, branches, conditional nesting depth,
//! the line span of a body and whether it opens with a docstring.
//!
//! Counts saturate at `usize::MAX`; the specifications count in `int` and
//! the results are capped by [`sat`].
use vstd::prelude::*;
use vstd::string::StringSliceAdditionalSpecFns;
use crate::parser::ast::{Arguments, Constant, ExceptHandler, ExprKind, MatchCase, Stmt, StmtKind};
use crate::parser::location::{line_col_at, spec_line_col};

verus! {

/// `x` capped at `usize::MAX`: what a saturating count reports.
pub open spec fn sat(x: int) -> int {
    if x > usize::MAX {
        usize::MAX as int
    } else {
        x
    }
}

/// The larger of two integers.
pub open spec fn max_int(a: int, b: int) -> int {
    if a >= b {
        a
    } else {
        b
    }
}

// ---------------------------------------------------------------------------
// Parameters
// ---------------------------------------------------------------------------

/// Number of parameters: positional-only, ordinary and keyword-only ones,
/// plus one each for `*args` and `**kwargs`.
pub open spec fn arg_count(a: Arguments) -> int {
    a.posonlyargs@.len() + a.args@.len() + a.kwonlyargs@.len() + (if a.has_vararg {
        1int
    } else {
        0int
    }) + (if a.has_kwarg {
        1int
    } else {
        0int
    })
}

/// Counts the parameters of a function.
pub fn count_args(a: &Arguments) -> (r: usize)
    ensures
        r == sat(arg_count(*a)),
{
    let mut n = a.posonlyargs.len().saturating_add(a.args.len());
    n = n.saturating_add(a.kwonlyargs.len());
    if a.has_vararg {
        n = n.saturating_add(1);
    }
    if a.has_kwarg {
        n = n.saturating_add(1);
    }
    n
}

// ---------------------------------------------------------------------------
// Branches
// ---------------------------------------------------------------------------

/// Branches a statement adds: one per `if`, `while`, `for`; one per `try`
/// plus one per handler; one per `match` case; plus the branches of every
/// nested block (handler bodies included). Function and class bodies are not
/// entered.
pub open spec fn stmt_branches(s: Stmt) -> int
    decreases s,
{
    match s.kind {
        StmtKind::If { body, orelse, .. } => 1 + block_branches(body@) + block_branches(orelse@),
        StmtKind::While { body, orelse, .. } => 1 + block_branches(body@) + block_branches(orelse@),
        StmtKind::For { body, orelse, .. } => 1 + block_branches(body@) + block_branches(orelse@),
        StmtKind::Try { body, handlers, orelse, finalbody, .. } => 1 + handlers@.len() + block_branches(body@)
            + handler_branches(handlers@) + block_branches(orelse@) + block_branches(finalbody@),
        StmtKind::Match { cases, .. } => cases@.len() + case_branches(cases@),
        StmtKind::With { body, .. } => block_branches(body@),
        _ => 0,
    }
}

/// Branches of a block: the sum over its statements.
pub open spec fn block_branches(b: Seq<Stmt>) -> int
    decreases b,
{
    if b.len() == 0 {
        0
    } else {
        block_branches(b.subrange(0, b.len() - 1)) + stmt_branches(b[b.len() - 1])
    }
}

/// Branches inside the bodies of `except` handlers.
pub open spec fn handler_branches(hs: Seq<ExceptHandler>) -> int
    decreases hs,
{
    if hs.len() == 0 {
        0
    } else {
        handler_branches(hs.subrange(0, hs.len() - 1)) + block_branches(hs[hs.len() - 1].body@)
    }
}

/// Branches inside the bodies of `match` cases.
pub open spec fn case_branches(cs: Seq<MatchCase>) -> int
    decreases cs,
{
    if cs.len() == 0 {
        0
    } else {
        case_branches(cs.subrange(0, cs.len() - 1)) + block_branches(cs[cs.len() - 1].body@)
    }
}

/// Branch counts are never negative.
proof fn lemma_stmt_branches_nonnegative(s: Stmt)
    ensures
        stmt_branches(s) >= 0,
    decreases s,
{
    match s.kind {
        StmtKind::If { body, orelse, .. } => {
            lemma_branches_nonnegative(body@);
            lemma_branches_nonnegative(orelse@);
        },
        StmtKind::While { body, orelse, .. } => {
            lemma_branches_nonnegative(body@);
            lemma_branches_nonnegative(orelse@);
        },
        StmtKind::For { body, orelse, .. } => {
            lemma_branches_nonnegative(body@);
            lemma_branches_nonnegative(orelse@);
        },
        StmtKind::Try { body, handlers, orelse, finalbody, .. } => {
            lemma_branches_nonnegative(body@);
            lemma_handler_branches_nonnegative(handlers@);
            lemma_branches_nonnegative(orelse@);
            lemma_branches_nonnegative(finalbody@);
        },
        StmtKind::Match { cases, .. } => {
            lemma_case_branches_nonnegative(cases@);
        },
        StmtKind::With { body, .. } => {
            lemma_branches_nonnegative(body@);
        },
        _ => {},
    }
}

proof fn lemma_branches_nonnegative(b: Seq<Stmt>)
    ensures
        block_branches(b) >= 0,
    decreases b,
{
    if b.len() > 0 {
        lemma_branches_nonnegative(b.subrange(0, b.len() - 1));
        lemma_stmt_branches_nonnegative(b[b.len() - 1]);
    }
}

proof fn lemma_handler_branches_nonnegative(hs: Seq<ExceptHandler>)
    ensures
        handler_branches(hs) >= 0,
    decreases hs,
{
    if hs.len() > 0 {
        lemma_handler_branches_nonnegative(hs.subrange(0, hs.len() - 1));
        lemma_branches_nonnegative(hs[hs.len() - 1].body@);
    }
}

proof fn lemma_case_branches_nonnegative(cs: Seq<MatchCase>)
    ensures
        case_branches(cs) >= 0,
    decreases cs,
{
    if cs.len() > 0 {
        lemma_case_branches_nonnegative(cs.subrange(0, cs.len() - 1));
        lemma_branches_nonnegative(cs[cs.len() - 1].body@);
    }
}

/// The branches of two blocks run one after the other are the branches of
/// the first plus those of the second.
pub proof fn law_branches_add_over_concatenation(a: Seq<Stmt>, b: Seq<Stmt>)
    ensures
        block_branches(a + b) == block_branches(a) + block_branches(b),
    decreases b.len(),
{
    if b.len() == 0 {
        assert(a + b =~= a);
    } else {
        let ab = a + b;
        let b0 = b.subrange(0, b.len() - 1);
        assert(ab.subrange(0, ab.len() - 1) =~= a + b0);
        assert(ab[ab.len() - 1] == b[b.len() - 1]);
        law_branches_add_over_concatenation(a, b0);
    }
}

/// What `count_branches` reports for two blocks joined: the two counts added,
/// capped at `usize::MAX`.
pub proof fn law_counted_branches_add(a: Seq<Stmt>, b: Seq<Stmt>)
    ensures
        sat(block_branches(a + b)) == sat(block_branches(a) + block_branches(b)),
        block_branches(a) + block_branches(b) <= usize::MAX ==> sat(block_branches(a + b)) == sat(
            block_branches(a),
        ) + sat(block_branches(b)),
{
    law_branches_add_over_concatenation(a, b);
    lemma_branches_nonnegative(a);
    lemma_branches_nonnegative(b);
}

/// A block counts at least the branches of each of its statements.
proof fn lemma_block_counts_each_statement(b: Seq<Stmt>, k: int)
    requires
        0 <= k < b.len(),
    ensures
        block_branches(b) >= stmt_branches(b[k]),
    decreases b.len(),
{
    let p = b.subrange(0, b.len() - 1);
    if k == b.len() - 1 {
        lemma_branches_nonnegative(p);
    } else {
        lemma_block_counts_each_statement(p, k);
        lemma_stmt_branches_nonnegative(b[b.len() - 1]);
        assert(p[k] == b[k]);
    }
}

proof fn lemma_handlers_count_each_body(hs: Seq<ExceptHandler>, k: int)
    requires
        0 <= k < hs.len(),
    ensures
        handler_branches(hs) >= block_branches(hs[k].body@),
    decreases hs.len(),
{
    let p = hs.subrange(0, hs.len() - 1);
    if k == hs.len() - 1 {
        lemma_handler_branches_nonnegative(p);
    } else {
        lemma_handlers_count_each_body(p, k);
        lemma_branches_nonnegative(hs[hs.len() - 1].body@);
        assert(p[k] == hs[k]);
    }
}

proof fn lemma_cases_count_each_body(cs: Seq<MatchCase>, k: int)
    requires
        0 <= k < cs.len(),
    ensures
        case_branches(cs) >= block_branches(cs[k].body@),
    decreases cs.len(),
{
    let p = cs.subrange(0, cs.len() - 1);
    if k == cs.len() - 1 {
        lemma_case_branches_nonnegative(p);
    } else {
        lemma_cases_count_each_body(p, k);
        lemma_branches_nonnegative(cs[cs.len() - 1].body@);
        assert(p[k] == cs[k]);
    }
}

/// Branches are counted through every nested block: a `with` statement has
/// exactly the branches of its body; an `if`, `while` or `for` has one more
/// than each of its blocks; a `try` has one more than its body, `else` and
/// `finally` blocks and counts each handler's body; a `match` counts each
/// case's body. So every statement of a nested block contributes at least
/// its own branches to the statement around it.
pub proof fn law_nested_blocks_are_counted(s: Stmt, k: int)
    ensures
        s.kind matches StmtKind::With { body, .. } ==> stmt_branches(s) == block_branches(body@),
        s.kind matches StmtKind::With { body, .. } ==> (0 <= k < body@.len() ==> stmt_branches(s) >= stmt_branches(
            body@[k],
        )),
        s.kind matches StmtKind::If { body, orelse, .. } ==> stmt_branches(s) >= 1 + block_branches(body@)
            && stmt_branches(s) >= 1 + block_branches(orelse@),
        s.kind matches StmtKind::While { body, orelse, .. } ==> stmt_branches(s) >= 1 + block_branches(body@)
            && stmt_branches(s) >= 1 + block_branches(orelse@),
        s.kind matches StmtKind::For { body, orelse, .. } ==> stmt_branches(s) >= 1 + block_branches(body@)
            && stmt_branches(s) >= 1 + block_branches(orelse@),
        s.kind matches StmtKind::Try { body, handlers, orelse, finalbody, .. } ==> stmt_branches(s) >= 1
            + handlers@.len() + block_branches(body@) && stmt_branches(s) >= 1 + block_branches(orelse@)
            && stmt_branches(s) >= 1 + block_branches(finalbody@) && (0 <= k < handlers@.len() ==> stmt_branches(s)
            >= 1 + block_branches(handlers@[k].body@)),
        s.kind matches StmtKind::Match { cases, .. } ==> stmt_branches(s) >= cases@.len() && (0 <= k < cases@.len()
            ==> stmt_branches(s) >= block_branches(cases@[k].body@)),
{
    match s.kind {
        StmtKind::With { body, .. } => {
            if 0 <= k < body@.len() {
                lemma_block_counts_each_statement(body@, k);
            }
        },
        StmtKind::If { body, orelse, .. } => {
            lemma_branches_nonnegative(body@);
            lemma_branches_nonnegative(orelse@);
        },
        StmtKind::While { body, orelse, .. } => {
            lemma_branches_nonnegative(body@);
            lemma_branches_nonnegative(orelse@);
        },
        StmtKind::For { body, orelse, .. } => {
            lemma_branches_nonnegative(body@);
            lemma_branches_nonnegative(orelse@);
        },
        StmtKind::Try { body, handlers, orelse, finalbody, .. } => {
            lemma_branches_nonnegative(body@);
            lemma_handler_branches_nonnegative(handlers@);
            lemma_branches_nonnegative(orelse@);
            lemma_branches_nonnegative(finalbody@);
            if 0 <= k < handlers@.len() {
                lemma_handlers_count_each_body(handlers@, k);
            }
        },
        StmtKind::Match { cases, .. } => {
            lemma_case_branches_nonnegative(cases@);
            if 0 <= k < cases@.len() {
                lemma_cases_count_each_body(cases@, k);
            }
        },
        _ => {},
    }
}

/// A statement that opens no block of its own: not an `if`, `while`, `for`,
/// `try`, `match` or `with`.
pub open spec fn is_flat(s: Stmt) -> bool {
    !(s.kind is If || s.kind is While || s.kind is For || s.kind is Try || s.kind is Match || s.kind is With)
}

/// What each kind of statement adds by itself: nothing for a flat
/// statement or a `with`; one for an `if`, `while` or `for`; one plus one per
/// handler for a `try`; one per case for a `match`. So a statement whose
/// nested blocks have no branches has exactly that many.
pub proof fn law_branches_each_statement_adds(s: Stmt)
    ensures
        is_flat(s) ==> stmt_branches(s) == 0,
        s.kind matches StmtKind::With { body, .. } ==> (block_branches(body@) == 0 ==> stmt_branches(s) == 0),
        s.kind matches StmtKind::If { body, orelse, .. } ==> (block_branches(body@) == 0 && block_branches(orelse@)
            == 0 ==> stmt_branches(s) == 1),
        s.kind matches StmtKind::While { body, orelse, .. } ==> (block_branches(body@) == 0 && block_branches(
            orelse@,
        ) == 0 ==> stmt_branches(s) == 1),
        s.kind matches StmtKind::For { body, orelse, .. } ==> (block_branches(body@) == 0 && block_branches(orelse@)
            == 0 ==> stmt_branches(s) == 1),
        s.kind matches StmtKind::Try { body, handlers, orelse, finalbody, .. } ==> (block_branches(body@) == 0
            && handler_branches(handlers@) == 0 && block_branches(orelse@) == 0 && block_branches(finalbody@) == 0
            ==> stmt_branches(s) == 1 + handlers@.len()),
        s.kind matches StmtKind::Match { cases, .. } ==> (case_branches(cases@) == 0 ==> stmt_branches(s)
            == cases@.len()),
{
}

/// A block of flat statements has no branches.
pub proof fn law_flat_block_has_no_branches(b: Seq<Stmt>)
    requires
        forall|k: int| 0 <= k < b.len() ==> is_flat(#[trigger] b[k]),
    ensures
        block_branches(b) == 0,
    decreases b.len(),
{
    if b.len() > 0 {
        let p = b.subrange(0, b.len() - 1);
        assert forall|k: int| 0 <= k < p.len() implies is_flat(#[trigger] p[k]) by {
            assert(p[k] == b[k]);
        }
        law_flat_block_has_no_branches(p);
        law_branches_each_statement_adds(b[b.len() - 1]);
    }
}

/// A block's branch count is at least the number of `if`, `while` and `for`
/// statements directly in it, and at least the branches of any statement in it.
pub proof fn law_block_counts_its_statements(b: Seq<Stmt>, k: int)
    requires
        0 <= k < b.len(),
    ensures
        block_branches(b) >= stmt_branches(b[k]),
        block_branches(b) >= b.filter(|t: Stmt| t.kind is If || t.kind is While || t.kind is For).len(),
{
    lemma_block_counts_each_statement(b, k);
    lemma_block_counts_loops_and_ifs(b);
}

proof fn lemma_block_counts_loops_and_ifs(b: Seq<Stmt>)
    ensures
        block_branches(b) >= b.filter(|t: Stmt| t.kind is If || t.kind is While || t.kind is For).len(),
    decreases b.len(),
{
    let f = |t: Stmt| t.kind is If || t.kind is While || t.kind is For;
    if b.len() == 0 {
        assert(b.filter(f) =~= Seq::<Stmt>::empty());
    } else {
        let p = b.subrange(0, b.len() - 1);
        lemma_block_counts_loops_and_ifs(p);
        assert(p =~= b.drop_last());
        p.lemma_filter_push(b.last(), f);
        assert(p.push(b.last()) =~= b);
        lemma_stmt_branches_nonnegative(b.last());
        law_nested_blocks_are_counted(b.last(), 0);
        match b.last().kind {
            StmtKind::If { body, orelse, .. } => {
                lemma_branches_nonnegative(body@);
            },
            StmtKind::While { body, orelse, .. } => {
                lemma_branches_nonnegative(body@);
            },
            StmtKind::For { body, orelse, .. } => {
                lemma_branches_nonnegative(body@);
            },
            _ => {},
        }
    }
}

/// Counts the branches of a block.
pub fn count_branches(stmts: &Vec<Stmt>) -> (r: usize)
    ensures
        r == sat(block_branches(stmts@)),
    decreases stmts,
{
    let mut n: usize = 0;
    let mut i: usize = 0;
    proof {
        assert(stmts@.subrange(0, 0) =~= Seq::<Stmt>::empty());
    }
    while i < stmts.len()
        invariant
            i <= stmts@.len(),
            n == sat(block_branches(stmts@.subrange(0, i as int))),
        decreases stmts@.len() - i,
    {
        let x = stmt_branch_count(&stmts[i]);
        proof {
            let p = stmts@.subrange(0, i + 1);
            assert(p.subrange(0, p.len() - 1) =~= stmts@.subrange(0, i as int));
            assert(p[p.len() - 1] == stmts@[i as int]);
        }
        n = n.saturating_add(x);
        i = i + 1;
    }
    proof {
        assert(stmts@.subrange(0, stmts@.len() as int) =~= stmts@);
    }
    n
}

fn stmt_branch_count(s: &Stmt) -> (r: usize)
    ensures
        r == sat(stmt_branches(*s)),
    decreases s,
{
    match &s.kind {
        StmtKind::If { body, orelse, .. } => 1usize.saturating_add(count_branches(body)).saturating_add(
            count_branches(orelse),
        ),
        StmtKind::While { body, orelse, .. } => 1usize.saturating_add(count_branches(body)).saturating_add(
            count_branches(orelse),
        ),
        StmtKind::For { body, orelse, .. } => 1usize.saturating_add(count_branches(body)).saturating_add(
            count_branches(orelse),
        ),
        StmtKind::Try { body, handlers, orelse, finalbody, .. } => {
            let mut n = 1usize.saturating_add(handlers.len());
            n = n.saturating_add(count_branches(body));
            n = n.saturating_add(count_handler_branches(handlers));
            n = n.saturating_add(count_branches(orelse));
            n.saturating_add(count_branches(finalbody))
        },
        StmtKind::Match { cases, .. } => cases.len().saturating_add(count_case_branches(cases)),
        StmtKind::With { body, .. } => count_branches(body),
        _ => 0,
    }
}

fn count_handler_branches(hs: &Vec<ExceptHandler>) -> (r: usize)
    ensures
        r == sat(handler_branches(hs@)),
    decreases hs,
{
    let mut n: usize = 0;
    let mut i: usize = 0;
    proof {
        assert(hs@.subrange(0, 0) =~= Seq::<ExceptHandler>::empty());
    }
    while i < hs.len()
        invariant
            i <= hs@.len(),
            n == sat(handler_branches(hs@.subrange(0, i as int))),
        decreases hs@.len() - i,
    {
        let x = count_branches(&hs[i].body);
        proof {
            let p = hs@.subrange(0, i + 1);
            assert(p.subrange(0, p.len() - 1) =~= hs@.subrange(0, i as int));
            assert(p[p.len() - 1] == hs@[i as int]);
        }
        n = n.saturating_add(x);
        i = i + 1;
    }
    proof {
        assert(hs@.subrange(0, hs@.len() as int) =~= hs@);
    }
    n
}

fn count_case_branches(cs: &Vec<MatchCase>) -> (r: usize)
    ensures
        r == sat(case_branches(cs@)),
    decreases cs,
{
    let mut n: usize = 0;
    let mut i: usize = 0;
    proof {
        assert(cs@.subrange(0, 0) =~= Seq::<MatchCase>::empty());
    }
    while i < cs.len()
        invariant
            i <= cs@.len(),
            n == sat(case_branches(cs@.subrange(0, i as int))),
        decreases cs@.len() - i,
    {
        let x = count_branches(&cs[i].body);
        proof {
            let p = cs@.subrange(0, i + 1);
            assert(p.subrange(0, p.len() - 1) =~= cs@.subrange(0, i as int));
            assert(p[p.len() - 1] == cs@[i as int]);
        }
        n = n.saturating_add(x);
        i = i + 1;
    }
    proof {
        assert(cs@.subrange(0, cs@.len() as int) =~= cs@);
    }
    n
}

// ---------------------------------------------------------------------------
// Conditional nesting depth
// ---------------------------------------------------------------------------

/// The deepest conditional nesting reached by a statement entered at depth
/// `d`: `if` (both arms), `while` and `for` bodies, `try` (body, handlers,
/// `else`, `finally`) and `match` cases go one level deeper; `with` bodies
/// stay at the same level; function and class bodies are not entered. The
/// depth counter saturates at `usize::MAX`.
pub open spec fn stmt_depth(s: Stmt, d: int) -> int
    decreases s,
{
    let d1 = sat(d + 1);
    match s.kind {
        StmtKind::If { body, orelse, .. } => max_int(block_depth(body@, d1), block_depth(orelse@, d1)),
        StmtKind::While { body, .. } => block_depth(body@, d1),
        StmtKind::For { body, .. } => block_depth(body@, d1),
        StmtKind::Try { body, handlers, orelse, finalbody, .. } => max_int(
            max_int(max_int(block_depth(body@, d1), handler_depth(handlers@, d1)), block_depth(orelse@, d1)),
            block_depth(finalbody@, d1),
        ),
        StmtKind::Match { cases, .. } => max_int(d, case_depth(cases@, d1)),
        StmtKind::With { body, .. } => block_depth(body@, d),
        _ => d,
    }
}

/// The deepest nesting reached by a block entered at depth `d` (at least `d`).
pub open spec fn block_depth(b: Seq<Stmt>, d: int) -> int
    decreases b,
{
    if b.len() == 0 {
        d
    } else {
        max_int(block_depth(b.subrange(0, b.len() - 1), d), stmt_depth(b[b.len() - 1], d))
    }
}

/// The deepest nesting reached by the handler bodies (0 when there are none).
pub open spec fn handler_depth(hs: Seq<ExceptHandler>, d: int) -> int
    decreases hs,
{
    if hs.len() == 0 {
        0
    } else {
        max_int(handler_depth(hs.subrange(0, hs.len() - 1), d), block_depth(hs[hs.len() - 1].body@, d))
    }
}

/// The deepest nesting reached by the case bodies (0 when there are none).
pub open spec fn case_depth(cs: Seq<MatchCase>, d: int) -> int
    decreases cs,
{
    if cs.len() == 0 {
        0
    } else {
        max_int(case_depth(cs.subrange(0, cs.len() - 1), d), block_depth(cs[cs.len() - 1].body@, d))
    }
}

/// Entered at depth `d`, nothing reports a shallower depth.
proof fn lemma_stmt_depth_at_least(s: Stmt, d: int)
    requires
        0 <= d <= usize::MAX,
    ensures
        stmt_depth(s, d) >= d,
    decreases s,
{
    let d1 = sat(d + 1);
    match s.kind {
        StmtKind::If { body, orelse, .. } => {
            lemma_block_depth_at_least(body@, d1);
        },
        StmtKind::While { body, .. } => {
            lemma_block_depth_at_least(body@, d1);
        },
        StmtKind::For { body, .. } => {
            lemma_block_depth_at_least(body@, d1);
        },
        StmtKind::Try { body, .. } => {
            lemma_block_depth_at_least(body@, d1);
        },
        StmtKind::With { body, .. } => {
            lemma_block_depth_at_least(body@, d);
        },
        _ => {},
    }
}

proof fn lemma_block_depth_at_least(b: Seq<Stmt>, d: int)
    requires
        0 <= d <= usize::MAX,
    ensures
        block_depth(b, d) >= d,
    decreases b,
{
    if b.len() > 0 {
        lemma_block_depth_at_least(b.subrange(0, b.len() - 1), d);
    }
}

/// A block is at least as deep as each of its statements.
proof fn lemma_block_depth_covers(b: Seq<Stmt>, d: int, k: int)
    requires
        0 <= k < b.len(),
    ensures
        block_depth(b, d) >= stmt_depth(b[k], d),
    decreases b.len(),
{
    let p = b.subrange(0, b.len() - 1);
    if k < b.len() - 1 {
        lemma_block_depth_covers(p, d, k);
        assert(p[k] == b[k]);
    }
}

/// Every `if`, `while` and `for` opens one more level of nesting: entered at
/// depth `d`, such a statement reaches at least `d + 1`, and each statement
/// of its body (or of either arm of an `if`) is measured one level deeper
/// than `d`, so the loop is at least as deep as it. A `with` keeps its body
/// at the same level. No statement reports less than the depth it is
/// entered at.
pub proof fn law_loops_and_ifs_nest_one_level(s: Stmt, d: int, k: int)
    requires
        0 <= d < usize::MAX,
    ensures
        stmt_depth(s, d) >= d,
        (s.kind is If || s.kind is While || s.kind is For) ==> stmt_depth(s, d) >= d + 1,
        s.kind matches StmtKind::For { body, .. } ==> (0 <= k < body@.len() ==> stmt_depth(s, d) >= stmt_depth(
            body@[k],
            d + 1,
        )),
        s.kind matches StmtKind::While { body, .. } ==> (0 <= k < body@.len() ==> stmt_depth(s, d) >= stmt_depth(
            body@[k],
            d + 1,
        )),
        s.kind matches StmtKind::If { body, orelse, .. } ==> (0 <= k < body@.len() ==> stmt_depth(s, d)
            >= stmt_depth(body@[k], d + 1)) && (0 <= k < orelse@.len() ==> stmt_depth(s, d) >= stmt_depth(
            orelse@[k],
            d + 1,
        )),
        s.kind matches StmtKind::With { body, .. } ==> (0 <= k < body@.len() ==> stmt_depth(s, d) >= stmt_depth(
            body@[k],
            d,
        )),
{
    lemma_stmt_depth_at_least(s, d);
    match s.kind {
        StmtKind::If { body, orelse, .. } => {
            lemma_block_depth_at_least(body@, d + 1);
            if 0 <= k < body@.len() {
                lemma_block_depth_covers(body@, d + 1, k);
            }
            if 0 <= k < orelse@.len() {
                lemma_block_depth_covers(orelse@, d + 1, k);
            }
        },
        StmtKind::While { body, .. } => {
            lemma_block_depth_at_least(body@, d + 1);
            if 0 <= k < body@.len() {
                lemma_block_depth_covers(body@, d + 1, k);
            }
        },
        StmtKind::For { body, .. } => {
            lemma_block_depth_at_least(body@, d + 1);
            if 0 <= k < body@.len() {
                lemma_block_depth_covers(body@, d + 1, k);
            }
        },
        StmtKind::With { body, .. } => {
            if 0 <= k < body@.len() {
                lemma_block_depth_covers(body@, d, k);
            }
        },
        _ => {},
    }
}

/// A block of flat statements entered at depth `d` stays at depth `d`.
pub proof fn law_flat_block_keeps_depth(b: Seq<Stmt>, d: int)
    requires
        forall|k: int| 0 <= k < b.len() ==> is_flat(#[trigger] b[k]),
    ensures
        block_depth(b, d) == d,
    decreases b.len(),
{
    if b.len() > 0 {
        let p = b.subrange(0, b.len() - 1);
        assert forall|k: int| 0 <= k < p.len() implies is_flat(#[trigger] p[k]) by {
            assert(p[k] == b[k]);
        }
        law_flat_block_keeps_depth(p, d);
        let t = b[b.len() - 1];
        assert(is_flat(t));
        assert(stmt_depth(t, d) == d);
    }
}

/// Exact depths over flat blocks: a flat statement stays at the depth it is
/// entered at; a `with` of flat statements stays there too; an `if`, `while`
/// or `for` whose blocks are flat reaches exactly one level deeper.
pub proof fn law_depth_of_one_level(s: Stmt, d: int)
    requires
        0 <= d < usize::MAX,
    ensures
        is_flat(s) ==> stmt_depth(s, d) == d,
        s.kind matches StmtKind::With { body, .. } ==> ((forall|k: int|
            0 <= k < body@.len() ==> is_flat(#[trigger] body@[k])) ==> stmt_depth(s, d) == d),
        s.kind matches StmtKind::For { body, .. } ==> ((forall|k: int|
            0 <= k < body@.len() ==> is_flat(#[trigger] body@[k])) ==> stmt_depth(s, d) == d + 1),
        s.kind matches StmtKind::While { body, .. } ==> ((forall|k: int|
            0 <= k < body@.len() ==> is_flat(#[trigger] body@[k])) ==> stmt_depth(s, d) == d + 1),
        s.kind matches StmtKind::If { body, orelse, .. } ==> ((forall|k: int|
            0 <= k < body@.len() ==> is_flat(#[trigger] body@[k])) && (forall|k: int|
            0 <= k < orelse@.len() ==> is_flat(#[trigger] orelse@[k])) ==> stmt_depth(s, d) == d + 1),
{
    match s.kind {
        StmtKind::With { body, .. } => {
            if forall|k: int| 0 <= k < body@.len() ==> is_flat(#[trigger] body@[k]) {
                law_flat_block_keeps_depth(body@, d);
            }
        },
        StmtKind::For { body, .. } => {
            if forall|k: int| 0 <= k < body@.len() ==> is_flat(#[trigger] body@[k]) {
                law_flat_block_keeps_depth(body@, d + 1);
            }
        },
        StmtKind::While { body, .. } => {
            if forall|k: int| 0 <= k < body@.len() ==> is_flat(#[trigger] body@[k]) {
                law_flat_block_keeps_depth(body@, d + 1);
            }
        },
        StmtKind::If { body, orelse, .. } => {
            if (forall|k: int| 0 <= k < body@.len() ==> is_flat(#[trigger] body@[k])) && (forall|k: int|
                0 <= k < orelse@.len() ==> is_flat(#[trigger] orelse@[k])) {
                law_flat_block_keeps_depth(body@, d + 1);
                law_flat_block_keeps_depth(orelse@, d + 1);
            }
        },
        _ => {},
    }
}

/// The deepest conditional nesting of a block entered at `depth`.
pub fn max_conditional_depth(stmts: &Vec<Stmt>, depth: usize) -> (r: usize)
    ensures
        r == block_depth(stmts@, depth as int),
    decreases stmts, 0nat,
{
    let mut m: usize = depth;
    let mut i: usize = 0;
    proof {
        assert(stmts@.subrange(0, 0) =~= Seq::<Stmt>::empty());
    }
    while i < stmts.len()
        invariant
            i <= stmts@.len(),
            m == block_depth(stmts@.subrange(0, i as int), depth as int),
        decreases stmts@.len() - i,
    {
        let x = stmt_conditional_depth(&stmts[i], depth);
        proof {
            let p = stmts@.subrange(0, i + 1);
            assert(p.subrange(0, p.len() - 1) =~= stmts@.subrange(0, i as int));
            assert(p[p.len() - 1] == stmts@[i as int]);
        }
        if x > m {
            m = x;
        }
        i = i + 1;
    }
    proof {
        assert(stmts@.subrange(0, stmts@.len() as int) =~= stmts@);
    }
    m
}

fn bigger(a: usize, b: usize) -> (r: usize)
    ensures
        r == max_int(a as int, b as int),
{
    if a >= b {
        a
    } else {
        b
    }
}

fn stmt_conditional_depth(s: &Stmt, depth: usize) -> (r: usize)
    ensures
        r == stmt_depth(*s, depth as int),
    decreases s, 1nat,
{
    let d1 = depth.saturating_add(1);
    match &s.kind {
        StmtKind::If { body, orelse, .. } => bigger(
            max_conditional_depth(body, d1),
            max_conditional_depth(orelse, d1),
        ),
        StmtKind::While { body, .. } => max_conditional_depth(body, d1),
        StmtKind::For { body, .. } => max_conditional_depth(body, d1),
        StmtKind::Try { .. } => depth_try(s, d1),
        StmtKind::Match { cases, .. } => bigger(depth, cases_conditional_depth(cases, d1)),
        StmtKind::With { body, .. } => max_conditional_depth(body, depth),
        _ => depth,
    }
}

/// The deepest nesting inside a `try` statement whose blocks are entered at `d`.
fn depth_try(s: &Stmt, d: usize) -> (r: usize)
    requires
        s.kind is Try,
    ensures
        r == match s.kind {
            StmtKind::Try { body, handlers, orelse, finalbody, .. } => max_int(
                max_int(
                    max_int(block_depth(body@, d as int), handler_depth(handlers@, d as int)),
                    block_depth(orelse@, d as int),
                ),
                block_depth(finalbody@, d as int),
            ),
            _ => 0,
        },
    decreases s, 0nat,
{
    match &s.kind {
        StmtKind::Try { body, handlers, orelse, finalbody, .. } => {
            let mut m = max_conditional_depth(body, d);
            m = bigger(m, handlers_conditional_depth(handlers, d));
            m = bigger(m, max_conditional_depth(orelse, d));
            bigger(m, max_conditional_depth(finalbody, d))
        },
        _ => 0,
    }
}

fn handlers_conditional_depth(hs: &Vec<ExceptHandler>, d: usize) -> (r: usize)
    ensures
        r == handler_depth(hs@, d as int),
    decreases hs, 0nat,
{
    let mut m: usize = 0;
    let mut i: usize = 0;
    proof {
        assert(hs@.subrange(0, 0) =~= Seq::<ExceptHandler>::empty());
    }
    while i < hs.len()
        invariant
            i <= hs@.len(),
            m == handler_depth(hs@.subrange(0, i as int), d as int),
        decreases hs@.len() - i,
    {
        let x = max_conditional_depth(&hs[i].body, d);
        proof {
            let p = hs@.subrange(0, i + 1);
            assert(p.subrange(0, p.len() - 1) =~= hs@.subrange(0, i as int));
            assert(p[p.len() - 1] == hs@[i as int]);
        }
        m = bigger(m, x);
        i = i + 1;
    }
    proof {
        assert(hs@.subrange(0, hs@.len() as int) =~= hs@);
    }
    m
}

fn cases_conditional_depth(cs: &Vec<MatchCase>, d: usize) -> (r: usize)
    ensures
        r == case_depth(cs@, d as int),
    decreases cs, 0nat,
{
    let mut m: usize = 0;
    let mut i: usize = 0;
    proof {
        assert(cs@.subrange(0, 0) =~= Seq::<MatchCase>::empty());
    }
    while i < cs.len()
        invariant
            i <= cs@.len(),
            m == case_depth(cs@.subrange(0, i as int), d as int),
        decreases cs@.len() - i,
    {
        let x = max_conditional_depth(&cs[i].body, d);
        proof {
            let p = cs@.subrange(0, i + 1);
            assert(p.subrange(0, p.len() - 1) =~= cs@.subrange(0, i as int));
            assert(p[p.len() - 1] == cs@[i as int]);
        }
        m = bigger(m, x);
        i = i + 1;
    }
    proof {
        assert(cs@.subrange(0, cs@.len() as int) =~= cs@);
    }
    m
}

// ---------------------------------------------------------------------------
// Docstrings
// ---------------------------------------------------------------------------

/// The block opens with a string-literal expression statement (PEP 257).
pub open spec fn starts_with_docstring(body: Seq<Stmt>) -> bool {
    body.len() > 0 && match body[0].kind {
        StmtKind::Expr { value } => match value.kind {
            ExprKind::Constant { value: Constant::Str(_) } => true,
            _ => false,
        },
        _ => false,
    }
}

/// True when the first statement is a string-literal expression (a docstring).
pub fn body_starts_with_docstring(body: &Vec<Stmt>) -> (r: bool)
    ensures
        r == starts_with_docstring(body@),
{
    if body.len() == 0 {
        return false;
    }
    match &body[0].kind {
        StmtKind::Expr { value } => match &value.kind {
            ExprKind::Constant { value: Constant::Str(_) } => true,
            _ => false,
        },
        _ => false,
    }
}

// ---------------------------------------------------------------------------
// Line span of a body
// ---------------------------------------------------------------------------

/// Function and class definitions, whose headers a body's span leaves out.
pub open spec fn is_definition(s: Stmt) -> bool {
    s.kind is FunctionDef || s.kind is ClassDef
}

/// The first start line and last end line of the statements of `b` that
/// are not definitions, if there are any.
pub open spec fn line_range(bytes: Seq<u8>, b: Seq<Stmt>) -> Option<(int, int)>
    decreases b.len(),
{
    if b.len() == 0 {
        None
    } else {
        let prev = line_range(bytes, b.drop_last());
        let s = b.last();
        if is_definition(s) {
            prev
        } else {
            let lo = spec_line_col(bytes, s.start as int).0;
            let hi = spec_line_col(bytes, s.end as int).0;
            match prev {
                None => Some((lo, hi)),
                Some((a, c)) => Some((if lo < a { lo } else { a }, max_int(c, hi))),
            }
        }
    }
}

/// Lines spanned by the body's statements (definitions excluded, the `def`
/// header not counted): last line minus first line plus one, or 0.
pub open spec fn span_of(bytes: Seq<u8>, b: Seq<Stmt>) -> int {
    match line_range(bytes, b) {
        None => 0,
        Some((a, c)) => sat(max_int(c - a, 0) + 1),
    }
}

/// The line of a byte offset.
pub open spec fn line_of(bytes: Seq<u8>, o: int) -> int {
    spec_line_col(bytes, o).0
}

/// The range reaches back to every non-definition statement's first line and
/// on to its last line.
proof fn lemma_line_range_covers(bytes: Seq<u8>, b: Seq<Stmt>, k: int)
    requires
        0 <= k < b.len(),
        !is_definition(b[k]),
    ensures
        line_range(bytes, b) matches Some((lo, hi)) && lo <= line_of(bytes, b[k].start as int) && hi >= line_of(
            bytes,
            b[k].end as int,
        ),
    decreases b.len(),
{
    let p = b.drop_last();
    if k < b.len() - 1 {
        assert(p[k] == b[k]);
        lemma_line_range_covers(bytes, p, k);
    }
}

/// A body spans every line of its statements: for any two statements of it
/// that are not definitions, the span reaches from the line where the first
/// one starts to the line where the second one ends (a statement ending on a
/// later line than it starts, such as a `for` block, counts to its last
/// line). In particular it is at least the number of lines any one such
/// statement covers.
pub proof fn law_span_covers_statement_lines(bytes: Seq<u8>, b: Seq<Stmt>, j: int, k: int)
    requires
        0 <= j < b.len(),
        0 <= k < b.len(),
        !is_definition(b[j]),
        !is_definition(b[k]),
    ensures
        span_of(bytes, b) >= 1,
        span_of(bytes, b) >= sat(line_of(bytes, b[k].end as int) - line_of(bytes, b[j].start as int) + 1),
        span_of(bytes, b) >= sat(line_of(bytes, b[k].end as int) - line_of(bytes, b[k].start as int) + 1),
{
    lemma_line_range_covers(bytes, b, j);
    lemma_line_range_covers(bytes, b, k);
}

proof fn lemma_line_range_attained(bytes: Seq<u8>, b: Seq<Stmt>)
    ensures
        line_range(bytes, b) is None <==> (forall|k: int| 0 <= k < b.len() ==> is_definition(#[trigger] b[k])),
        line_range(bytes, b) matches Some((lo, hi)) ==> exists|j: int, k: int|
            0 <= j < b.len() && 0 <= k < b.len() && !is_definition(#[trigger] b[j]) && !is_definition(
                #[trigger] b[k],
            ) && lo == line_of(bytes, b[j].start as int) && hi == line_of(bytes, b[k].end as int),
    decreases b.len(),
{
    if b.len() > 0 {
        let p = b.drop_last();
        lemma_line_range_attained(bytes, p);
        assert forall|k: int| 0 <= k < p.len() implies p[k] == b[k] by {}
        let n = b.len() - 1;
        if !is_definition(b[n]) {
            match line_range(bytes, p) {
                None => {
                    assert(!is_definition(b[n]) && !is_definition(b[n]));
                },
                Some((a, c)) => {
                    let (j, k) = choose|j: int, k: int|
                        0 <= j < p.len() && 0 <= k < p.len() && !is_definition(#[trigger] p[j]) && !is_definition(
                            #[trigger] p[k],
                        ) && a == line_of(bytes, p[j].start as int) && c == line_of(bytes, p[k].end as int);
                    assert(b[j] == p[j] && b[k] == p[k]);
                    assert(!is_definition(b[n]));
                },
            }
        } else {
            if forall|k: int| 0 <= k < p.len() ==> is_definition(#[trigger] p[k]) {
                assert forall|k: int| 0 <= k < b.len() implies is_definition(#[trigger] b[k]) by {
                    if k < n {
                        assert(b[k] == p[k]);
                    }
                }
            }
            match line_range(bytes, p) {
                Some((a, c)) => {
                    let (j, k) = choose|j: int, k: int|
                        0 <= j < p.len() && 0 <= k < p.len() && !is_definition(#[trigger] p[j]) && !is_definition(
                            #[trigger] p[k],
                        ) && a == line_of(bytes, p[j].start as int) && c == line_of(bytes, p[k].end as int);
                    assert(b[j] == p[j] && b[k] == p[k]);
                },
                None => {},
            }
        }
    }
}

/// The span is exactly from the first line a statement starts on to the last
/// line a statement ends on: 0 when the body has only definitions, else
/// one line more than the distance between some statement's start line and
/// some statement's end line (with the bounds of
/// [`law_span_covers_statement_lines`], the earliest start and the latest
/// end).
pub proof fn law_span_is_attained(bytes: Seq<u8>, b: Seq<Stmt>)
    ensures
        (forall|k: int| 0 <= k < b.len() ==> is_definition(#[trigger] b[k])) ==> span_of(bytes, b) == 0,
        !(forall|k: int| 0 <= k < b.len() ==> is_definition(#[trigger] b[k])) ==> exists|j: int, k: int|
            0 <= j < b.len() && 0 <= k < b.len() && !is_definition(#[trigger] b[j]) && !is_definition(#[trigger] b[k])
                && span_of(bytes, b) == sat(
                max_int(line_of(bytes, b[k].end as int) - line_of(bytes, b[j].start as int), 0) + 1,
            ),
{
    lemma_line_range_attained(bytes, b);
}

/// Number of source lines the body's statements span.
pub fn stmt_line_span(source: &str, body: &Vec<Stmt>) -> (r: usize)
    requires
        source.spec_bytes().len() < usize::MAX,
    ensures
        r == span_of(source.spec_bytes(), body@),
{
    let ghost bytes = source.spec_bytes();
    let mut range: Option<(usize, usize)> = None;
    let mut i: usize = 0;
    while i < body.len()
        invariant
            i <= body@.len(),
            bytes == source.spec_bytes(),
            bytes.len() < usize::MAX,
            line_range(bytes, body@.take(i as int)) == match range {
                None => None::<(int, int)>,
                Some((a, c)) => Some((a as int, c as int)),
            },
        decreases body@.len() - i,
    {
        proof {
            assert(body@.take(i + 1).drop_last() =~= body@.take(i as int));
            assert(body@.take(i + 1).last() == body@[i as int]);
        }
        let s = &body[i];
        let skip = match &s.kind {
            StmtKind::FunctionDef { .. } => true,
            StmtKind::ClassDef { .. } => true,
            _ => false,
        };
        if !skip {
            let (lo, _) = line_col_at(source, s.start);
            let (hi, _) = line_col_at(source, s.end);
            range = match range {
                None => Some((lo, hi)),
                Some((a, c)) => Some((if lo < a { lo } else { a }, if c >= hi { c } else { hi })),
            };
        }
        i = i + 1;
    }
    proof {
        assert(body@.take(body@.len() as int) =~= body@);
    }
    match range {
        None => 0,
        Some((a, c)) => c.saturating_sub(a).saturating_add(1),
    }
}

} // verus!
