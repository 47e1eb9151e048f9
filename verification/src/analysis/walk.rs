//! Traversals of the syntax tree: every statement of a module in pre-order,
//! and every expression reachable from those statements.
use vstd::prelude::*;
use crate::parser::ast::{
    Comprehension, ExceptHandler, Expr, ExprKind, MatchCase, Module, Pattern, Stmt, StmtKind, WithItem,
};

verus! {

/// The values behind a sequence of references.
pub open spec fn derefs<T>(s: Seq<&T>) -> Seq<T> {
    s.map_values(|r: &T| *r)
}

proof fn lemma_derefs_push<T>(s: Seq<&T>, x: &T)
    ensures
        derefs(s.push(x)) == derefs(s).push(*x),
{
    assert(derefs(s.push(x)) =~= derefs(s).push(*x));
}

// ---------------------------------------------------------------------------
// Statements
// ---------------------------------------------------------------------------

/// A statement followed by every statement nested in it, in pre-order:
/// bodies of functions, classes, `if`/`while`/`for` (with their `else`),
/// `with`, `try` (body, handlers, `else`, `finally`) and `match` cases.
pub open spec fn walk_stmt(s: Stmt) -> Seq<Stmt>
    decreases s,
{
    seq![s] + match s.kind {
        StmtKind::FunctionDef { body, .. } => walk_block(body@),
        StmtKind::ClassDef { body, .. } => walk_block(body@),
        StmtKind::If { body, orelse, .. } => walk_block(body@) + walk_block(orelse@),
        StmtKind::While { body, orelse, .. } => walk_block(body@) + walk_block(orelse@),
        StmtKind::For { body, orelse, .. } => walk_block(body@) + walk_block(orelse@),
        StmtKind::With { body, .. } => walk_block(body@),
        StmtKind::Try { body, handlers, orelse, finalbody, .. } => walk_block(body@) + walk_handlers(handlers@)
            + walk_block(orelse@) + walk_block(finalbody@),
        StmtKind::Match { cases, .. } => walk_cases(cases@),
        _ => Seq::empty(),
    }
}

/// Every statement of a block and of its nested blocks, in pre-order.
pub open spec fn walk_block(b: Seq<Stmt>) -> Seq<Stmt>
    decreases b,
{
    if b.len() == 0 {
        Seq::empty()
    } else {
        walk_stmt(b[0]) + walk_block(b.subrange(1, b.len() as int))
    }
}

/// The statements of the bodies of `except` handlers.
pub open spec fn walk_handlers(hs: Seq<ExceptHandler>) -> Seq<Stmt>
    decreases hs,
{
    if hs.len() == 0 {
        Seq::empty()
    } else {
        walk_block(hs[0].body@) + walk_handlers(hs.subrange(1, hs.len() as int))
    }
}

/// The statements of the bodies of `match` cases.
pub open spec fn walk_cases(cs: Seq<MatchCase>) -> Seq<Stmt>
    decreases cs,
{
    if cs.len() == 0 {
        Seq::empty()
    } else {
        walk_block(cs[0].body@) + walk_cases(cs.subrange(1, cs.len() as int))
    }
}

/// Every statement of a module, in pre-order.
pub open spec fn module_stmts(m: Module) -> Seq<Stmt> {
    walk_block(m.body@)
}

/// Appends `walk_stmt(s)`.
pub fn collect_stmt<'a>(s: &'a Stmt, out: &mut Vec<&'a Stmt>)
    ensures
        derefs(final(out)@) == derefs(old(out)@) + walk_stmt(*s),
    decreases s,
{
    let ghost o = out@;
    out.push(s);
    proof {
        lemma_derefs_push(o, s);
    }
    let ghost o1 = derefs(out@);
    match &s.kind {
        StmtKind::FunctionDef { body, .. } => {
            collect_block(body, out);
        },
        StmtKind::ClassDef { body, .. } => {
            collect_block(body, out);
        },
        StmtKind::If { body, orelse, .. } => {
            collect_block(body, out);
            collect_block(orelse, out);
        },
        StmtKind::While { body, orelse, .. } => {
            collect_block(body, out);
            collect_block(orelse, out);
        },
        StmtKind::For { body, orelse, .. } => {
            collect_block(body, out);
            collect_block(orelse, out);
        },
        StmtKind::With { body, .. } => {
            collect_block(body, out);
        },
        StmtKind::Try { body, handlers, orelse, finalbody, .. } => {
            collect_block(body, out);
            collect_handlers(handlers, out);
            collect_block(orelse, out);
            collect_block(finalbody, out);
        },
        StmtKind::Match { cases, .. } => {
            collect_cases(cases, out);
        },
        _ => {},
    }
    proof {
        assert(derefs(out@) =~= derefs(o) + walk_stmt(*s));
    }
}

/// Appends `walk_block(b)`.
pub fn collect_block<'a>(b: &'a Vec<Stmt>, out: &mut Vec<&'a Stmt>)
    ensures
        derefs(final(out)@) == derefs(old(out)@) + walk_block(b@),
    decreases b,
{
    let ghost start = derefs(out@);
    let mut i: usize = 0;
    proof {
        assert(b@.subrange(0, b@.len() as int) =~= b@);
    }
    while i < b.len()
        invariant
            i <= b@.len(),
            derefs(out@) + walk_block(b@.subrange(i as int, b@.len() as int)) == start + walk_block(b@),
        decreases b@.len() - i,
    {
        let ghost before = derefs(out@);
        proof {
            let rest = b@.subrange(i as int, b@.len() as int);
            assert(rest[0] == b@[i as int]);
            assert(rest.subrange(1, rest.len() as int) =~= b@.subrange(i + 1, b@.len() as int));
        }
        collect_stmt(&b[i], out);
        proof {
            assert(derefs(out@) + walk_block(b@.subrange(i + 1, b@.len() as int)) =~= before + walk_block(
                b@.subrange(i as int, b@.len() as int),
            ));
        }
        i = i + 1;
    }
    proof {
        assert(b@.subrange(i as int, b@.len() as int) =~= Seq::<Stmt>::empty());
        assert(derefs(out@) + Seq::<Stmt>::empty() =~= derefs(out@));
    }
}

/// Appends `walk_handlers(hs)`.
pub fn collect_handlers<'a>(hs: &'a Vec<ExceptHandler>, out: &mut Vec<&'a Stmt>)
    ensures
        derefs(final(out)@) == derefs(old(out)@) + walk_handlers(hs@),
    decreases hs,
{
    let ghost start = derefs(out@);
    let mut i: usize = 0;
    proof {
        assert(hs@.subrange(0, hs@.len() as int) =~= hs@);
    }
    while i < hs.len()
        invariant
            i <= hs@.len(),
            derefs(out@) + walk_handlers(hs@.subrange(i as int, hs@.len() as int)) == start + walk_handlers(hs@),
        decreases hs@.len() - i,
    {
        let ghost before = derefs(out@);
        proof {
            let rest = hs@.subrange(i as int, hs@.len() as int);
            assert(rest[0] == hs@[i as int]);
            assert(rest.subrange(1, rest.len() as int) =~= hs@.subrange(i + 1, hs@.len() as int));
        }
        collect_block(&hs[i].body, out);
        proof {
            assert(derefs(out@) + walk_handlers(hs@.subrange(i + 1, hs@.len() as int)) =~= before + walk_handlers(
                hs@.subrange(i as int, hs@.len() as int),
            ));
        }
        i = i + 1;
    }
    proof {
        assert(hs@.subrange(i as int, hs@.len() as int) =~= Seq::<ExceptHandler>::empty());
        assert(derefs(out@) + Seq::<Stmt>::empty() =~= derefs(out@));
    }
}

/// Appends `walk_cases(cs)`.
pub fn collect_cases<'a>(cs: &'a Vec<MatchCase>, out: &mut Vec<&'a Stmt>)
    ensures
        derefs(final(out)@) == derefs(old(out)@) + walk_cases(cs@),
    decreases cs,
{
    let ghost start = derefs(out@);
    let mut i: usize = 0;
    proof {
        assert(cs@.subrange(0, cs@.len() as int) =~= cs@);
    }
    while i < cs.len()
        invariant
            i <= cs@.len(),
            derefs(out@) + walk_cases(cs@.subrange(i as int, cs@.len() as int)) == start + walk_cases(cs@),
        decreases cs@.len() - i,
    {
        let ghost before = derefs(out@);
        proof {
            let rest = cs@.subrange(i as int, cs@.len() as int);
            assert(rest[0] == cs@[i as int]);
            assert(rest.subrange(1, rest.len() as int) =~= cs@.subrange(i + 1, cs@.len() as int));
        }
        collect_block(&cs[i].body, out);
        proof {
            assert(derefs(out@) + walk_cases(cs@.subrange(i + 1, cs@.len() as int)) =~= before + walk_cases(
                cs@.subrange(i as int, cs@.len() as int),
            ));
        }
        i = i + 1;
    }
    proof {
        assert(cs@.subrange(i as int, cs@.len() as int) =~= Seq::<MatchCase>::empty());
        assert(derefs(out@) + Seq::<Stmt>::empty() =~= derefs(out@));
    }
}

/// Every statement of a module, in pre-order.
pub fn module_statements<'a>(m: &'a Module) -> (r: Vec<&'a Stmt>)
    ensures
        derefs(r@) == module_stmts(*m),
{
    let mut out: Vec<&'a Stmt> = Vec::new();
    proof {
        assert(derefs(out@) =~= Seq::<Stmt>::empty());
    }
    collect_block(&m.body, &mut out);
    proof {
        assert(Seq::<Stmt>::empty() + walk_block(m.body@) =~= walk_block(m.body@));
    }
    out
}

// ---------------------------------------------------------------------------
// Expressions
// ---------------------------------------------------------------------------

/// An expression followed by every expression nested in it, in pre-order.
pub open spec fn walk_expr(e: Expr) -> Seq<Expr>
    decreases e, 0nat,
{
    seq![e] + match e.kind {
        ExprKind::BoolOp { values } => walk_exprs(values@),
        ExprKind::NamedExpr { target, value } => walk_expr(*target) + walk_expr(*value),
        ExprKind::BinOp { left, right } => walk_expr(*left) + walk_expr(*right),
        ExprKind::UnaryOp { operand } => walk_expr(*operand),
        ExprKind::Lambda { body, .. } => walk_expr(*body),
        ExprKind::IfExp { test, body, orelse } => walk_expr(*test) + walk_expr(*body) + walk_expr(*orelse),
        ExprKind::Dict { keys, values } => dict_walk(e.kind, pair_count(keys@.len(), values@.len())),
        ExprKind::SetExpr { elts } => walk_exprs(elts@),
        ExprKind::ListComp { elt, generators } => walk_expr(*elt) + walk_comps(generators@),
        ExprKind::SetComp { elt, generators } => walk_expr(*elt) + walk_comps(generators@),
        ExprKind::GeneratorExp { elt, generators } => walk_expr(*elt) + walk_comps(generators@),
        ExprKind::DictComp { key, value, generators } => walk_expr(*key) + walk_expr(*value) + walk_comps(generators@),
        ExprKind::Await { value } => walk_expr(*value),
        ExprKind::Yield { value } => match value {
            Some(v) => walk_expr(*v),
            None => Seq::empty(),
        },
        ExprKind::YieldFrom { value } => walk_expr(*value),
        ExprKind::Compare { left, comparators, .. } => walk_expr(*left) + walk_exprs(comparators@),
        ExprKind::Call { func, args, keywords } => walk_expr(*func) + walk_exprs(args@) + walk_exprs(keywords@),
        ExprKind::FormattedValue { value } => walk_expr(*value),
        ExprKind::Attribute { value, .. } => walk_expr(*value),
        ExprKind::Subscript { value, slice } => walk_expr(*value) + walk_expr(*slice),
        ExprKind::Starred { value } => walk_expr(*value),
        ExprKind::List { elts } => walk_exprs(elts@),
        ExprKind::Tuple { elts } => walk_exprs(elts@),
        ExprKind::Slice { lower, upper, step } => (match lower {
            Some(v) => walk_expr(*v),
            None => Seq::empty(),
        }) + (match upper {
            Some(v) => walk_expr(*v),
            None => Seq::empty(),
        }) + (match step {
            Some(v) => walk_expr(*v),
            None => Seq::empty(),
        }),
        _ => Seq::empty(),
    }
}

/// The walks of a list of expressions, concatenated.
pub open spec fn walk_exprs(es: Seq<Expr>) -> Seq<Expr>
    decreases es, 0nat,
{
    if es.len() == 0 {
        Seq::empty()
    } else {
        walk_expr(es[0]) + walk_exprs(es.subrange(1, es.len() as int))
    }
}

/// The number of key/value pairs of a dict literal: the shorter list's length.
pub open spec fn pair_count(keys: nat, values: nat) -> nat {
    if keys <= values {
        keys
    } else {
        values
    }
}

/// The walks of the first `n` entries of a dict literal, pair by pair: the
/// key (absent for `**mapping`), then the value.
pub open spec fn dict_walk(kind: ExprKind, n: nat) -> Seq<Expr>
    decreases kind, n,
{
    match kind {
        ExprKind::Dict { keys, values } => if n == 0 || n > keys@.len() || n > values@.len() {
            Seq::empty()
        } else {
            dict_walk(kind, (n - 1) as nat) + (match keys@[n - 1] {
                Some(k) => walk_expr(k),
                None => Seq::empty(),
            }) + walk_expr(values@[n - 1])
        },
        _ => Seq::empty(),
    }
}

/// The walks of an optional expression.
pub open spec fn walk_opt(o: Option<Expr>) -> Seq<Expr> {
    match o {
        Some(e) => walk_expr(e),
        None => Seq::empty(),
    }
}

/// The iterables and conditions of comprehension clauses.
pub open spec fn walk_comps(gs: Seq<Comprehension>) -> Seq<Expr>
    decreases gs, 0nat,
{
    if gs.len() == 0 {
        Seq::empty()
    } else {
        walk_expr(gs[0].iter) + walk_exprs(gs[0].ifs@) + walk_comps(gs.subrange(1, gs.len() as int))
    }
}

fn collect_box_opt<'a>(o: &'a Option<Box<Expr>>, out: &mut Vec<&'a Expr>)
    ensures
        derefs(final(out)@) == derefs(old(out)@) + match *o {
            Some(v) => walk_expr(*v),
            None => Seq::empty(),
        },
    decreases o,
{
    match o {
        Some(v) => collect_expr(v, out),
        None => {
            proof {
                assert(derefs(out@) + Seq::<Expr>::empty() =~= derefs(out@));
            }
        },
    }
}

/// Appends `walk_opt(o)`.
pub fn collect_opt<'a>(o: &'a Option<Expr>, out: &mut Vec<&'a Expr>)
    ensures
        derefs(final(out)@) == derefs(old(out)@) + walk_opt(*o),
    decreases o,
{
    match o {
        Some(v) => collect_expr(v, out),
        None => {
            proof {
                assert(derefs(out@) + Seq::<Expr>::empty() =~= derefs(out@));
            }
        },
    }
}

/// Appends `walk_expr(e)`.
pub fn collect_expr<'a>(e: &'a Expr, out: &mut Vec<&'a Expr>)
    ensures
        derefs(final(out)@) == derefs(old(out)@) + walk_expr(*e),
    decreases e,
{
    let ghost o = out@;
    out.push(e);
    proof {
        lemma_derefs_push(o, e);
    }
    match &e.kind {
        ExprKind::BoolOp { values } => collect_exprs(values, out),
        ExprKind::NamedExpr { target, value } => {
            collect_expr(target, out);
            collect_expr(value, out);
        },
        ExprKind::BinOp { left, right } => {
            collect_expr(left, out);
            collect_expr(right, out);
        },
        ExprKind::UnaryOp { operand } => collect_expr(operand, out),
        ExprKind::Lambda { body, .. } => collect_expr(body, out),
        ExprKind::IfExp { test, body, orelse } => {
            collect_expr(test, out);
            collect_expr(body, out);
            collect_expr(orelse, out);
        },
        ExprKind::Dict { keys, values } => {
            let n = if keys.len() <= values.len() {
                keys.len()
            } else {
                values.len()
            };
            let ghost start = derefs(out@);
            let mut i: usize = 0;
            while i < n
                invariant
                    e.kind == (ExprKind::Dict { keys: *keys, values: *values }),
                    n == pair_count(keys@.len(), values@.len()),
                    i <= n,
                    derefs(out@) == start + dict_walk(e.kind, i as nat),
                decreases n - i,
            {
                collect_opt(&keys[i], out);
                collect_expr(&values[i], out);
                proof {
                    assert(derefs(out@) =~= start + dict_walk(e.kind, (i + 1) as nat));
                }
                i = i + 1;
            }
        },
        ExprKind::SetExpr { elts } => collect_exprs(elts, out),
        ExprKind::ListComp { elt, generators } => {
            collect_expr(elt, out);
            collect_comps(generators, out);
        },
        ExprKind::SetComp { elt, generators } => {
            collect_expr(elt, out);
            collect_comps(generators, out);
        },
        ExprKind::GeneratorExp { elt, generators } => {
            collect_expr(elt, out);
            collect_comps(generators, out);
        },
        ExprKind::DictComp { key, value, generators } => {
            collect_expr(key, out);
            collect_expr(value, out);
            collect_comps(generators, out);
        },
        ExprKind::Await { value } => collect_expr(value, out),
        ExprKind::Yield { value } => collect_box_opt(value, out),
        ExprKind::YieldFrom { value } => collect_expr(value, out),
        ExprKind::Compare { left, comparators, .. } => {
            collect_expr(left, out);
            collect_exprs(comparators, out);
        },
        ExprKind::Call { func, args, keywords } => {
            collect_expr(func, out);
            collect_exprs(args, out);
            collect_exprs(keywords, out);
        },
        ExprKind::FormattedValue { value } => collect_expr(value, out),
        ExprKind::Attribute { value, .. } => collect_expr(value, out),
        ExprKind::Subscript { value, slice } => {
            collect_expr(value, out);
            collect_expr(slice, out);
        },
        ExprKind::Starred { value } => collect_expr(value, out),
        ExprKind::List { elts } => collect_exprs(elts, out),
        ExprKind::Tuple { elts } => collect_exprs(elts, out),
        ExprKind::Slice { lower, upper, step } => {
            collect_box_opt(lower, out);
            collect_box_opt(upper, out);
            collect_box_opt(step, out);
        },
        _ => {},
    }
    proof {
        assert(derefs(out@) =~= derefs(o) + walk_expr(*e));
    }
}

/// Appends `walk_exprs(es)`.
pub fn collect_exprs<'a>(es: &'a Vec<Expr>, out: &mut Vec<&'a Expr>)
    ensures
        derefs(final(out)@) == derefs(old(out)@) + walk_exprs(es@),
    decreases es,
{
    let ghost start = derefs(out@);
    let mut i: usize = 0;
    proof {
        assert(es@.subrange(0, es@.len() as int) =~= es@);
    }
    while i < es.len()
        invariant
            i <= es@.len(),
            derefs(out@) + walk_exprs(es@.subrange(i as int, es@.len() as int)) == start + walk_exprs(es@),
        decreases es@.len() - i,
    {
        let ghost before = derefs(out@);
        proof {
            let rest = es@.subrange(i as int, es@.len() as int);
            assert(rest[0] == es@[i as int]);
            assert(rest.subrange(1, rest.len() as int) =~= es@.subrange(i + 1, es@.len() as int));
        }
        collect_expr(&es[i], out);
        proof {
            assert(derefs(out@) + walk_exprs(es@.subrange(i + 1, es@.len() as int)) =~= before + walk_exprs(
                es@.subrange(i as int, es@.len() as int),
            ));
        }
        i = i + 1;
    }
    proof {
        assert(es@.subrange(i as int, es@.len() as int) =~= Seq::<Expr>::empty());
        assert(derefs(out@) + Seq::<Expr>::empty() =~= derefs(out@));
    }
}

/// Appends `walk_comps(gs)`.
pub fn collect_comps<'a>(gs: &'a Vec<Comprehension>, out: &mut Vec<&'a Expr>)
    ensures
        derefs(final(out)@) == derefs(old(out)@) + walk_comps(gs@),
    decreases gs,
{
    let ghost start = derefs(out@);
    let mut i: usize = 0;
    proof {
        assert(gs@.subrange(0, gs@.len() as int) =~= gs@);
    }
    while i < gs.len()
        invariant
            i <= gs@.len(),
            derefs(out@) + walk_comps(gs@.subrange(i as int, gs@.len() as int)) == start + walk_comps(gs@),
        decreases gs@.len() - i,
    {
        let ghost before = derefs(out@);
        proof {
            let rest = gs@.subrange(i as int, gs@.len() as int);
            assert(rest[0] == gs@[i as int]);
            assert(rest.subrange(1, rest.len() as int) =~= gs@.subrange(i + 1, gs@.len() as int));
        }
        collect_expr(&gs[i].iter, out);
        collect_exprs(&gs[i].ifs, out);
        proof {
            assert(derefs(out@) + walk_comps(gs@.subrange(i + 1, gs@.len() as int)) =~= before + walk_comps(
                gs@.subrange(i as int, gs@.len() as int),
            ));
        }
        i = i + 1;
    }
    proof {
        assert(gs@.subrange(i as int, gs@.len() as int) =~= Seq::<Comprehension>::empty());
        assert(derefs(out@) + Seq::<Expr>::empty() =~= derefs(out@));
    }
}

// ---------------------------------------------------------------------------
// Expressions carried by statements
// ---------------------------------------------------------------------------

/// The expressions of a `match` pattern: values, mapping keys, class names
/// and the keyword sub-patterns.
pub open spec fn walk_pattern(p: Pattern) -> Seq<Expr>
    decreases p,
{
    match p {
        Pattern::Value { value } => walk_expr(value),
        Pattern::Sequence { patterns } => walk_patterns(patterns@),
        Pattern::Mapping { keys } => walk_exprs(keys@),
        Pattern::Class { cls, kwd_patterns } => walk_expr(cls) + walk_patterns(kwd_patterns@),
        Pattern::Other => Seq::empty(),
    }
}

/// The expressions of a list of patterns.
pub open spec fn walk_patterns(ps: Seq<Pattern>) -> Seq<Expr>
    decreases ps,
{
    if ps.len() == 0 {
        Seq::empty()
    } else {
        walk_pattern(ps[0]) + walk_patterns(ps.subrange(1, ps.len() as int))
    }
}

/// The expressions of the patterns and guards of `match` cases.
pub open spec fn walk_case_heads(cs: Seq<MatchCase>) -> Seq<Expr>
    decreases cs.len(),
{
    if cs.len() == 0 {
        Seq::empty()
    } else {
        walk_pattern(cs[0].pattern) + walk_opt(cs[0].guard) + walk_case_heads(cs.subrange(1, cs.len() as int))
    }
}

/// The context expressions and targets of `with` items.
pub open spec fn walk_with_items(items: Seq<WithItem>) -> Seq<Expr>
    decreases items.len(),
{
    if items.len() == 0 {
        Seq::empty()
    } else {
        walk_expr(items[0].context_expr) + walk_opt(items[0].optional_vars) + walk_with_items(
            items.subrange(1, items.len() as int),
        )
    }
}

/// The exception types named by `except` clauses.
pub open spec fn walk_handler_types(hs: Seq<ExceptHandler>) -> Seq<Expr>
    decreases hs.len(),
{
    if hs.len() == 0 {
        Seq::empty()
    } else {
        walk_opt(hs[0].type_) + walk_handler_types(hs.subrange(1, hs.len() as int))
    }
}

/// The expressions a statement carries itself (nested statements are reached
/// through [`walk_stmt`]): decorators, conditions, loop iterables, `with`
/// items, handler types, match subjects/patterns/guards, assignment targets
/// and values, returned, raised, asserted and deleted expressions, and
/// expression statements.
pub open spec fn stmt_exprs(s: Stmt) -> Seq<Expr> {
    match s.kind {
        StmtKind::FunctionDef { decorators, .. } => walk_exprs(decorators@),
        StmtKind::ClassDef { decorators, .. } => walk_exprs(decorators@),
        StmtKind::If { test, .. } => walk_expr(test),
        StmtKind::While { test, .. } => walk_expr(test),
        StmtKind::For { iter, .. } => walk_expr(iter),
        StmtKind::With { items, .. } => walk_with_items(items@),
        StmtKind::Try { handlers, .. } => walk_handler_types(handlers@),
        StmtKind::Match { subject, cases } => walk_expr(subject) + walk_case_heads(cases@),
        StmtKind::Assign { targets, value } => walk_exprs(targets@) + walk_expr(value),
        StmtKind::AnnAssign { target, annotation, value } => walk_expr(target) + walk_expr(annotation) + walk_opt(value),
        StmtKind::AugAssign { target, value, .. } => walk_expr(target) + walk_expr(value),
        StmtKind::Return { value } => walk_opt(value),
        StmtKind::Expr { value } => walk_expr(value),
        StmtKind::Raise { exc, cause } => walk_opt(exc) + walk_opt(cause),
        StmtKind::Assert { test, msg } => walk_expr(test) + walk_opt(msg),
        StmtKind::Delete { targets } => walk_exprs(targets@),
        _ => Seq::empty(),
    }
}

/// The expressions carried by each of a sequence of statements, concatenated.
pub open spec fn exprs_of_stmts(ss: Seq<Stmt>) -> Seq<Expr>
    decreases ss.len(),
{
    if ss.len() == 0 {
        Seq::empty()
    } else {
        exprs_of_stmts(ss.drop_last()) + stmt_exprs(ss.last())
    }
}

/// Every expression of a module: the expressions of each statement, in
/// statement pre-order.
pub open spec fn module_exprs(m: Module) -> Seq<Expr> {
    exprs_of_stmts(module_stmts(m))
}

fn collect_pattern<'a>(p: &'a Pattern, out: &mut Vec<&'a Expr>)
    ensures
        derefs(final(out)@) == derefs(old(out)@) + walk_pattern(*p),
    decreases p,
{
    match p {
        Pattern::Value { value } => collect_expr(value, out),
        Pattern::Sequence { patterns } => collect_patterns(patterns, out),
        Pattern::Mapping { keys } => collect_exprs(keys, out),
        Pattern::Class { cls, kwd_patterns } => {
            collect_expr(cls, out);
            collect_patterns(kwd_patterns, out);
        },
        Pattern::Other => {
            proof {
                assert(derefs(out@) + Seq::<Expr>::empty() =~= derefs(out@));
            }
        },
    }
}

fn collect_patterns<'a>(ps: &'a Vec<Pattern>, out: &mut Vec<&'a Expr>)
    ensures
        derefs(final(out)@) == derefs(old(out)@) + walk_patterns(ps@),
    decreases ps,
{
    let ghost start = derefs(out@);
    let mut i: usize = 0;
    proof {
        assert(ps@.subrange(0, ps@.len() as int) =~= ps@);
    }
    while i < ps.len()
        invariant
            i <= ps@.len(),
            derefs(out@) + walk_patterns(ps@.subrange(i as int, ps@.len() as int)) == start + walk_patterns(ps@),
        decreases ps@.len() - i,
    {
        let ghost before = derefs(out@);
        proof {
            let rest = ps@.subrange(i as int, ps@.len() as int);
            assert(rest[0] == ps@[i as int]);
            assert(rest.subrange(1, rest.len() as int) =~= ps@.subrange(i + 1, ps@.len() as int));
        }
        collect_pattern(&ps[i], out);
        proof {
            assert(derefs(out@) + walk_patterns(ps@.subrange(i + 1, ps@.len() as int)) =~= before + walk_patterns(
                ps@.subrange(i as int, ps@.len() as int),
            ));
        }
        i = i + 1;
    }
    proof {
        assert(ps@.subrange(i as int, ps@.len() as int) =~= Seq::<Pattern>::empty());
        assert(derefs(out@) + Seq::<Expr>::empty() =~= derefs(out@));
    }
}

fn collect_case_heads<'a>(cs: &'a Vec<MatchCase>, out: &mut Vec<&'a Expr>)
    ensures
        derefs(final(out)@) == derefs(old(out)@) + walk_case_heads(cs@),
{
    let ghost start = derefs(out@);
    let mut i: usize = 0;
    proof {
        assert(cs@.subrange(0, cs@.len() as int) =~= cs@);
    }
    while i < cs.len()
        invariant
            i <= cs@.len(),
            derefs(out@) + walk_case_heads(cs@.subrange(i as int, cs@.len() as int)) == start + walk_case_heads(cs@),
        decreases cs@.len() - i,
    {
        let ghost before = derefs(out@);
        proof {
            let rest = cs@.subrange(i as int, cs@.len() as int);
            assert(rest[0] == cs@[i as int]);
            assert(rest.subrange(1, rest.len() as int) =~= cs@.subrange(i + 1, cs@.len() as int));
        }
        collect_pattern(&cs[i].pattern, out);
        collect_opt(&cs[i].guard, out);
        proof {
            assert(derefs(out@) + walk_case_heads(cs@.subrange(i + 1, cs@.len() as int)) =~= before + walk_case_heads(
                cs@.subrange(i as int, cs@.len() as int),
            ));
        }
        i = i + 1;
    }
    proof {
        assert(cs@.subrange(i as int, cs@.len() as int) =~= Seq::<MatchCase>::empty());
        assert(derefs(out@) + Seq::<Expr>::empty() =~= derefs(out@));
    }
}

fn collect_with_items<'a>(items: &'a Vec<WithItem>, out: &mut Vec<&'a Expr>)
    ensures
        derefs(final(out)@) == derefs(old(out)@) + walk_with_items(items@),
{
    let ghost start = derefs(out@);
    let mut i: usize = 0;
    proof {
        assert(items@.subrange(0, items@.len() as int) =~= items@);
    }
    while i < items.len()
        invariant
            i <= items@.len(),
            derefs(out@) + walk_with_items(items@.subrange(i as int, items@.len() as int)) == start + walk_with_items(
                items@,
            ),
        decreases items@.len() - i,
    {
        let ghost before = derefs(out@);
        proof {
            let rest = items@.subrange(i as int, items@.len() as int);
            assert(rest[0] == items@[i as int]);
            assert(rest.subrange(1, rest.len() as int) =~= items@.subrange(i + 1, items@.len() as int));
        }
        collect_expr(&items[i].context_expr, out);
        collect_opt(&items[i].optional_vars, out);
        proof {
            assert(derefs(out@) + walk_with_items(items@.subrange(i + 1, items@.len() as int)) =~= before
                + walk_with_items(items@.subrange(i as int, items@.len() as int)));
        }
        i = i + 1;
    }
    proof {
        assert(items@.subrange(i as int, items@.len() as int) =~= Seq::<WithItem>::empty());
        assert(derefs(out@) + Seq::<Expr>::empty() =~= derefs(out@));
    }
}

fn collect_handler_types<'a>(hs: &'a Vec<ExceptHandler>, out: &mut Vec<&'a Expr>)
    ensures
        derefs(final(out)@) == derefs(old(out)@) + walk_handler_types(hs@),
{
    let ghost start = derefs(out@);
    let mut i: usize = 0;
    proof {
        assert(hs@.subrange(0, hs@.len() as int) =~= hs@);
    }
    while i < hs.len()
        invariant
            i <= hs@.len(),
            derefs(out@) + walk_handler_types(hs@.subrange(i as int, hs@.len() as int)) == start + walk_handler_types(
                hs@,
            ),
        decreases hs@.len() - i,
    {
        let ghost before = derefs(out@);
        proof {
            let rest = hs@.subrange(i as int, hs@.len() as int);
            assert(rest[0] == hs@[i as int]);
            assert(rest.subrange(1, rest.len() as int) =~= hs@.subrange(i + 1, hs@.len() as int));
        }
        collect_opt(&hs[i].type_, out);
        proof {
            assert(derefs(out@) + walk_handler_types(hs@.subrange(i + 1, hs@.len() as int)) =~= before
                + walk_handler_types(hs@.subrange(i as int, hs@.len() as int)));
        }
        i = i + 1;
    }
    proof {
        assert(hs@.subrange(i as int, hs@.len() as int) =~= Seq::<ExceptHandler>::empty());
        assert(derefs(out@) + Seq::<Expr>::empty() =~= derefs(out@));
    }
}

/// Appends `stmt_exprs(s)`.
pub fn collect_stmt_exprs<'a>(s: &'a Stmt, out: &mut Vec<&'a Expr>)
    ensures
        derefs(final(out)@) == derefs(old(out)@) + stmt_exprs(*s),
{
    let ghost o = derefs(out@);
    match &s.kind {
        StmtKind::FunctionDef { decorators, .. } => collect_exprs(decorators, out),
        StmtKind::ClassDef { decorators, .. } => collect_exprs(decorators, out),
        StmtKind::If { test, .. } => collect_expr(test, out),
        StmtKind::While { test, .. } => collect_expr(test, out),
        StmtKind::For { iter, .. } => collect_expr(iter, out),
        StmtKind::With { items, .. } => collect_with_items(items, out),
        StmtKind::Try { handlers, .. } => collect_handler_types(handlers, out),
        StmtKind::Match { subject, cases } => {
            collect_expr(subject, out);
            collect_case_heads(cases, out);
        },
        StmtKind::Assign { targets, value } => {
            collect_exprs(targets, out);
            collect_expr(value, out);
        },
        StmtKind::AnnAssign { target, annotation, value } => {
            collect_expr(target, out);
            collect_expr(annotation, out);
            collect_opt(value, out);
        },
        StmtKind::AugAssign { target, value, .. } => {
            collect_expr(target, out);
            collect_expr(value, out);
        },
        StmtKind::Return { value } => collect_opt(value, out),
        StmtKind::Expr { value } => collect_expr(value, out),
        StmtKind::Raise { exc, cause } => {
            collect_opt(exc, out);
            collect_opt(cause, out);
        },
        StmtKind::Assert { test, msg } => {
            collect_expr(test, out);
            collect_opt(msg, out);
        },
        StmtKind::Delete { targets } => collect_exprs(targets, out),
        _ => {},
    }
    proof {
        assert(derefs(out@) =~= o + stmt_exprs(*s));
    }
}

/// Every expression of a module, statement by statement in pre-order.
pub fn module_expressions<'a>(m: &'a Module) -> (r: Vec<&'a Expr>)
    ensures
        derefs(r@) == module_exprs(*m),
{
    let stmts = module_statements(m);
    let mut out: Vec<&'a Expr> = Vec::new();
    let mut i: usize = 0;
    proof {
        assert(derefs(stmts@).subrange(0, 0) =~= Seq::<Stmt>::empty());
        assert(derefs(out@) =~= Seq::<Expr>::empty());
    }
    while i < stmts.len()
        invariant
            i <= stmts@.len(),
            derefs(stmts@) == module_stmts(*m),
            derefs(out@) == exprs_of_stmts(derefs(stmts@).subrange(0, i as int)),
        decreases stmts@.len() - i,
    {
        collect_stmt_exprs(stmts[i], &mut out);
        proof {
            let ss = derefs(stmts@);
            assert(ss.subrange(0, i + 1).drop_last() =~= ss.subrange(0, i as int));
            assert(ss.subrange(0, i + 1).last() == *stmts@[i as int]);
        }
        i = i + 1;
    }
    proof {
        assert(derefs(stmts@).subrange(0, stmts@.len() as int) =~= derefs(stmts@));
    }
    out
}

} // verus!
