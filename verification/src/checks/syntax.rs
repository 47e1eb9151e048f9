//! Small questions about syntax-tree nodes that several detectors ask.
use vstd::prelude::*;
use crate::parser::ast::{CmpOp, Constant, Expr, ExprKind, Stmt, StmtKind};
use crate::text::str_eq;

verus! {

/// The identifier of a bare name expression.
pub open spec fn name_of(e: Expr) -> Option<Seq<char>> {
    match e.kind {
        ExprKind::Name { id } => Some(id@),
        _ => None,
    }
}

/// The identifier of a bare name expression.
pub fn expr_name(e: &Expr) -> (r: Option<&String>)
    ensures
        match r {
            Some(s) => name_of(*e) == Some(s@),
            None => name_of(*e) is None,
        },
{
    match &e.kind {
        ExprKind::Name { id } => Some(id),
        _ => None,
    }
}

/// The expression is the bare name `lit`.
pub fn is_name(e: &Expr, lit: &str) -> (r: bool)
    ensures
        r == (name_of(*e) == Some(lit@)),
{
    match expr_name(e) {
        Some(s) => str_eq(s.as_str(), lit),
        None => false,
    }
}

/// The name called when the expression is a call of a bare name.
pub open spec fn called_name(e: Expr) -> Option<Seq<char>> {
    match e.kind {
        ExprKind::Call { func, .. } => name_of(*func),
        _ => None,
    }
}

/// The expression calls the bare name `lit` (`lit(...)`).
pub fn is_call_to(e: &Expr, lit: &str) -> (r: bool)
    ensures
        r == (called_name(*e) == Some(lit@)),
{
    match &e.kind {
        ExprKind::Call { func, .. } => is_name(func, lit),
        _ => false,
    }
}

/// The expression is a bare `print(...)` call (not `builtins.print` and not
/// an alias).
pub fn is_print_call(e: &Expr) -> (r: bool)
    ensures
        r == (called_name(*e) == Some("print"@)),
{
    is_call_to(e, "print")
}

/// The method name when the expression is a call of an attribute (`x.m(...)`).
pub open spec fn called_method(e: Expr) -> Option<Seq<char>> {
    match e.kind {
        ExprKind::Call { func, .. } => match func.kind {
            ExprKind::Attribute { attr, .. } => Some(attr@),
            _ => None,
        },
        _ => None,
    }
}

/// The expression calls a method named `lit`.
pub fn is_method_call_named(e: &Expr, lit: &str) -> (r: bool)
    ensures
        r == (called_method(*e) == Some(lit@)),
{
    match &e.kind {
        ExprKind::Call { func, .. } => match &func.kind {
            ExprKind::Attribute { attr, .. } => str_eq(attr.as_str(), lit),
            _ => false,
        },
        _ => false,
    }
}

/// The literal `None`.
pub open spec fn is_none_literal(e: Expr) -> bool {
    e.kind matches ExprKind::Constant { value: Constant::NoneValue }
}

/// Whether the expression is the literal `None`.
pub fn is_none_constant(e: &Expr) -> (r: bool)
    ensures
        r == is_none_literal(*e),
{
    match &e.kind {
        ExprKind::Constant { value: Constant::NoneValue } => true,
        _ => false,
    }
}

/// The value of a `True`/`False` literal.
pub open spec fn bool_literal(e: Expr) -> Option<bool> {
    match e.kind {
        ExprKind::Constant { value: Constant::Bool(b) } => Some(b),
        _ => None,
    }
}

/// The value of a `True`/`False` literal.
pub fn expr_as_bool_constant(e: &Expr) -> (r: Option<bool>)
    ensures
        r == bool_literal(*e),
{
    match &e.kind {
        ExprKind::Constant { value: Constant::Bool(b) } => Some(*b),
        _ => None,
    }
}

/// A list, dict or set display or comprehension: a value that can be
/// mutated in place.
pub open spec fn is_mutable_literal(e: Expr) -> bool {
    ||| e.kind is List
    ||| e.kind is Dict
    ||| e.kind is SetExpr
    ||| e.kind is ListComp
    ||| e.kind is DictComp
    ||| e.kind is SetComp
}

/// Whether the expression is a mutable literal.
pub fn is_mutable_expr(e: &Expr) -> (r: bool)
    ensures
        r == is_mutable_literal(*e),
{
    match &e.kind {
        ExprKind::List { .. } => true,
        ExprKind::Dict { .. } => true,
        ExprKind::SetExpr { .. } => true,
        ExprKind::ListComp { .. } => true,
        ExprKind::DictComp { .. } => true,
        ExprKind::SetComp { .. } => true,
        _ => false,
    }
}

/// The last statement of a block that is not `pass`.
pub open spec fn last_meaningful(b: Seq<Stmt>) -> Option<Stmt>
    decreases b.len(),
{
    if b.len() == 0 {
        None
    } else if b.last().kind is Pass {
        last_meaningful(b.drop_last())
    } else {
        Some(b.last())
    }
}

/// The index of the last statement of a block that is not `pass`.
pub fn last_meaningful_stmt(b: &Vec<Stmt>) -> (r: Option<usize>)
    ensures
        match r {
            Some(k) => k < b@.len() && last_meaningful(b@) == Some(b@[k as int]),
            None => last_meaningful(b@) is None,
        },
{
    let mut i = b.len();
    proof {
        assert(b@.take(i as int) =~= b@);
    }
    while i > 0
        invariant
            i <= b@.len(),
            last_meaningful(b@) == last_meaningful(b@.take(i as int)),
        decreases i,
    {
        proof {
            assert(b@.take(i as int).drop_last() =~= b@.take(i - 1));
            assert(b@.take(i as int).last() == b@[i - 1]);
        }
        match &b[i - 1].kind {
            StmtKind::Pass => {},
            _ => {
                return Some(i - 1);
            },
        }
        i = i - 1;
    }
    None
}

/// `name is not None` with a bare name on the left: that name.
pub open spec fn not_none_test(e: Expr) -> Option<Seq<char>> {
    match e.kind {
        ExprKind::Compare { left, ops, comparators } => if ops@.len() > 0 && ops@[0] == CmpOp::IsNot
            && comparators@.len() > 0 && is_none_literal(comparators@[0]) {
            name_of(*left)
        } else {
            None
        },
        _ => None,
    }
}

/// `name is not None` with a bare name on the left: that name.
pub fn is_not_none_test(e: &Expr) -> (r: Option<&String>)
    ensures
        match r {
            Some(s) => not_none_test(*e) == Some(s@),
            None => not_none_test(*e) is None,
        },
{
    match &e.kind {
        ExprKind::Compare { left, ops, comparators } => {
            if ops.len() > 0 && ops[0] == CmpOp::IsNot && comparators.len() > 0 && is_none_constant(
                &comparators[0],
            ) {
                expr_name(left)
            } else {
                None
            }
        },
        _ => None,
    }
}

} // verus!
