//! The syntax tree of a Python module, as the rules read it.
//!
//! Each node keeps the byte range it spans in the source. The tree holds what
//! the rules inspect; constructs the rules never look into are kept as
//! `Other` nodes.
use vstd::prelude::*;

verus! {

/// A comparison operator.
#[derive(Debug, Clone, Copy, PartialEq, Eq, Structural)]
pub enum CmpOp {
    Eq,
    NotEq,
    Lt,
    LtE,
    Gt,
    GtE,
    Is,
    IsNot,
    In,
    NotIn,
}

/// A literal value. Numbers keep the text their value displays as
/// (`Display` of the integer or float).
pub enum Constant {
    NoneValue,
    Bool(bool),
    Str(String),
    Int(String),
    Float(String),
    /// Bytes, tuples, complex numbers and the ellipsis.
    Other,
}

/// One `for ... in iter if cond` clause of a comprehension.
pub struct Comprehension {
    pub iter: Expr,
    pub ifs: Vec<Expr>,
}

/// An expression with the byte range it spans.
pub struct Expr {
    pub start: usize,
    pub end: usize,
    pub kind: ExprKind,
}

/// The kinds of expressions.
pub enum ExprKind {
    BoolOp { values: Vec<Expr> },
    NamedExpr { target: Box<Expr>, value: Box<Expr> },
    BinOp { left: Box<Expr>, right: Box<Expr> },
    UnaryOp { operand: Box<Expr> },
    /// `params` are the names of the positional-or-keyword parameters.
    Lambda { params: Vec<String>, body: Box<Expr> },
    IfExp { test: Box<Expr>, body: Box<Expr>, orelse: Box<Expr> },
    Dict { keys: Vec<Option<Expr>>, values: Vec<Expr> },
    SetExpr { elts: Vec<Expr> },
    ListComp { elt: Box<Expr>, generators: Vec<Comprehension> },
    SetComp { elt: Box<Expr>, generators: Vec<Comprehension> },
    DictComp { key: Box<Expr>, value: Box<Expr>, generators: Vec<Comprehension> },
    GeneratorExp { elt: Box<Expr>, generators: Vec<Comprehension> },
    Await { value: Box<Expr> },
    Yield { value: Option<Box<Expr>> },
    YieldFrom { value: Box<Expr> },
    Compare { left: Box<Expr>, ops: Vec<CmpOp>, comparators: Vec<Expr> },
    /// `keywords` are the values of the keyword arguments.
    Call { func: Box<Expr>, args: Vec<Expr>, keywords: Vec<Expr> },
    FormattedValue { value: Box<Expr> },
    Constant { value: Constant },
    Attribute { value: Box<Expr>, attr: String },
    Subscript { value: Box<Expr>, slice: Box<Expr> },
    Starred { value: Box<Expr> },
    Name { id: String },
    List { elts: Vec<Expr> },
    Tuple { elts: Vec<Expr> },
    Slice { lower: Option<Box<Expr>>, upper: Option<Box<Expr>>, step: Option<Box<Expr>> },
    /// f-strings.
    Other,
}

/// A function parameter and its default value.
pub struct Param {
    pub name: String,
    pub default: Option<Expr>,
}

/// A function's parameter list.
pub struct Arguments {
    pub posonlyargs: Vec<Param>,
    pub args: Vec<Param>,
    pub kwonlyargs: Vec<Param>,
    pub has_vararg: bool,
    pub has_kwarg: bool,
}

/// An `except` clause with the byte range it spans.
pub struct ExceptHandler {
    pub start: usize,
    pub end: usize,
    pub type_: Option<Expr>,
    pub body: Vec<Stmt>,
}

/// One `expr as target` item of a `with` statement.
pub struct WithItem {
    pub context_expr: Expr,
    pub optional_vars: Option<Expr>,
}

/// A `match` pattern.
pub enum Pattern {
    Value { value: Expr },
    Sequence { patterns: Vec<Pattern> },
    Mapping { keys: Vec<Expr> },
    Class { cls: Expr, kwd_patterns: Vec<Pattern> },
    /// Singletons, captures, stars and alternatives.
    Other,
}

/// One `case` of a `match` statement.
pub struct MatchCase {
    pub pattern: Pattern,
    pub guard: Option<Expr>,
    pub body: Vec<Stmt>,
}

/// One imported name with the byte range it spans.
pub struct Alias {
    pub start: usize,
    pub end: usize,
    pub name: String,
}

/// A statement with the byte range it spans.
pub struct Stmt {
    pub start: usize,
    pub end: usize,
    pub kind: StmtKind,
}

/// The kinds of statements.
pub enum StmtKind {
    FunctionDef { is_async: bool, name: String, args: Arguments, body: Vec<Stmt>, decorators: Vec<Expr> },
    ClassDef { name: String, body: Vec<Stmt>, decorators: Vec<Expr> },
    Return { value: Option<Expr> },
    Delete { targets: Vec<Expr> },
    Assign { targets: Vec<Expr>, value: Expr },
    /// `op_add` is true for `+=`.
    AugAssign { target: Expr, op_add: bool, value: Expr },
    AnnAssign { target: Expr, annotation: Expr, value: Option<Expr> },
    For { is_async: bool, iter: Expr, body: Vec<Stmt>, orelse: Vec<Stmt> },
    While { test: Expr, body: Vec<Stmt>, orelse: Vec<Stmt> },
    If { test: Expr, body: Vec<Stmt>, orelse: Vec<Stmt> },
    With { is_async: bool, items: Vec<WithItem>, body: Vec<Stmt> },
    Match { subject: Expr, cases: Vec<MatchCase> },
    Raise { exc: Option<Expr>, cause: Option<Expr> },
    /// `is_star` marks `try ... except*`.
    Try { is_star: bool, body: Vec<Stmt>, handlers: Vec<ExceptHandler>, orelse: Vec<Stmt>, finalbody: Vec<Stmt> },
    Assert { test: Expr, msg: Option<Expr> },
    Import { names: Vec<Alias> },
    ImportFrom { module: Option<String>, names: Vec<Alias> },
    Expr { value: Expr },
    Pass,
    /// `global`, `nonlocal`, `break`, `continue` and `type` aliases.
    Other,
}

/// A parsed module: its top-level statements.
pub struct Module {
    pub body: Vec<Stmt>,
}


// ---------------------------------------------------------------------------
// Models
// ---------------------------------------------------------------------------

/// Mathematical model of a [`Constant`].
pub ghost enum ConstantV {
    NoneValue,
    Bool(bool),
    Str(Seq<char>),
    Int(Seq<char>),
    Float(Seq<char>),
    Other,
}

/// Mathematical model of an [`Expr`].
pub ghost struct ExprV {
    pub start: int,
    pub end: int,
    pub kind: ExprKindV,
}

/// Mathematical model of a [`Comprehension`].
pub ghost struct ComprehensionV {
    pub iter: ExprV,
    pub ifs: Seq<ExprV>,
}

/// Mathematical model of an [`ExprKind`].
pub ghost enum ExprKindV {
    BoolOp { values: Seq<ExprV> },
    NamedExpr { target: Box<ExprV>, value: Box<ExprV> },
    BinOp { left: Box<ExprV>, right: Box<ExprV> },
    UnaryOp { operand: Box<ExprV> },
    Lambda { params: Seq<Seq<char>>, body: Box<ExprV> },
    IfExp { test: Box<ExprV>, body: Box<ExprV>, orelse: Box<ExprV> },
    Dict { keys: Seq<Option<ExprV>>, values: Seq<ExprV> },
    SetExpr { elts: Seq<ExprV> },
    ListComp { elt: Box<ExprV>, generators: Seq<ComprehensionV> },
    SetComp { elt: Box<ExprV>, generators: Seq<ComprehensionV> },
    DictComp { key: Box<ExprV>, value: Box<ExprV>, generators: Seq<ComprehensionV> },
    GeneratorExp { elt: Box<ExprV>, generators: Seq<ComprehensionV> },
    Await { value: Box<ExprV> },
    Yield { value: Option<Box<ExprV>> },
    YieldFrom { value: Box<ExprV> },
    Compare { left: Box<ExprV>, ops: Seq<CmpOp>, comparators: Seq<ExprV> },
    Call { func: Box<ExprV>, args: Seq<ExprV>, keywords: Seq<ExprV> },
    FormattedValue { value: Box<ExprV> },
    Constant { value: ConstantV },
    Attribute { value: Box<ExprV>, attr: Seq<char> },
    Subscript { value: Box<ExprV>, slice: Box<ExprV> },
    Starred { value: Box<ExprV> },
    Name { id: Seq<char> },
    List { elts: Seq<ExprV> },
    Tuple { elts: Seq<ExprV> },
    Slice { lower: Option<Box<ExprV>>, upper: Option<Box<ExprV>>, step: Option<Box<ExprV>> },
    Other,
}

/// Mathematical model of a [`Param`].
pub ghost struct ParamV {
    pub name: Seq<char>,
    pub default: Option<ExprV>,
}

/// Mathematical model of [`Arguments`].
pub ghost struct ArgumentsV {
    pub posonlyargs: Seq<ParamV>,
    pub args: Seq<ParamV>,
    pub kwonlyargs: Seq<ParamV>,
    pub has_vararg: bool,
    pub has_kwarg: bool,
}

/// Mathematical model of an [`ExceptHandler`].
pub ghost struct ExceptHandlerV {
    pub start: int,
    pub end: int,
    pub type_: Option<ExprV>,
    pub body: Seq<StmtV>,
}

/// Mathematical model of a [`WithItem`].
pub ghost struct WithItemV {
    pub context_expr: ExprV,
    pub optional_vars: Option<ExprV>,
}

/// Mathematical model of a [`Pattern`].
pub ghost enum PatternV {
    Value { value: ExprV },
    Sequence { patterns: Seq<PatternV> },
    Mapping { keys: Seq<ExprV> },
    Class { cls: ExprV, kwd_patterns: Seq<PatternV> },
    Other,
}

/// Mathematical model of a [`MatchCase`].
pub ghost struct MatchCaseV {
    pub pattern: PatternV,
    pub guard: Option<ExprV>,
    pub body: Seq<StmtV>,
}

/// Mathematical model of an [`Alias`].
pub ghost struct AliasV {
    pub start: int,
    pub end: int,
    pub name: Seq<char>,
}

/// Mathematical model of a [`Stmt`].
pub ghost struct StmtV {
    pub start: int,
    pub end: int,
    pub kind: StmtKindV,
}

/// Mathematical model of a [`StmtKind`].
pub ghost enum StmtKindV {
    FunctionDef { is_async: bool, name: Seq<char>, args: ArgumentsV, body: Seq<StmtV>, decorators: Seq<ExprV> },
    ClassDef { name: Seq<char>, body: Seq<StmtV>, decorators: Seq<ExprV> },
    Return { value: Option<ExprV> },
    Delete { targets: Seq<ExprV> },
    Assign { targets: Seq<ExprV>, value: ExprV },
    AugAssign { target: ExprV, op_add: bool, value: ExprV },
    AnnAssign { target: ExprV, annotation: ExprV, value: Option<ExprV> },
    For { is_async: bool, iter: ExprV, body: Seq<StmtV>, orelse: Seq<StmtV> },
    While { test: ExprV, body: Seq<StmtV>, orelse: Seq<StmtV> },
    If { test: ExprV, body: Seq<StmtV>, orelse: Seq<StmtV> },
    With { is_async: bool, items: Seq<WithItemV>, body: Seq<StmtV> },
    Match { subject: ExprV, cases: Seq<MatchCaseV> },
    Raise { exc: Option<ExprV>, cause: Option<ExprV> },
    Try {
        is_star: bool,
        body: Seq<StmtV>,
        handlers: Seq<ExceptHandlerV>,
        orelse: Seq<StmtV>,
        finalbody: Seq<StmtV>,
    },
    Assert { test: ExprV, msg: Option<ExprV> },
    Import { names: Seq<AliasV> },
    ImportFrom { module: Option<Seq<char>>, names: Seq<AliasV> },
    Expr { value: ExprV },
    Pass,
    Other,
}

/// The model of a constant.
pub open spec fn constant_view(c: Constant) -> ConstantV {
    match c {
        Constant::NoneValue => ConstantV::NoneValue,
        Constant::Bool(b) => ConstantV::Bool(b),
        Constant::Str(s) => ConstantV::Str(s@),
        Constant::Int(s) => ConstantV::Int(s@),
        Constant::Float(s) => ConstantV::Float(s@),
        Constant::Other => ConstantV::Other,
    }
}

/// The model of an expression.
pub open spec fn expr_view(e: Expr) -> ExprV
    decreases e,
{
    ExprV { start: e.start as int, end: e.end as int, kind: kind_view(e.kind) }
}

/// The model of an optional boxed expression.
pub open spec fn opt_box_view(o: Option<Box<Expr>>) -> Option<Box<ExprV>>
    decreases o,
{
    match o {
        Some(b) => Some(Box::new(expr_view(*b))),
        None => None,
    }
}

/// The model of an optional expression.
pub open spec fn opt_expr_view(o: Option<Expr>) -> Option<ExprV>
    decreases o,
{
    match o {
        Some(e) => Some(expr_view(e)),
        None => None,
    }
}

/// The model of an expression kind.
pub open spec fn kind_view(k: ExprKind) -> ExprKindV
    decreases k,
{
    match k {
        ExprKind::BoolOp { values } => ExprKindV::BoolOp { values: exprs_view(values@) },
        ExprKind::NamedExpr { target, value } => ExprKindV::NamedExpr {
            target: Box::new(expr_view(*target)),
            value: Box::new(expr_view(*value)),
        },
        ExprKind::BinOp { left, right } => ExprKindV::BinOp {
            left: Box::new(expr_view(*left)),
            right: Box::new(expr_view(*right)),
        },
        ExprKind::UnaryOp { operand } => ExprKindV::UnaryOp { operand: Box::new(expr_view(*operand)) },
        ExprKind::Lambda { params, body } => ExprKindV::Lambda {
            params: names_view(params@),
            body: Box::new(expr_view(*body)),
        },
        ExprKind::IfExp { test, body, orelse } => ExprKindV::IfExp {
            test: Box::new(expr_view(*test)),
            body: Box::new(expr_view(*body)),
            orelse: Box::new(expr_view(*orelse)),
        },
        ExprKind::Dict { keys, values } => ExprKindV::Dict {
            keys: opt_exprs_view(keys@),
            values: exprs_view(values@),
        },
        ExprKind::SetExpr { elts } => ExprKindV::SetExpr { elts: exprs_view(elts@) },
        ExprKind::ListComp { elt, generators } => ExprKindV::ListComp {
            elt: Box::new(expr_view(*elt)),
            generators: comps_view(generators@),
        },
        ExprKind::SetComp { elt, generators } => ExprKindV::SetComp {
            elt: Box::new(expr_view(*elt)),
            generators: comps_view(generators@),
        },
        ExprKind::DictComp { key, value, generators } => ExprKindV::DictComp {
            key: Box::new(expr_view(*key)),
            value: Box::new(expr_view(*value)),
            generators: comps_view(generators@),
        },
        ExprKind::GeneratorExp { elt, generators } => ExprKindV::GeneratorExp {
            elt: Box::new(expr_view(*elt)),
            generators: comps_view(generators@),
        },
        ExprKind::Await { value } => ExprKindV::Await { value: Box::new(expr_view(*value)) },
        ExprKind::Yield { value } => ExprKindV::Yield { value: opt_box_view(value) },
        ExprKind::YieldFrom { value } => ExprKindV::YieldFrom { value: Box::new(expr_view(*value)) },
        ExprKind::Compare { left, ops, comparators } => ExprKindV::Compare {
            left: Box::new(expr_view(*left)),
            ops: ops@,
            comparators: exprs_view(comparators@),
        },
        ExprKind::Call { func, args, keywords } => ExprKindV::Call {
            func: Box::new(expr_view(*func)),
            args: exprs_view(args@),
            keywords: exprs_view(keywords@),
        },
        ExprKind::FormattedValue { value } => ExprKindV::FormattedValue { value: Box::new(expr_view(*value)) },
        ExprKind::Constant { value } => ExprKindV::Constant { value: constant_view(value) },
        ExprKind::Attribute { value, attr } => ExprKindV::Attribute { value: Box::new(expr_view(*value)), attr: attr@ },
        ExprKind::Subscript { value, slice } => ExprKindV::Subscript {
            value: Box::new(expr_view(*value)),
            slice: Box::new(expr_view(*slice)),
        },
        ExprKind::Starred { value } => ExprKindV::Starred { value: Box::new(expr_view(*value)) },
        ExprKind::Name { id } => ExprKindV::Name { id: id@ },
        ExprKind::List { elts } => ExprKindV::List { elts: exprs_view(elts@) },
        ExprKind::Tuple { elts } => ExprKindV::Tuple { elts: exprs_view(elts@) },
        ExprKind::Slice { lower, upper, step } => ExprKindV::Slice {
            lower: opt_box_view(lower),
            upper: opt_box_view(upper),
            step: opt_box_view(step),
        },
        ExprKind::Other => ExprKindV::Other,
    }
}

/// The models of a sequence of expressions.
pub open spec fn exprs_view(s: Seq<Expr>) -> Seq<ExprV>
    decreases s,
{
    if s.len() == 0 {
        Seq::empty()
    } else {
        exprs_view(s.subrange(0, s.len() - 1)).push(expr_view(s[s.len() - 1]))
    }
}

/// The models of a sequence of optional expressions.
pub open spec fn opt_exprs_view(s: Seq<Option<Expr>>) -> Seq<Option<ExprV>>
    decreases s,
{
    if s.len() == 0 {
        Seq::empty()
    } else {
        opt_exprs_view(s.subrange(0, s.len() - 1)).push(opt_expr_view(s[s.len() - 1]))
    }
}

/// The models of a sequence of names.
pub open spec fn names_view(s: Seq<String>) -> Seq<Seq<char>> {
    s.map_values(|n: String| n@)
}

/// The model of a comprehension clause.
pub open spec fn comp_view(c: Comprehension) -> ComprehensionV
    decreases c,
{
    ComprehensionV { iter: expr_view(c.iter), ifs: exprs_view(c.ifs@) }
}

/// The models of a sequence of comprehension clauses.
pub open spec fn comps_view(s: Seq<Comprehension>) -> Seq<ComprehensionV>
    decreases s,
{
    if s.len() == 0 {
        Seq::empty()
    } else {
        comps_view(s.subrange(0, s.len() - 1)).push(comp_view(s[s.len() - 1]))
    }
}

/// The model of a parameter.
pub open spec fn param_view(p: Param) -> ParamV
    decreases p,
{
    ParamV { name: p.name@, default: opt_expr_view(p.default) }
}

/// The models of a sequence of parameters.
pub open spec fn params_view(s: Seq<Param>) -> Seq<ParamV>
    decreases s,
{
    if s.len() == 0 {
        Seq::empty()
    } else {
        params_view(s.subrange(0, s.len() - 1)).push(param_view(s[s.len() - 1]))
    }
}

/// The model of a parameter list.
pub open spec fn arguments_view(a: Arguments) -> ArgumentsV
    decreases a,
{
    ArgumentsV {
        posonlyargs: params_view(a.posonlyargs@),
        args: params_view(a.args@),
        kwonlyargs: params_view(a.kwonlyargs@),
        has_vararg: a.has_vararg,
        has_kwarg: a.has_kwarg,
    }
}

/// The model of a pattern.
pub open spec fn pattern_view(p: Pattern) -> PatternV
    decreases p,
{
    match p {
        Pattern::Value { value } => PatternV::Value { value: expr_view(value) },
        Pattern::Sequence { patterns } => PatternV::Sequence { patterns: patterns_view(patterns@) },
        Pattern::Mapping { keys } => PatternV::Mapping { keys: exprs_view(keys@) },
        Pattern::Class { cls, kwd_patterns } => PatternV::Class {
            cls: expr_view(cls),
            kwd_patterns: patterns_view(kwd_patterns@),
        },
        Pattern::Other => PatternV::Other,
    }
}

/// The models of a sequence of patterns.
pub open spec fn patterns_view(s: Seq<Pattern>) -> Seq<PatternV>
    decreases s,
{
    if s.len() == 0 {
        Seq::empty()
    } else {
        patterns_view(s.subrange(0, s.len() - 1)).push(pattern_view(s[s.len() - 1]))
    }
}

/// The model of an imported name.
pub open spec fn alias_view(a: Alias) -> AliasV {
    AliasV { start: a.start as int, end: a.end as int, name: a.name@ }
}

/// The models of a sequence of imported names.
pub open spec fn aliases_view(s: Seq<Alias>) -> Seq<AliasV> {
    s.map_values(|a: Alias| alias_view(a))
}

/// The model of a statement.
pub open spec fn stmt_view(s: Stmt) -> StmtV
    decreases s,
{
    StmtV { start: s.start as int, end: s.end as int, kind: stmt_kind_view(s.kind) }
}

/// The models of a sequence of statements.
pub open spec fn stmts_view(s: Seq<Stmt>) -> Seq<StmtV>
    decreases s,
{
    if s.len() == 0 {
        Seq::empty()
    } else {
        stmts_view(s.subrange(0, s.len() - 1)).push(stmt_view(s[s.len() - 1]))
    }
}

/// The model of a `with` item.
pub open spec fn with_item_view(w: WithItem) -> WithItemV
    decreases w,
{
    WithItemV { context_expr: expr_view(w.context_expr), optional_vars: opt_expr_view(w.optional_vars) }
}

/// The models of a sequence of `with` items.
pub open spec fn with_items_view(s: Seq<WithItem>) -> Seq<WithItemV>
    decreases s,
{
    if s.len() == 0 {
        Seq::empty()
    } else {
        with_items_view(s.subrange(0, s.len() - 1)).push(with_item_view(s[s.len() - 1]))
    }
}

/// The model of a `case`.
pub open spec fn case_view(c: MatchCase) -> MatchCaseV
    decreases c,
{
    MatchCaseV { pattern: pattern_view(c.pattern), guard: opt_expr_view(c.guard), body: stmts_view(c.body@) }
}

/// The models of a sequence of `case`s.
pub open spec fn cases_view(s: Seq<MatchCase>) -> Seq<MatchCaseV>
    decreases s,
{
    if s.len() == 0 {
        Seq::empty()
    } else {
        cases_view(s.subrange(0, s.len() - 1)).push(case_view(s[s.len() - 1]))
    }
}

/// The model of an `except` clause.
pub open spec fn handler_view(h: ExceptHandler) -> ExceptHandlerV
    decreases h,
{
    ExceptHandlerV { start: h.start as int, end: h.end as int, type_: opt_expr_view(h.type_), body: stmts_view(h.body@) }
}

/// The models of a sequence of `except` clauses.
pub open spec fn handlers_view(s: Seq<ExceptHandler>) -> Seq<ExceptHandlerV>
    decreases s,
{
    if s.len() == 0 {
        Seq::empty()
    } else {
        handlers_view(s.subrange(0, s.len() - 1)).push(handler_view(s[s.len() - 1]))
    }
}

/// The model of a statement kind.
pub open spec fn stmt_kind_view(k: StmtKind) -> StmtKindV
    decreases k,
{
    match k {
        StmtKind::FunctionDef { is_async, name, args, body, decorators } => StmtKindV::FunctionDef {
            is_async,
            name: name@,
            args: arguments_view(args),
            body: stmts_view(body@),
            decorators: exprs_view(decorators@),
        },
        StmtKind::ClassDef { name, body, decorators } => StmtKindV::ClassDef {
            name: name@,
            body: stmts_view(body@),
            decorators: exprs_view(decorators@),
        },
        StmtKind::Return { value } => StmtKindV::Return { value: opt_expr_view(value) },
        StmtKind::Delete { targets } => StmtKindV::Delete { targets: exprs_view(targets@) },
        StmtKind::Assign { targets, value } => StmtKindV::Assign {
            targets: exprs_view(targets@),
            value: expr_view(value),
        },
        StmtKind::AugAssign { target, op_add, value } => StmtKindV::AugAssign {
            target: expr_view(target),
            op_add,
            value: expr_view(value),
        },
        StmtKind::AnnAssign { target, annotation, value } => StmtKindV::AnnAssign {
            target: expr_view(target),
            annotation: expr_view(annotation),
            value: opt_expr_view(value),
        },
        StmtKind::For { is_async, iter, body, orelse } => StmtKindV::For {
            is_async,
            iter: expr_view(iter),
            body: stmts_view(body@),
            orelse: stmts_view(orelse@),
        },
        StmtKind::While { test, body, orelse } => StmtKindV::While {
            test: expr_view(test),
            body: stmts_view(body@),
            orelse: stmts_view(orelse@),
        },
        StmtKind::If { test, body, orelse } => StmtKindV::If {
            test: expr_view(test),
            body: stmts_view(body@),
            orelse: stmts_view(orelse@),
        },
        StmtKind::With { is_async, items, body } => StmtKindV::With {
            is_async,
            items: with_items_view(items@),
            body: stmts_view(body@),
        },
        StmtKind::Match { subject, cases } => StmtKindV::Match {
            subject: expr_view(subject),
            cases: cases_view(cases@),
        },
        StmtKind::Raise { exc, cause } => StmtKindV::Raise { exc: opt_expr_view(exc), cause: opt_expr_view(cause) },
        StmtKind::Try { is_star, body, handlers, orelse, finalbody } => StmtKindV::Try {
            is_star,
            body: stmts_view(body@),
            handlers: handlers_view(handlers@),
            orelse: stmts_view(orelse@),
            finalbody: stmts_view(finalbody@),
        },
        StmtKind::Assert { test, msg } => StmtKindV::Assert { test: expr_view(test), msg: opt_expr_view(msg) },
        StmtKind::Import { names } => StmtKindV::Import { names: aliases_view(names@) },
        StmtKind::ImportFrom { module, names } => StmtKindV::ImportFrom {
            module: match module {
                Some(m) => Some(m@),
                None => None,
            },
            names: aliases_view(names@),
        },
        StmtKind::Expr { value } => StmtKindV::Expr { value: expr_view(value) },
        StmtKind::Pass => StmtKindV::Pass,
        StmtKind::Other => StmtKindV::Other,
    }
}

/// The model of a module: the models of its statements.
pub open spec fn module_view(m: Module) -> Seq<StmtV> {
    stmts_view(m.body@)
}

/// Appending to a sequence appends the model.
pub proof fn lemma_views_push()
    ensures
        forall|s: Seq<Expr>, x: Expr| #[trigger] exprs_view(s.push(x)) == exprs_view(s).push(expr_view(x)),
        forall|s: Seq<Option<Expr>>, x: Option<Expr>| #[trigger] opt_exprs_view(s.push(x)) == opt_exprs_view(s).push(opt_expr_view(x)),
        forall|s: Seq<Comprehension>, x: Comprehension| #[trigger] comps_view(s.push(x)) == comps_view(s).push(comp_view(x)),
        forall|s: Seq<Param>, x: Param| #[trigger] params_view(s.push(x)) == params_view(s).push(param_view(x)),
        forall|s: Seq<Pattern>, x: Pattern| #[trigger] patterns_view(s.push(x)) == patterns_view(s).push(pattern_view(x)),
        forall|s: Seq<Stmt>, x: Stmt| #[trigger] stmts_view(s.push(x)) == stmts_view(s).push(stmt_view(x)),
        forall|s: Seq<WithItem>, x: WithItem| #[trigger] with_items_view(s.push(x)) == with_items_view(s).push(with_item_view(x)),
        forall|s: Seq<MatchCase>, x: MatchCase| #[trigger] cases_view(s.push(x)) == cases_view(s).push(case_view(x)),
        forall|s: Seq<ExceptHandler>, x: ExceptHandler| #[trigger] handlers_view(s.push(x)) == handlers_view(s).push(handler_view(x)),
        forall|s: Seq<String>, x: String| #[trigger] names_view(s.push(x)) == names_view(s).push(x@),
        forall|s: Seq<Alias>, x: Alias| #[trigger] aliases_view(s.push(x)) == aliases_view(s).push(alias_view(x)),
{
    assert forall|s: Seq<Expr>, x: Expr| #[trigger] exprs_view(s.push(x)) == exprs_view(s).push(expr_view(x)) by {
        assert(s.push(x).subrange(0, s.len() as int) =~= s);
    }
    assert forall|s: Seq<Option<Expr>>, x: Option<Expr>| #[trigger] opt_exprs_view(s.push(x)) == opt_exprs_view(s).push(opt_expr_view(x)) by {
        assert(s.push(x).subrange(0, s.len() as int) =~= s);
    }
    assert forall|s: Seq<Comprehension>, x: Comprehension| #[trigger] comps_view(s.push(x)) == comps_view(s).push(comp_view(x)) by {
        assert(s.push(x).subrange(0, s.len() as int) =~= s);
    }
    assert forall|s: Seq<Param>, x: Param| #[trigger] params_view(s.push(x)) == params_view(s).push(param_view(x)) by {
        assert(s.push(x).subrange(0, s.len() as int) =~= s);
    }
    assert forall|s: Seq<Pattern>, x: Pattern| #[trigger] patterns_view(s.push(x)) == patterns_view(s).push(pattern_view(x)) by {
        assert(s.push(x).subrange(0, s.len() as int) =~= s);
    }
    assert forall|s: Seq<Stmt>, x: Stmt| #[trigger] stmts_view(s.push(x)) == stmts_view(s).push(stmt_view(x)) by {
        assert(s.push(x).subrange(0, s.len() as int) =~= s);
    }
    assert forall|s: Seq<WithItem>, x: WithItem| #[trigger] with_items_view(s.push(x)) == with_items_view(s).push(with_item_view(x)) by {
        assert(s.push(x).subrange(0, s.len() as int) =~= s);
    }
    assert forall|s: Seq<MatchCase>, x: MatchCase| #[trigger] cases_view(s.push(x)) == cases_view(s).push(case_view(x)) by {
        assert(s.push(x).subrange(0, s.len() as int) =~= s);
    }
    assert forall|s: Seq<ExceptHandler>, x: ExceptHandler| #[trigger] handlers_view(s.push(x)) == handlers_view(s).push(handler_view(x)) by {
        assert(s.push(x).subrange(0, s.len() as int) =~= s);
    }
    assert forall|s: Seq<String>, x: String| #[trigger] names_view(s.push(x)) == names_view(s).push(x@) by {
        assert(names_view(s.push(x)) =~= names_view(s).push(x@));
    }
    assert forall|s: Seq<Alias>, x: Alias| #[trigger] aliases_view(s.push(x)) == aliases_view(s).push(alias_view(x)) by {
        assert(aliases_view(s.push(x)) =~= aliases_view(s).push(alias_view(x)));
    }
}

/// The empty sequence has the empty model.
pub proof fn lemma_views_empty()
    ensures
        exprs_view(Seq::<Expr>::empty()) == Seq::<ExprV>::empty(),
        opt_exprs_view(Seq::<Option<Expr>>::empty()) == Seq::<Option<ExprV>>::empty(),
        comps_view(Seq::<Comprehension>::empty()) == Seq::<ComprehensionV>::empty(),
        params_view(Seq::<Param>::empty()) == Seq::<ParamV>::empty(),
        patterns_view(Seq::<Pattern>::empty()) == Seq::<PatternV>::empty(),
        stmts_view(Seq::<Stmt>::empty()) == Seq::<StmtV>::empty(),
        with_items_view(Seq::<WithItem>::empty()) == Seq::<WithItemV>::empty(),
        cases_view(Seq::<MatchCase>::empty()) == Seq::<MatchCaseV>::empty(),
        handlers_view(Seq::<ExceptHandler>::empty()) == Seq::<ExceptHandlerV>::empty(),
        names_view(Seq::<String>::empty()) == Seq::<Seq<char>>::empty(),
        aliases_view(Seq::<Alias>::empty()) == Seq::<AliasV>::empty(),
{
    assert(names_view(Seq::<String>::empty()) =~= Seq::<Seq<char>>::empty());
    assert(aliases_view(Seq::<Alias>::empty()) =~= Seq::<AliasV>::empty());
}

} // verus!
