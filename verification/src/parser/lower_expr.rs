//! Lowering rendered expressions (and the patterns, parameters and `with`
//! items built from them) into the syntax tree. The `*_spec` functions state
//! what a rendered node lowers to; each lowering function computes exactly
//! that.
use vstd::prelude::*;
use super::ast::{
    aliases_view, alias_view, arguments_view, case_view, cases_view, comp_view, comps_view, constant_view, expr_view,
    exprs_view, handler_view, handlers_view, kind_view, lemma_views_empty, lemma_views_push, module_view, names_view,
    opt_box_view, opt_expr_view, opt_exprs_view, param_view, params_view, pattern_view, patterns_view, stmt_kind_view,
    stmt_view, stmts_view, with_item_view, with_items_view, Alias, AliasV, Arguments, ArgumentsV, CmpOp, Comprehension,
    ComprehensionV, Constant, ConstantV, ExceptHandler, ExceptHandlerV, Expr, ExprKind, ExprKindV, ExprV, MatchCase,
    MatchCaseV, Module, Param, ParamV, Pattern, PatternV, Stmt, StmtKind, StmtKindV, StmtV, WithItem, WithItemV,
};
use super::dump::{dump_view, dump_views, field_views, lemma_dump_views_index, lemma_field_views_index, Dump, DumpV};
use super::fields::{FieldsV, field_from, field_pos, field_value, all_digits, digits_value, number_spec, dotdot_from, range_spec, ident_spec, ident_field_spec, opt_ident_field_spec, field_is_some_spec, compare_op_spec, compare_ops_spec, compare_ops_field_spec, node_spec, constant_spec, float_text, is, field_index, range_of, ident_field, opt_ident_field, field_is_some, compare_ops_field, lower_constant, node_fields};

verus! {

/// `Some(boxed)` of an optional expression model.
pub open spec fn boxed(o: Option<ExprV>) -> Option<Box<ExprV>> {
    match o {
        Some(e) => Some(Box::new(e)),
        None => None,
    }
}

/// An expression node.
pub open spec fn expr_spec(d: DumpV) -> Option<ExprV>
    decreases d, 0int,
{
    match d {
        DumpV::Call(variant, args) => if args.len() == 1 {
            match args[0] {
                DumpV::Record(_, fs) => match range_spec(fs) {
                    Some((start, end)) => match expr_kind_spec(variant, fs) {
                        Some(kind) => Some(ExprV { start: start as int, end: end as int, kind }),
                        None => None,
                    },
                    None => None,
                },
                _ => None,
            }
        } else {
            None
        },
        _ => None,
    }
}

/// An expression in field `name`.
pub open spec fn expr_field_spec(fs: FieldsV, name: Seq<char>) -> Option<ExprV>
    decreases fs, 1int,
{
    match field_pos(fs, name) {
        Some(i) => if 0 <= i < fs.len() {
            expr_spec(fs[i].1)
        } else {
            None
        },
        None => None,
    }
}

/// An optional expression: `None` or `Some(expr)`.
pub open spec fn opt_expr_spec(d: DumpV) -> Option<Option<ExprV>>
    decreases d, 0int,
{
    match d {
        DumpV::Atom(a) => if a == "None"@ {
            Some(None)
        } else {
            None
        },
        DumpV::Call(n, args) => if n == "Some"@ && args.len() == 1 {
            match expr_spec(args[0]) {
                Some(e) => Some(Some(e)),
                None => None,
            }
        } else {
            None
        },
        _ => None,
    }
}

/// An optional expression in field `name`.
pub open spec fn opt_expr_field_spec(fs: FieldsV, name: Seq<char>) -> Option<Option<ExprV>>
    decreases fs, 1int,
{
    match field_pos(fs, name) {
        Some(i) => if 0 <= i < fs.len() {
            opt_expr_spec(fs[i].1)
        } else {
            None
        },
        None => None,
    }
}

/// A list of expressions.
pub open spec fn exprs_spec(items: Seq<DumpV>) -> Option<Seq<ExprV>>
    decreases items, 0int,
{
    if items.len() == 0 {
        Some(Seq::empty())
    } else {
        match (expr_spec(items[0]), exprs_spec(items.subrange(1, items.len() as int))) {
            (Some(x), Some(rest)) => Some(seq![x] + rest),
            _ => None,
        }
    }
}

/// A list of expressions in field `name`.
pub open spec fn expr_list_field_spec(fs: FieldsV, name: Seq<char>) -> Option<Seq<ExprV>>
    decreases fs, 1int,
{
    match field_pos(fs, name) {
        Some(i) => if 0 <= i < fs.len() {
            match fs[i].1 {
                DumpV::List(items) => exprs_spec(items),
                _ => None,
            }
        } else {
            None
        },
        None => None,
    }
}

/// A list of optional expressions.
pub open spec fn opt_exprs_spec(items: Seq<DumpV>) -> Option<Seq<Option<ExprV>>>
    decreases items, 0int,
{
    if items.len() == 0 {
        Some(Seq::empty())
    } else {
        match (opt_expr_spec(items[0]), opt_exprs_spec(items.subrange(1, items.len() as int))) {
            (Some(x), Some(rest)) => Some(seq![x] + rest),
            _ => None,
        }
    }
}

/// A list of optional expressions in field `name`.
pub open spec fn opt_expr_list_field_spec(fs: FieldsV, name: Seq<char>) -> Option<Seq<Option<ExprV>>>
    decreases fs, 1int,
{
    match field_pos(fs, name) {
        Some(i) => if 0 <= i < fs.len() {
            match fs[i].1 {
                DumpV::List(items) => opt_exprs_spec(items),
                _ => None,
            }
        } else {
            None
        },
        None => None,
    }
}

/// The values of keyword-argument records.
pub open spec fn keywords_spec(items: Seq<DumpV>) -> Option<Seq<ExprV>>
    decreases items, 0int,
{
    if items.len() == 0 {
        Some(Seq::empty())
    } else {
        match items[0] {
            DumpV::Record(_, kf) => match (expr_field_spec(kf, "value"@), keywords_spec(
                items.subrange(1, items.len() as int),
            )) {
                (Some(x), Some(rest)) => Some(seq![x] + rest),
                _ => None,
            },
            _ => None,
        }
    }
}

/// The values of the keyword arguments of a call.
pub open spec fn keywords_field_spec(fs: FieldsV) -> Option<Seq<ExprV>>
    decreases fs, 1int,
{
    match field_pos(fs, "keywords"@) {
        Some(i) => if 0 <= i < fs.len() {
            match fs[i].1 {
                DumpV::List(items) => keywords_spec(items),
                _ => None,
            }
        } else {
            None
        },
        None => None,
    }
}

/// Comprehension clauses.
pub open spec fn comps_spec(items: Seq<DumpV>) -> Option<Seq<ComprehensionV>>
    decreases items, 0int,
{
    if items.len() == 0 {
        Some(Seq::empty())
    } else {
        match items[0] {
            DumpV::Record(_, cf) => match (
                expr_field_spec(cf, "iter"@),
                expr_list_field_spec(cf, "ifs"@),
                comps_spec(items.subrange(1, items.len() as int)),
            ) {
                (Some(iter), Some(ifs), Some(rest)) => Some(seq![ComprehensionV { iter, ifs }] + rest),
                _ => None,
            },
            _ => None,
        }
    }
}

/// The generators of a comprehension.
pub open spec fn comps_field_spec(fs: FieldsV) -> Option<Seq<ComprehensionV>>
    decreases fs, 1int,
{
    match field_pos(fs, "generators"@) {
        Some(i) => if 0 <= i < fs.len() {
            match fs[i].1 {
                DumpV::List(items) => comps_spec(items),
                _ => None,
            }
        } else {
            None
        },
        None => None,
    }
}

/// The names in a list of `ArgWithDefault` records.
pub open spec fn param_names_spec(items: Seq<DumpV>) -> Option<Seq<Seq<char>>>
    decreases items.len(),
{
    if items.len() == 0 {
        Some(Seq::empty())
    } else {
        match items[0] {
            DumpV::Record(_, af) => match field_value(af, "def"@) {
                Some(DumpV::Record(_, def)) => match (
                    ident_field_spec(def, "arg"@),
                    param_names_spec(items.subrange(1, items.len() as int)),
                ) {
                    (Some(x), Some(rest)) => Some(seq![x] + rest),
                    _ => None,
                },
                _ => None,
            },
            _ => None,
        }
    }
}

/// The names of a lambda's positional-or-keyword parameters.
pub open spec fn lambda_params_spec(fs: FieldsV) -> Option<Seq<Seq<char>>> {
    match field_value(fs, "args"@) {
        Some(DumpV::Record(_, afields)) => match field_value(afields, "args"@) {
            Some(DumpV::List(items)) => param_names_spec(items),
            _ => None,
        },
        _ => None,
    }
}

/// The kind of an expression node with constructor `variant` and fields `fs`.
pub open spec fn expr_kind_spec(variant: Seq<char>, fs: FieldsV) -> Option<ExprKindV>
    decreases fs, 2int,
{
    if variant == "BoolOp"@ {
        match expr_list_field_spec(fs, "values"@) {
            Some(values) => Some(ExprKindV::BoolOp { values }),
            None => None,
        }
    } else if variant == "NamedExpr"@ {
        match (expr_field_spec(fs, "target"@), expr_field_spec(fs, "value"@)) {
            (Some(t), Some(v)) => Some(ExprKindV::NamedExpr { target: Box::new(t), value: Box::new(v) }),
            _ => None,
        }
    } else if variant == "BinOp"@ {
        match (expr_field_spec(fs, "left"@), expr_field_spec(fs, "right"@)) {
            (Some(l), Some(r)) => Some(ExprKindV::BinOp { left: Box::new(l), right: Box::new(r) }),
            _ => None,
        }
    } else if variant == "UnaryOp"@ {
        match expr_field_spec(fs, "operand"@) {
            Some(o) => Some(ExprKindV::UnaryOp { operand: Box::new(o) }),
            None => None,
        }
    } else if variant == "Lambda"@ {
        match (lambda_params_spec(fs), expr_field_spec(fs, "body"@)) {
            (Some(params), Some(b)) => Some(ExprKindV::Lambda { params, body: Box::new(b) }),
            _ => None,
        }
    } else if variant == "IfExp"@ {
        match (expr_field_spec(fs, "test"@), expr_field_spec(fs, "body"@), expr_field_spec(fs, "orelse"@)) {
            (Some(t), Some(b), Some(o)) => Some(
                ExprKindV::IfExp { test: Box::new(t), body: Box::new(b), orelse: Box::new(o) },
            ),
            _ => None,
        }
    } else if variant == "Dict"@ {
        match (opt_expr_list_field_spec(fs, "keys"@), expr_list_field_spec(fs, "values"@)) {
            (Some(keys), Some(values)) => Some(ExprKindV::Dict { keys, values }),
            _ => None,
        }
    } else if variant == "Set"@ {
        match expr_list_field_spec(fs, "elts"@) {
            Some(elts) => Some(ExprKindV::SetExpr { elts }),
            None => None,
        }
    } else if variant == "ListComp"@ {
        match (expr_field_spec(fs, "elt"@), comps_field_spec(fs)) {
            (Some(e), Some(g)) => Some(ExprKindV::ListComp { elt: Box::new(e), generators: g }),
            _ => None,
        }
    } else if variant == "SetComp"@ {
        match (expr_field_spec(fs, "elt"@), comps_field_spec(fs)) {
            (Some(e), Some(g)) => Some(ExprKindV::SetComp { elt: Box::new(e), generators: g }),
            _ => None,
        }
    } else if variant == "GeneratorExp"@ {
        match (expr_field_spec(fs, "elt"@), comps_field_spec(fs)) {
            (Some(e), Some(g)) => Some(ExprKindV::GeneratorExp { elt: Box::new(e), generators: g }),
            _ => None,
        }
    } else if variant == "DictComp"@ {
        match (expr_field_spec(fs, "key"@), expr_field_spec(fs, "value"@), comps_field_spec(fs)) {
            (Some(k), Some(v), Some(g)) => Some(
                ExprKindV::DictComp { key: Box::new(k), value: Box::new(v), generators: g },
            ),
            _ => None,
        }
    } else if variant == "Await"@ {
        match expr_field_spec(fs, "value"@) {
            Some(v) => Some(ExprKindV::Await { value: Box::new(v) }),
            None => None,
        }
    } else if variant == "Yield"@ {
        match opt_expr_field_spec(fs, "value"@) {
            Some(v) => Some(ExprKindV::Yield { value: boxed(v) }),
            None => None,
        }
    } else if variant == "YieldFrom"@ {
        match expr_field_spec(fs, "value"@) {
            Some(v) => Some(ExprKindV::YieldFrom { value: Box::new(v) }),
            None => None,
        }
    } else if variant == "Compare"@ {
        match (expr_field_spec(fs, "left"@), compare_ops_field_spec(fs, "ops"@), expr_list_field_spec(fs, "comparators"@)) {
            (Some(l), Some(ops), Some(c)) => Some(ExprKindV::Compare { left: Box::new(l), ops, comparators: c }),
            _ => None,
        }
    } else if variant == "Call"@ {
        match (expr_field_spec(fs, "func"@), expr_list_field_spec(fs, "args"@), keywords_field_spec(fs)) {
            (Some(f), Some(a), Some(k)) => Some(ExprKindV::Call { func: Box::new(f), args: a, keywords: k }),
            _ => None,
        }
    } else if variant == "FormattedValue"@ {
        match expr_field_spec(fs, "value"@) {
            Some(v) => Some(ExprKindV::FormattedValue { value: Box::new(v) }),
            None => None,
        }
    } else if variant == "Constant"@ {
        match field_value(fs, "value"@) {
            Some(c) => match constant_spec(c) {
                Some(value) => Some(ExprKindV::Constant { value }),
                None => None,
            },
            None => None,
        }
    } else if variant == "Attribute"@ {
        match (expr_field_spec(fs, "value"@), ident_field_spec(fs, "attr"@)) {
            (Some(v), Some(a)) => Some(ExprKindV::Attribute { value: Box::new(v), attr: a }),
            _ => None,
        }
    } else if variant == "Subscript"@ {
        match (expr_field_spec(fs, "value"@), expr_field_spec(fs, "slice"@)) {
            (Some(v), Some(s)) => Some(ExprKindV::Subscript { value: Box::new(v), slice: Box::new(s) }),
            _ => None,
        }
    } else if variant == "Starred"@ {
        match expr_field_spec(fs, "value"@) {
            Some(v) => Some(ExprKindV::Starred { value: Box::new(v) }),
            None => None,
        }
    } else if variant == "Name"@ {
        match ident_field_spec(fs, "id"@) {
            Some(id) => Some(ExprKindV::Name { id }),
            None => None,
        }
    } else if variant == "List"@ {
        match expr_list_field_spec(fs, "elts"@) {
            Some(elts) => Some(ExprKindV::List { elts }),
            None => None,
        }
    } else if variant == "Tuple"@ {
        match expr_list_field_spec(fs, "elts"@) {
            Some(elts) => Some(ExprKindV::Tuple { elts }),
            None => None,
        }
    } else if variant == "Slice"@ {
        match (
            opt_expr_field_spec(fs, "lower"@),
            opt_expr_field_spec(fs, "upper"@),
            opt_expr_field_spec(fs, "step"@),
        ) {
            (Some(l), Some(u), Some(s)) => Some(ExprKindV::Slice { lower: boxed(l), upper: boxed(u), step: boxed(s) }),
            _ => None,
        }
    } else {
        Some(ExprKindV::Other)
    }
}

/// Parameters with their defaults.
pub open spec fn params_spec(items: Seq<DumpV>) -> Option<Seq<ParamV>>
    decreases items.len(),
{
    if items.len() == 0 {
        Some(Seq::empty())
    } else {
        match items[0] {
            DumpV::Record(_, af) => match field_value(af, "def"@) {
                Some(DumpV::Record(_, def)) => match (
                    ident_field_spec(def, "arg"@),
                    opt_expr_field_spec(af, "default"@),
                    params_spec(items.subrange(1, items.len() as int)),
                ) {
                    (Some(name), Some(default), Some(rest)) => Some(seq![ParamV { name, default }] + rest),
                    _ => None,
                },
                _ => None,
            },
            _ => None,
        }
    }
}

/// A list of parameters in field `name`.
pub open spec fn params_field_spec(afs: FieldsV, name: Seq<char>) -> Option<Seq<ParamV>> {
    match field_value(afs, name) {
        Some(DumpV::List(items)) => params_spec(items),
        _ => None,
    }
}

/// A function's parameter list.
pub open spec fn arguments_spec(fs: FieldsV) -> Option<ArgumentsV> {
    match field_value(fs, "args"@) {
        Some(DumpV::Record(_, af)) => match (
            params_field_spec(af, "posonlyargs"@),
            params_field_spec(af, "args"@),
            params_field_spec(af, "kwonlyargs"@),
            field_is_some_spec(af, "vararg"@),
            field_is_some_spec(af, "kwarg"@),
        ) {
            (Some(p), Some(a), Some(k), Some(v), Some(w)) => Some(
                ArgumentsV { posonlyargs: p, args: a, kwonlyargs: k, has_vararg: v, has_kwarg: w },
            ),
            _ => None,
        },
        _ => None,
    }
}

/// A `match` pattern.
pub open spec fn pattern_spec(d: DumpV) -> Option<PatternV>
    decreases d, 0int,
{
    match d {
        DumpV::Call(variant, args) => if args.len() == 1 {
            match args[0] {
                DumpV::Record(_, fs) => pattern_kind_spec(variant, fs),
                _ => None,
            }
        } else {
            None
        },
        _ => None,
    }
}

/// A pattern node with constructor `variant` and fields `fs`.
pub open spec fn pattern_kind_spec(variant: Seq<char>, fs: FieldsV) -> Option<PatternV>
    decreases fs, 2int,
{
    if variant == "MatchValue"@ {
        match expr_field_spec(fs, "value"@) {
            Some(value) => Some(PatternV::Value { value }),
            None => None,
        }
    } else if variant == "MatchSequence"@ {
        match patterns_field_spec(fs, "patterns"@) {
            Some(patterns) => Some(PatternV::Sequence { patterns }),
            None => None,
        }
    } else if variant == "MatchMapping"@ {
        match expr_list_field_spec(fs, "keys"@) {
            Some(keys) => Some(PatternV::Mapping { keys }),
            None => None,
        }
    } else if variant == "MatchClass"@ {
        match (expr_field_spec(fs, "cls"@), patterns_field_spec(fs, "kwd_patterns"@)) {
            (Some(cls), Some(kwd_patterns)) => Some(PatternV::Class { cls, kwd_patterns }),
            _ => None,
        }
    } else {
        Some(PatternV::Other)
    }
}

/// A list of patterns.
pub open spec fn patterns_spec(items: Seq<DumpV>) -> Option<Seq<PatternV>>
    decreases items, 0int,
{
    if items.len() == 0 {
        Some(Seq::empty())
    } else {
        match (pattern_spec(items[0]), patterns_spec(items.subrange(1, items.len() as int))) {
            (Some(x), Some(rest)) => Some(seq![x] + rest),
            _ => None,
        }
    }
}

/// A list of patterns in field `name`.
pub open spec fn patterns_field_spec(fs: FieldsV, name: Seq<char>) -> Option<Seq<PatternV>>
    decreases fs, 1int,
{
    match field_pos(fs, name) {
        Some(i) => if 0 <= i < fs.len() {
            match fs[i].1 {
                DumpV::List(items) => patterns_spec(items),
                _ => None,
            }
        } else {
            None
        },
        None => None,
    }
}

/// `with` items.
pub open spec fn with_items_spec(items: Seq<DumpV>) -> Option<Seq<WithItemV>>
    decreases items.len(),
{
    if items.len() == 0 {
        Some(Seq::empty())
    } else {
        match items[0] {
            DumpV::Record(_, wf) => match (
                expr_field_spec(wf, "context_expr"@),
                opt_expr_field_spec(wf, "optional_vars"@),
                with_items_spec(items.subrange(1, items.len() as int)),
            ) {
                (Some(c), Some(o), Some(rest)) => Some(seq![WithItemV { context_expr: c, optional_vars: o }] + rest),
                _ => None,
            },
            _ => None,
        }
    }
}

/// The items of a `with` statement.
pub open spec fn with_items_field_spec(fs: FieldsV) -> Option<Seq<WithItemV>> {
    match field_value(fs, "items"@) {
        Some(DumpV::List(items)) => with_items_spec(items),
        _ => None,
    }
}

/// A list of expressions in field `name`.
#[verifier::loop_isolation(false)]
pub(crate) fn expr_list_field(fields: &Vec<(String, Dump)>, name: &str) -> (r: Option<Vec<Expr>>)
    ensures
        match expr_list_field_spec(field_views(fields@), name@) {
            Some(v) => r matches Some(x) && exprs_view(x@) == v,
            None => r is None,
        },
    decreases fields, 1int,
{
    let i = field_index(fields, name)?;
    proof {
        lemma_field_views_index(fields@);
    }
    match &fields[i].1 {
        Dump::List(items) => {
            let ghost iv = dump_views(items@);
            proof {
                lemma_dump_views_index(items@);
                lemma_views_empty();
                assert(iv.subrange(0, iv.len() as int) =~= iv);
                assert(exprs_view(Seq::<Expr>::empty()) + Seq::<ExprV>::empty() =~= Seq::<ExprV>::empty());
            }
            let mut out: Vec<Expr> = Vec::new();
            let mut k: usize = 0;
            while k < items.len()
                invariant
                    k <= items@.len(),
                    iv == dump_views(items@),
                    iv.len() == items@.len(),
                    forall|j: int| 0 <= j < items@.len() ==> #[trigger] iv[j] == dump_view(items@[j]),
                    exprs_spec(iv) == match exprs_spec(iv.subrange(k as int, iv.len() as int)) {
                        Some(rest) => Some(exprs_view(out@) + rest),
                        None => None,
                    },
                decreases items@.len() - k,
            {
                let ghost sub = iv.subrange(k as int, iv.len() as int);
                proof {
                    assert(sub[0] == iv[k as int]);
                    assert(sub.subrange(1, sub.len() as int) =~= iv.subrange(k + 1, iv.len() as int));
                }
                let x = lower_expr(&items[k])?;
                let ghost before = exprs_view(out@);
                out.push(x);
                proof {
                    lemma_views_push();
                    match exprs_spec(iv.subrange(k + 1, iv.len() as int)) {
                        Some(rest) => {
                            assert(before + (seq![expr_view(x)] + rest) =~= exprs_view(out@) + rest);
                        },
                        None => {},
                    }
                }
                k = k + 1;
            }
            proof {
                assert(iv.subrange(k as int, iv.len() as int) =~= Seq::<DumpV>::empty());
                assert(exprs_view(out@) + Seq::<ExprV>::empty() =~= exprs_view(out@));
            }
            Some(out)
        },
        _ => None,
    }
}

/// A list of optional expressions in field `name`.
#[verifier::loop_isolation(false)]
pub(crate) fn opt_expr_list_field(fields: &Vec<(String, Dump)>, name: &str) -> (r: Option<Vec<Option<Expr>>>)
    ensures
        match opt_expr_list_field_spec(field_views(fields@), name@) {
            Some(v) => r matches Some(x) && opt_exprs_view(x@) == v,
            None => r is None,
        },
    decreases fields, 1int,
{
    let i = field_index(fields, name)?;
    proof {
        lemma_field_views_index(fields@);
    }
    match &fields[i].1 {
        Dump::List(items) => {
            let ghost iv = dump_views(items@);
            proof {
                lemma_dump_views_index(items@);
                lemma_views_empty();
                assert(iv.subrange(0, iv.len() as int) =~= iv);
                assert(opt_exprs_view(Seq::<Option<Expr>>::empty()) + Seq::<Option<ExprV>>::empty() =~= Seq::<Option<ExprV>>::empty());
            }
            let mut out: Vec<Option<Expr>> = Vec::new();
            let mut k: usize = 0;
            while k < items.len()
                invariant
                    k <= items@.len(),
                    iv == dump_views(items@),
                    iv.len() == items@.len(),
                    forall|j: int| 0 <= j < items@.len() ==> #[trigger] iv[j] == dump_view(items@[j]),
                    opt_exprs_spec(iv) == match opt_exprs_spec(iv.subrange(k as int, iv.len() as int)) {
                        Some(rest) => Some(opt_exprs_view(out@) + rest),
                        None => None,
                    },
                decreases items@.len() - k,
            {
                let ghost sub = iv.subrange(k as int, iv.len() as int);
                proof {
                    assert(sub[0] == iv[k as int]);
                    assert(sub.subrange(1, sub.len() as int) =~= iv.subrange(k + 1, iv.len() as int));
                }
                let x = opt_expr_of(&items[k])?;
                let ghost before = opt_exprs_view(out@);
                out.push(x);
                proof {
                    lemma_views_push();
                    match opt_exprs_spec(iv.subrange(k + 1, iv.len() as int)) {
                        Some(rest) => {
                            assert(before + (seq![opt_expr_view(x)] + rest) =~= opt_exprs_view(out@) + rest);
                        },
                        None => {},
                    }
                }
                k = k + 1;
            }
            proof {
                assert(iv.subrange(k as int, iv.len() as int) =~= Seq::<DumpV>::empty());
                assert(opt_exprs_view(out@) + Seq::<Option<ExprV>>::empty() =~= opt_exprs_view(out@));
            }
            Some(out)
        },
        _ => None,
    }
}

/// The values of the keyword arguments of a call.
#[verifier::loop_isolation(false)]
pub(crate) fn keyword_values(fields: &Vec<(String, Dump)>) -> (r: Option<Vec<Expr>>)
    ensures
        match keywords_field_spec(field_views(fields@)) {
            Some(v) => r matches Some(x) && exprs_view(x@) == v,
            None => r is None,
        },
    decreases fields, 1int,
{
    let i = field_index(fields, "keywords")?;
    proof {
        lemma_field_views_index(fields@);
    }
    match &fields[i].1 {
        Dump::List(items) => {
            let ghost iv = dump_views(items@);
            proof {
                lemma_dump_views_index(items@);
                lemma_views_empty();
                assert(iv.subrange(0, iv.len() as int) =~= iv);
                assert(exprs_view(Seq::<Expr>::empty()) + Seq::<ExprV>::empty() =~= Seq::<ExprV>::empty());
            }
            let mut out: Vec<Expr> = Vec::new();
            let mut k: usize = 0;
            while k < items.len()
                invariant
                    k <= items@.len(),
                    iv == dump_views(items@),
                    iv.len() == items@.len(),
                    forall|j: int| 0 <= j < items@.len() ==> #[trigger] iv[j] == dump_view(items@[j]),
                    keywords_spec(iv) == match keywords_spec(iv.subrange(k as int, iv.len() as int)) {
                        Some(rest) => Some(exprs_view(out@) + rest),
                        None => None,
                    },
                decreases items@.len() - k,
            {
                let ghost sub = iv.subrange(k as int, iv.len() as int);
                proof {
                    assert(sub[0] == iv[k as int]);
                    assert(sub.subrange(1, sub.len() as int) =~= iv.subrange(k + 1, iv.len() as int));
                }
                let x = match &items[k] {
                    Dump::Record(_, kf) => expr_field(kf, "value")?,
                    _ => return None,
                };
                let ghost before = exprs_view(out@);
                out.push(x);
                proof {
                    lemma_views_push();
                    match keywords_spec(iv.subrange(k + 1, iv.len() as int)) {
                        Some(rest) => {
                            assert(before + (seq![expr_view(x)] + rest) =~= exprs_view(out@) + rest);
                        },
                        None => {},
                    }
                }
                k = k + 1;
            }
            proof {
                assert(iv.subrange(k as int, iv.len() as int) =~= Seq::<DumpV>::empty());
                assert(exprs_view(out@) + Seq::<ExprV>::empty() =~= exprs_view(out@));
            }
            Some(out)
        },
        _ => None,
    }
}

/// The generators of a comprehension.
#[verifier::loop_isolation(false)]
pub(crate) fn comps_field(fields: &Vec<(String, Dump)>) -> (r: Option<Vec<Comprehension>>)
    ensures
        match comps_field_spec(field_views(fields@)) {
            Some(v) => r matches Some(x) && comps_view(x@) == v,
            None => r is None,
        },
    decreases fields, 1int,
{
    let i = field_index(fields, "generators")?;
    proof {
        lemma_field_views_index(fields@);
    }
    match &fields[i].1 {
        Dump::List(items) => {
            let ghost iv = dump_views(items@);
            proof {
                lemma_dump_views_index(items@);
                lemma_views_empty();
                assert(iv.subrange(0, iv.len() as int) =~= iv);
                assert(comps_view(Seq::<Comprehension>::empty()) + Seq::<ComprehensionV>::empty() =~= Seq::<ComprehensionV>::empty());
            }
            let mut out: Vec<Comprehension> = Vec::new();
            let mut k: usize = 0;
            while k < items.len()
                invariant
                    k <= items@.len(),
                    iv == dump_views(items@),
                    iv.len() == items@.len(),
                    forall|j: int| 0 <= j < items@.len() ==> #[trigger] iv[j] == dump_view(items@[j]),
                    comps_spec(iv) == match comps_spec(iv.subrange(k as int, iv.len() as int)) {
                        Some(rest) => Some(comps_view(out@) + rest),
                        None => None,
                    },
                decreases items@.len() - k,
            {
                let ghost sub = iv.subrange(k as int, iv.len() as int);
                proof {
                    assert(sub[0] == iv[k as int]);
                    assert(sub.subrange(1, sub.len() as int) =~= iv.subrange(k + 1, iv.len() as int));
                }
                let x = match &items[k] {
                    Dump::Record(_, cf) => {
                        let iter = expr_field(cf, "iter")?;
                        let ifs = expr_list_field(cf, "ifs")?;
                        Comprehension { iter, ifs }
                    },
                    _ => return None,
                };
                let ghost before = comps_view(out@);
                out.push(x);
                proof {
                    lemma_views_push();
                    match comps_spec(iv.subrange(k + 1, iv.len() as int)) {
                        Some(rest) => {
                            assert(before + (seq![comp_view(x)] + rest) =~= comps_view(out@) + rest);
                        },
                        None => {},
                    }
                }
                k = k + 1;
            }
            proof {
                assert(iv.subrange(k as int, iv.len() as int) =~= Seq::<DumpV>::empty());
                assert(comps_view(out@) + Seq::<ComprehensionV>::empty() =~= comps_view(out@));
            }
            Some(out)
        },
        _ => None,
    }
}

/// Names of the parameters in a list of `ArgWithDefault` records.
#[verifier::loop_isolation(false)]
pub(crate) fn param_name_list(items: &Vec<Dump>) -> (r: Option<Vec<String>>)
    ensures
        match param_names_spec(dump_views(items@)) {
            Some(v) => r matches Some(x) && names_view(x@) == v,
            None => r is None,
        },
{
    let ghost iv = dump_views(items@);
    proof {
        lemma_dump_views_index(items@);
        lemma_views_empty();
        assert(iv.subrange(0, iv.len() as int) =~= iv);
        assert(names_view(Seq::<String>::empty()) + Seq::<Seq<char>>::empty() =~= Seq::<Seq<char>>::empty());
    }
    let mut out: Vec<String> = Vec::new();
    let mut k: usize = 0;
    while k < items.len()
        invariant
            k <= items@.len(),
            iv == dump_views(items@),
            iv.len() == items@.len(),
            forall|j: int| 0 <= j < items@.len() ==> #[trigger] iv[j] == dump_view(items@[j]),
            param_names_spec(iv) == match param_names_spec(iv.subrange(k as int, iv.len() as int)) {
                Some(rest) => Some(names_view(out@) + rest),
                None => None,
            },
        decreases items@.len() - k,
    {
        let ghost sub = iv.subrange(k as int, iv.len() as int);
        proof {
            assert(sub[0] == iv[k as int]);
            assert(sub.subrange(1, sub.len() as int) =~= iv.subrange(k + 1, iv.len() as int));
        }
        let x = match &items[k] {
            Dump::Record(_, af) => {
                let j = field_index(af, "def")?;
                proof {
                    lemma_field_views_index(af@);
                }
                match &af[j].1 {
                    Dump::Record(_, def) => ident_field(def, "arg")?,
                    _ => return None,
                }
            },
            _ => return None,
        };
        let ghost before = names_view(out@);
        out.push(x);
        proof {
            lemma_views_push();
            match param_names_spec(iv.subrange(k + 1, iv.len() as int)) {
                Some(rest) => {
                    assert(before + (seq![x@] + rest) =~= names_view(out@) + rest);
                },
                None => {},
            }
        }
        k = k + 1;
    }
    proof {
        assert(iv.subrange(k as int, iv.len() as int) =~= Seq::<DumpV>::empty());
        assert(names_view(out@) + Seq::<Seq<char>>::empty() =~= names_view(out@));
    }
    Some(out)
}

/// Parameters with their defaults.
#[verifier::loop_isolation(false)]
pub(crate) fn params_list(items: &Vec<Dump>) -> (r: Option<Vec<Param>>)
    ensures
        match params_spec(dump_views(items@)) {
            Some(v) => r matches Some(x) && params_view(x@) == v,
            None => r is None,
        },
{
    let ghost iv = dump_views(items@);
    proof {
        lemma_dump_views_index(items@);
        lemma_views_empty();
        assert(iv.subrange(0, iv.len() as int) =~= iv);
        assert(params_view(Seq::<Param>::empty()) + Seq::<ParamV>::empty() =~= Seq::<ParamV>::empty());
    }
    let mut out: Vec<Param> = Vec::new();
    let mut k: usize = 0;
    while k < items.len()
        invariant
            k <= items@.len(),
            iv == dump_views(items@),
            iv.len() == items@.len(),
            forall|j: int| 0 <= j < items@.len() ==> #[trigger] iv[j] == dump_view(items@[j]),
            params_spec(iv) == match params_spec(iv.subrange(k as int, iv.len() as int)) {
                Some(rest) => Some(params_view(out@) + rest),
                None => None,
            },
        decreases items@.len() - k,
    {
        let ghost sub = iv.subrange(k as int, iv.len() as int);
        proof {
            assert(sub[0] == iv[k as int]);
            assert(sub.subrange(1, sub.len() as int) =~= iv.subrange(k + 1, iv.len() as int));
        }
        let x = match &items[k] {
            Dump::Record(_, af) => {
                let j = field_index(af, "def")?;
                proof {
                    lemma_field_views_index(af@);
                }
                let pname = match &af[j].1 {
                    Dump::Record(_, def) => ident_field(def, "arg")?,
                    _ => return None,
                };
                let default = opt_expr_field(af, "default")?;
                Param { name: pname, default }
            },
            _ => return None,
        };
        let ghost before = params_view(out@);
        out.push(x);
        proof {
            lemma_views_push();
            match params_spec(iv.subrange(k + 1, iv.len() as int)) {
                Some(rest) => {
                    assert(before + (seq![param_view(x)] + rest) =~= params_view(out@) + rest);
                },
                None => {},
            }
        }
        k = k + 1;
    }
    proof {
        assert(iv.subrange(k as int, iv.len() as int) =~= Seq::<DumpV>::empty());
        assert(params_view(out@) + Seq::<ParamV>::empty() =~= params_view(out@));
    }
    Some(out)
}

/// A list of patterns in field `name`.
#[verifier::loop_isolation(false)]
pub(crate) fn patterns_field(fields: &Vec<(String, Dump)>, name: &str) -> (r: Option<Vec<Pattern>>)
    ensures
        match patterns_field_spec(field_views(fields@), name@) {
            Some(v) => r matches Some(x) && patterns_view(x@) == v,
            None => r is None,
        },
    decreases fields, 1int,
{
    let i = field_index(fields, name)?;
    proof {
        lemma_field_views_index(fields@);
    }
    match &fields[i].1 {
        Dump::List(items) => {
            let ghost iv = dump_views(items@);
            proof {
                lemma_dump_views_index(items@);
                lemma_views_empty();
                assert(iv.subrange(0, iv.len() as int) =~= iv);
                assert(patterns_view(Seq::<Pattern>::empty()) + Seq::<PatternV>::empty() =~= Seq::<PatternV>::empty());
            }
            let mut out: Vec<Pattern> = Vec::new();
            let mut k: usize = 0;
            while k < items.len()
                invariant
                    k <= items@.len(),
                    iv == dump_views(items@),
                    iv.len() == items@.len(),
                    forall|j: int| 0 <= j < items@.len() ==> #[trigger] iv[j] == dump_view(items@[j]),
                    patterns_spec(iv) == match patterns_spec(iv.subrange(k as int, iv.len() as int)) {
                        Some(rest) => Some(patterns_view(out@) + rest),
                        None => None,
                    },
                decreases items@.len() - k,
            {
                let ghost sub = iv.subrange(k as int, iv.len() as int);
                proof {
                    assert(sub[0] == iv[k as int]);
                    assert(sub.subrange(1, sub.len() as int) =~= iv.subrange(k + 1, iv.len() as int));
                }
                let x = lower_pattern(&items[k])?;
                let ghost before = patterns_view(out@);
                out.push(x);
                proof {
                    lemma_views_push();
                    match patterns_spec(iv.subrange(k + 1, iv.len() as int)) {
                        Some(rest) => {
                            assert(before + (seq![pattern_view(x)] + rest) =~= patterns_view(out@) + rest);
                        },
                        None => {},
                    }
                }
                k = k + 1;
            }
            proof {
                assert(iv.subrange(k as int, iv.len() as int) =~= Seq::<DumpV>::empty());
                assert(patterns_view(out@) + Seq::<PatternV>::empty() =~= patterns_view(out@));
            }
            Some(out)
        },
        _ => None,
    }
}

/// `with` items.
#[verifier::loop_isolation(false)]
pub(crate) fn with_items_list(items: &Vec<Dump>) -> (r: Option<Vec<WithItem>>)
    ensures
        match with_items_spec(dump_views(items@)) {
            Some(v) => r matches Some(x) && with_items_view(x@) == v,
            None => r is None,
        },
{
    let ghost iv = dump_views(items@);
    proof {
        lemma_dump_views_index(items@);
        lemma_views_empty();
        assert(iv.subrange(0, iv.len() as int) =~= iv);
        assert(with_items_view(Seq::<WithItem>::empty()) + Seq::<WithItemV>::empty() =~= Seq::<WithItemV>::empty());
    }
    let mut out: Vec<WithItem> = Vec::new();
    let mut k: usize = 0;
    while k < items.len()
        invariant
            k <= items@.len(),
            iv == dump_views(items@),
            iv.len() == items@.len(),
            forall|j: int| 0 <= j < items@.len() ==> #[trigger] iv[j] == dump_view(items@[j]),
            with_items_spec(iv) == match with_items_spec(iv.subrange(k as int, iv.len() as int)) {
                Some(rest) => Some(with_items_view(out@) + rest),
                None => None,
            },
        decreases items@.len() - k,
    {
        let ghost sub = iv.subrange(k as int, iv.len() as int);
        proof {
            assert(sub[0] == iv[k as int]);
            assert(sub.subrange(1, sub.len() as int) =~= iv.subrange(k + 1, iv.len() as int));
        }
        let x = match &items[k] {
            Dump::Record(_, wf) => {
                let context_expr = expr_field(wf, "context_expr")?;
                let optional_vars = opt_expr_field(wf, "optional_vars")?;
                WithItem { context_expr, optional_vars }
            },
            _ => return None,
        };
        let ghost before = with_items_view(out@);
        out.push(x);
        proof {
            lemma_views_push();
            match with_items_spec(iv.subrange(k + 1, iv.len() as int)) {
                Some(rest) => {
                    assert(before + (seq![with_item_view(x)] + rest) =~= with_items_view(out@) + rest);
                },
                None => {},
            }
        }
        k = k + 1;
    }
    proof {
        assert(iv.subrange(k as int, iv.len() as int) =~= Seq::<DumpV>::empty());
        assert(with_items_view(out@) + Seq::<WithItemV>::empty() =~= with_items_view(out@));
    }
    Some(out)
}

/// Lowers an expression.
#[verifier::loop_isolation(false)]
pub fn lower_expr(d: &Dump) -> (r: Option<Expr>)
    ensures
        match expr_spec(d@) {
            Some(v) => r matches Some(x) && expr_view(x) == v,
            None => r is None,
        },
    decreases d, 0int,
{
    let (variant, fields) = node_fields(d)?;
    let (start, end) = range_of(fields)?;
    let kind = lower_expr_kind(variant, fields)?;
    Some(Expr { start, end, kind })
}

/// The kind of an expression node.
#[verifier::loop_isolation(false)]
pub(crate) fn lower_expr_kind(variant: &String, fields: &Vec<(String, Dump)>) -> (r: Option<ExprKind>)
    ensures
        match expr_kind_spec(variant@, field_views(fields@)) {
            Some(v) => r matches Some(x) && kind_view(x) == v,
            None => r is None,
        },
    decreases fields, 2int,
{
    let kind = if is(variant, "BoolOp") {
        ExprKind::BoolOp { values: expr_list_field(fields, "values")? }
    } else if is(variant, "NamedExpr") {
        let target = expr_field(fields, "target")?;
        let value = expr_field(fields, "value")?;
        ExprKind::NamedExpr { target: Box::new(target), value: Box::new(value) }
    } else if is(variant, "BinOp") {
        let left = expr_field(fields, "left")?;
        let right = expr_field(fields, "right")?;
        ExprKind::BinOp { left: Box::new(left), right: Box::new(right) }
    } else if is(variant, "UnaryOp") {
        ExprKind::UnaryOp { operand: Box::new(expr_field(fields, "operand")?) }
    } else if is(variant, "Lambda") {
        let params = lambda_params(fields)?;
        let body = expr_field(fields, "body")?;
        ExprKind::Lambda { params, body: Box::new(body) }
    } else if is(variant, "IfExp") {
        let test = expr_field(fields, "test")?;
        let body = expr_field(fields, "body")?;
        let orelse = expr_field(fields, "orelse")?;
        ExprKind::IfExp { test: Box::new(test), body: Box::new(body), orelse: Box::new(orelse) }
    } else if is(variant, "Dict") {
        let keys = opt_expr_list_field(fields, "keys")?;
        let values = expr_list_field(fields, "values")?;
        ExprKind::Dict { keys, values }
    } else if is(variant, "Set") {
        ExprKind::SetExpr { elts: expr_list_field(fields, "elts")? }
    } else if is(variant, "ListComp") {
        let elt = expr_field(fields, "elt")?;
        let generators = comps_field(fields)?;
        ExprKind::ListComp { elt: Box::new(elt), generators }
    } else if is(variant, "SetComp") {
        let elt = expr_field(fields, "elt")?;
        let generators = comps_field(fields)?;
        ExprKind::SetComp { elt: Box::new(elt), generators }
    } else if is(variant, "GeneratorExp") {
        let elt = expr_field(fields, "elt")?;
        let generators = comps_field(fields)?;
        ExprKind::GeneratorExp { elt: Box::new(elt), generators }
    } else if is(variant, "DictComp") {
        let key = expr_field(fields, "key")?;
        let value = expr_field(fields, "value")?;
        let generators = comps_field(fields)?;
        ExprKind::DictComp { key: Box::new(key), value: Box::new(value), generators }
    } else if is(variant, "Await") {
        ExprKind::Await { value: Box::new(expr_field(fields, "value")?) }
    } else if is(variant, "Yield") {
        ExprKind::Yield { value: boxed_expr(opt_expr_field(fields, "value")?) }
    } else if is(variant, "YieldFrom") {
        ExprKind::YieldFrom { value: Box::new(expr_field(fields, "value")?) }
    } else if is(variant, "Compare") {
        let left = expr_field(fields, "left")?;
        let ops = compare_ops_field(fields, "ops")?;
        let comparators = expr_list_field(fields, "comparators")?;
        ExprKind::Compare { left: Box::new(left), ops, comparators }
    } else if is(variant, "Call") {
        let func = expr_field(fields, "func")?;
        let args = expr_list_field(fields, "args")?;
        let keywords = keyword_values(fields)?;
        ExprKind::Call { func: Box::new(func), args, keywords }
    } else if is(variant, "FormattedValue") {
        ExprKind::FormattedValue { value: Box::new(expr_field(fields, "value")?) }
    } else if is(variant, "Constant") {
        let i = field_index(fields, "value")?;
        proof {
            lemma_field_views_index(fields@);
        }
        ExprKind::Constant { value: lower_constant(&fields[i].1)? }
    } else if is(variant, "Attribute") {
        let value = expr_field(fields, "value")?;
        let attr = ident_field(fields, "attr")?;
        ExprKind::Attribute { value: Box::new(value), attr }
    } else if is(variant, "Subscript") {
        let value = expr_field(fields, "value")?;
        let slice = expr_field(fields, "slice")?;
        ExprKind::Subscript { value: Box::new(value), slice: Box::new(slice) }
    } else if is(variant, "Starred") {
        ExprKind::Starred { value: Box::new(expr_field(fields, "value")?) }
    } else if is(variant, "Name") {
        ExprKind::Name { id: ident_field(fields, "id")? }
    } else if is(variant, "List") {
        ExprKind::List { elts: expr_list_field(fields, "elts")? }
    } else if is(variant, "Tuple") {
        ExprKind::Tuple { elts: expr_list_field(fields, "elts")? }
    } else if is(variant, "Slice") {
        let lower = opt_expr_field(fields, "lower")?;
        let upper = opt_expr_field(fields, "upper")?;
        let step = opt_expr_field(fields, "step")?;
        ExprKind::Slice { lower: boxed_expr(lower), upper: boxed_expr(upper), step: boxed_expr(step) }
    } else {
        ExprKind::Other
    };
    Some(kind)
}

/// An optional expression, boxed.
pub(crate) fn boxed_expr(o: Option<Expr>) -> (r: Option<Box<Expr>>)
    ensures
        opt_box_view(r) == boxed(opt_expr_view(o)),
{
    match o {
        Some(e) => Some(Box::new(e)),
        None => None,
    }
}

/// An expression in field `name`.
#[verifier::loop_isolation(false)]
pub(crate) fn expr_field(fields: &Vec<(String, Dump)>, name: &str) -> (r: Option<Expr>)
    ensures
        match expr_field_spec(field_views(fields@), name@) {
            Some(v) => r matches Some(x) && expr_view(x) == v,
            None => r is None,
        },
    decreases fields, 1int,
{
    let i = field_index(fields, name)?;
    proof {
        lemma_field_views_index(fields@);
    }
    lower_expr(&fields[i].1)
}

/// An optional expression: `None` or `Some(expr)`.
#[verifier::loop_isolation(false)]
pub(crate) fn opt_expr_of(d: &Dump) -> (r: Option<Option<Expr>>)
    ensures
        match opt_expr_spec(d@) {
            Some(o) => r matches Some(x) && opt_expr_view(x) == o,
            None => r is None,
        },
    decreases d, 0int,
{
    match d {
        Dump::Atom(a) => {
            if is(a, "None") {
                Some(None)
            } else {
                None
            }
        },
        Dump::Call(n, args) => {
            proof {
                lemma_dump_views_index(args@);
            }
            if is(n, "Some") && args.len() == 1 {
                match lower_expr(&args[0]) {
                    Some(e) => Some(Some(e)),
                    None => None,
                }
            } else {
                None
            }
        },
        _ => None,
    }
}

/// An optional expression in field `name`.
#[verifier::loop_isolation(false)]
pub(crate) fn opt_expr_field(fields: &Vec<(String, Dump)>, name: &str) -> (r: Option<Option<Expr>>)
    ensures
        match opt_expr_field_spec(field_views(fields@), name@) {
            Some(o) => r matches Some(x) && opt_expr_view(x) == o,
            None => r is None,
        },
    decreases fields, 1int,
{
    let i = field_index(fields, name)?;
    proof {
        lemma_field_views_index(fields@);
    }
    opt_expr_of(&fields[i].1)
}

/// The names of a lambda's positional-or-keyword parameters.
pub(crate) fn lambda_params(fields: &Vec<(String, Dump)>) -> (r: Option<Vec<String>>)
    ensures
        match lambda_params_spec(field_views(fields@)) {
            Some(v) => r matches Some(x) && names_view(x@) == v,
            None => r is None,
        },
{
    let i = field_index(fields, "args")?;
    proof {
        lemma_field_views_index(fields@);
    }
    match &fields[i].1 {
        Dump::Record(_, afields) => {
            let j = field_index(afields, "args")?;
            proof {
                lemma_field_views_index(afields@);
            }
            match &afields[j].1 {
                Dump::List(items) => param_name_list(items),
                _ => None,
            }
        },
        _ => None,
    }
}

/// A list of parameters in field `name`.
pub(crate) fn params_field(afields: &Vec<(String, Dump)>, name: &str) -> (r: Option<Vec<Param>>)
    ensures
        match params_field_spec(field_views(afields@), name@) {
            Some(v) => r matches Some(x) && params_view(x@) == v,
            None => r is None,
        },
{
    let i = field_index(afields, name)?;
    proof {
        lemma_field_views_index(afields@);
    }
    match &afields[i].1 {
        Dump::List(items) => params_list(items),
        _ => None,
    }
}

/// A function's parameter list.
pub(crate) fn arguments_field(fields: &Vec<(String, Dump)>) -> (r: Option<Arguments>)
    ensures
        match arguments_spec(field_views(fields@)) {
            Some(v) => r matches Some(x) && arguments_view(x) == v,
            None => r is None,
        },
{
    let i = field_index(fields, "args")?;
    proof {
        lemma_field_views_index(fields@);
    }
    match &fields[i].1 {
        Dump::Record(_, af) => {
            let posonlyargs = params_field(af, "posonlyargs")?;
            let args = params_field(af, "args")?;
            let kwonlyargs = params_field(af, "kwonlyargs")?;
            let has_vararg = field_is_some(af, "vararg")?;
            let has_kwarg = field_is_some(af, "kwarg")?;
            Some(Arguments { posonlyargs, args, kwonlyargs, has_vararg, has_kwarg })
        },
        _ => None,
    }
}

/// Lowers a `match` pattern.
#[verifier::loop_isolation(false)]
pub(crate) fn lower_pattern(d: &Dump) -> (r: Option<Pattern>)
    ensures
        match pattern_spec(d@) {
            Some(v) => r matches Some(x) && pattern_view(x) == v,
            None => r is None,
        },
    decreases d, 0int,
{
    let (variant, fields) = node_fields(d)?;
    if is(variant, "MatchValue") {
        Some(Pattern::Value { value: expr_field(fields, "value")? })
    } else if is(variant, "MatchSequence") {
        Some(Pattern::Sequence { patterns: patterns_field(fields, "patterns")? })
    } else if is(variant, "MatchMapping") {
        Some(Pattern::Mapping { keys: expr_list_field(fields, "keys")? })
    } else if is(variant, "MatchClass") {
        let cls = expr_field(fields, "cls")?;
        let kwd_patterns = patterns_field(fields, "kwd_patterns")?;
        Some(Pattern::Class { cls, kwd_patterns })
    } else {
        Some(Pattern::Other)
    }
}

/// The items of a `with` statement.
pub(crate) fn with_items_field(fields: &Vec<(String, Dump)>) -> (r: Option<Vec<WithItem>>)
    ensures
        match with_items_field_spec(field_views(fields@)) {
            Some(v) => r matches Some(x) && with_items_view(x@) == v,
            None => r is None,
        },
{
    let i = field_index(fields, "items")?;
    proof {
        lemma_field_views_index(fields@);
    }
    match &fields[i].1 {
        Dump::List(items) => with_items_list(items),
        _ => None,
    }
}

} // verus!
