//! Lowering rendered statements and modules into the syntax tree. The
//! `*_spec` functions state what a rendered node lowers to; each lowering
//! function computes exactly that.
use vstd::prelude::*;
use super::ast::{
    aliases_view, alias_view, arguments_view, case_view, cases_view, comp_view, comps_view, constant_view, expr_view,
    exprs_view, handler_view, handlers_view, kind_view, lemma_views_empty, lemma_views_push, module_view, names_view,
    opt_box_view, opt_expr_view, opt_exprs_view, param_view, params_view, pattern_view, patterns_view, stmt_kind_view,
    stmt_view, stmts_view, with_item_view, with_items_view, Alias, AliasV, Arguments, ArgumentsV, CmpOp, Comprehension,
    ComprehensionV, Constant, ConstantV, ExceptHandler, ExceptHandlerV, Expr, ExprKind, ExprKindV, ExprV, MatchCase,
    MatchCaseV, Module, Param, ParamV, Pattern, PatternV, Stmt, StmtKind, StmtKindV, StmtV, WithItem, WithItemV,
};
use super::dump::{dump_view, dump_views, field_views, lemma_dump_views_index, lemma_field_views_index, Dump, DumpV};
use super::fields::{FieldsV, field_from, field_pos, field_value, all_digits, digits_value, number_spec, dotdot_from, range_spec, ident_spec, ident_field_spec, opt_ident_field_spec, field_is_some_spec, compare_op_spec, compare_ops_spec, compare_ops_field_spec, node_spec, constant_spec, float_text, is, field_index, range_of, ident_field, opt_ident_field, field_is_some, compare_ops_field, lower_constant, node_fields};
use super::lower_expr::{boxed, expr_spec, expr_field_spec, opt_expr_spec, opt_expr_field_spec, exprs_spec, expr_list_field_spec, opt_exprs_spec, opt_expr_list_field_spec, keywords_spec, keywords_field_spec, comps_spec, comps_field_spec, param_names_spec, lambda_params_spec, expr_kind_spec, params_spec, params_field_spec, arguments_spec, pattern_spec, pattern_kind_spec, patterns_spec, patterns_field_spec, with_items_spec, with_items_field_spec, expr_list_field, opt_expr_list_field, lower_expr, expr_field, opt_expr_field, arguments_field, lower_pattern, with_items_field};

verus! {

/// Imported names.
pub open spec fn aliases_spec(items: Seq<DumpV>) -> Option<Seq<AliasV>>
    decreases items.len(),
{
    if items.len() == 0 {
        Some(Seq::empty())
    } else {
        match items[0] {
            DumpV::Record(_, af) => match (
                range_spec(af),
                ident_field_spec(af, "name"@),
                aliases_spec(items.subrange(1, items.len() as int)),
            ) {
                (Some((s, e)), Some(name), Some(rest)) => Some(
                    seq![AliasV { start: s as int, end: e as int, name }] + rest,
                ),
                _ => None,
            },
            _ => None,
        }
    }
}

/// The imported names of an import statement.
pub open spec fn aliases_field_spec(fs: FieldsV) -> Option<Seq<AliasV>> {
    match field_value(fs, "names"@) {
        Some(DumpV::List(items)) => aliases_spec(items),
        _ => None,
    }
}

/// A statement node.
pub open spec fn stmt_spec(d: DumpV) -> Option<StmtV>
    decreases d, 0int,
{
    match d {
        DumpV::Call(variant, args) => if args.len() == 1 {
            match args[0] {
                DumpV::Record(_, fs) => match range_spec(fs) {
                    Some((start, end)) => match stmt_kind_spec(variant, fs) {
                        Some(kind) => Some(StmtV { start: start as int, end: end as int, kind }),
                        None => None,
                    },
                    None => None,
                },
                _ => None,
            }
        } else {
            None
        },
        _ => None,
    }
}

/// A list of statements.
pub open spec fn stmts_spec(items: Seq<DumpV>) -> Option<Seq<StmtV>>
    decreases items, 0int,
{
    if items.len() == 0 {
        Some(Seq::empty())
    } else {
        match (stmt_spec(items[0]), stmts_spec(items.subrange(1, items.len() as int))) {
            (Some(x), Some(rest)) => Some(seq![x] + rest),
            _ => None,
        }
    }
}

/// A list of statements in field `name`.
pub open spec fn stmt_list_field_spec(fs: FieldsV, name: Seq<char>) -> Option<Seq<StmtV>>
    decreases fs, 1int,
{
    match field_pos(fs, name) {
        Some(i) => if 0 <= i < fs.len() {
            match fs[i].1 {
                DumpV::List(items) => stmts_spec(items),
                _ => None,
            }
        } else {
            None
        },
        None => None,
    }
}

/// The cases of a `match` statement.
pub open spec fn cases_spec(items: Seq<DumpV>) -> Option<Seq<MatchCaseV>>
    decreases items, 0int,
{
    if items.len() == 0 {
        Some(Seq::empty())
    } else {
        match items[0] {
            DumpV::Record(_, cf) => match field_pos(cf, "pattern"@) {
                Some(j) => if 0 <= j < cf.len() {
                    match (
                        pattern_spec(cf[j].1),
                        opt_expr_field_spec(cf, "guard"@),
                        stmt_list_field_spec(cf, "body"@),
                        cases_spec(items.subrange(1, items.len() as int)),
                    ) {
                        (Some(pattern), Some(guard), Some(body), Some(rest)) => Some(
                            seq![MatchCaseV { pattern, guard, body }] + rest,
                        ),
                        _ => None,
                    }
                } else {
                    None
                },
                None => None,
            },
            _ => None,
        }
    }
}

/// The cases in a node's `cases` field.
pub open spec fn cases_field_spec(fs: FieldsV) -> Option<Seq<MatchCaseV>>
    decreases fs, 1int,
{
    match field_pos(fs, "cases"@) {
        Some(i) => if 0 <= i < fs.len() {
            match fs[i].1 {
                DumpV::List(items) => cases_spec(items),
                _ => None,
            }
        } else {
            None
        },
        None => None,
    }
}

/// `except` clauses.
pub open spec fn handlers_spec(items: Seq<DumpV>) -> Option<Seq<ExceptHandlerV>>
    decreases items, 0int,
{
    if items.len() == 0 {
        Some(Seq::empty())
    } else {
        match items[0] {
            DumpV::Call(_, args) => if args.len() == 1 {
                match args[0] {
                    DumpV::Record(_, hf) => match (
                        range_spec(hf),
                        opt_expr_field_spec(hf, "type_"@),
                        stmt_list_field_spec(hf, "body"@),
                        handlers_spec(items.subrange(1, items.len() as int)),
                    ) {
                        (Some((s, e)), Some(type_), Some(body), Some(rest)) => Some(
                            seq![ExceptHandlerV { start: s as int, end: e as int, type_, body }] + rest,
                        ),
                        _ => None,
                    },
                    _ => None,
                }
            } else {
                None
            },
            _ => None,
        }
    }
}

/// The handlers in a node's `handlers` field.
pub open spec fn handlers_field_spec(fs: FieldsV) -> Option<Seq<ExceptHandlerV>>
    decreases fs, 1int,
{
    match field_pos(fs, "handlers"@) {
        Some(i) => if 0 <= i < fs.len() {
            match fs[i].1 {
                DumpV::List(items) => handlers_spec(items),
                _ => None,
            }
        } else {
            None
        },
        None => None,
    }
}

/// The kind of a statement node with constructor `variant` and fields `fs`.
pub open spec fn stmt_kind_spec(variant: Seq<char>, fs: FieldsV) -> Option<StmtKindV>
    decreases fs, 2int,
{
    if variant == "FunctionDef"@ || variant == "AsyncFunctionDef"@ {
        match (
            ident_field_spec(fs, "name"@),
            arguments_spec(fs),
            stmt_list_field_spec(fs, "body"@),
            expr_list_field_spec(fs, "decorator_list"@),
        ) {
            (Some(name), Some(args), Some(body), Some(decorators)) => Some(
                StmtKindV::FunctionDef { is_async: variant == "AsyncFunctionDef"@, name, args, body, decorators },
            ),
            _ => None,
        }
    } else if variant == "ClassDef"@ {
        match (ident_field_spec(fs, "name"@), stmt_list_field_spec(fs, "body"@), expr_list_field_spec(fs, "decorator_list"@)) {
            (Some(name), Some(body), Some(decorators)) => Some(StmtKindV::ClassDef { name, body, decorators }),
            _ => None,
        }
    } else if variant == "Return"@ {
        match opt_expr_field_spec(fs, "value"@) {
            Some(value) => Some(StmtKindV::Return { value }),
            None => None,
        }
    } else if variant == "Delete"@ {
        match expr_list_field_spec(fs, "targets"@) {
            Some(targets) => Some(StmtKindV::Delete { targets }),
            None => None,
        }
    } else if variant == "Assign"@ {
        match (expr_list_field_spec(fs, "targets"@), expr_field_spec(fs, "value"@)) {
            (Some(targets), Some(value)) => Some(StmtKindV::Assign { targets, value }),
            _ => None,
        }
    } else if variant == "AugAssign"@ {
        match (field_value(fs, "op"@), expr_field_spec(fs, "target"@), expr_field_spec(fs, "value"@)) {
            (Some(op), Some(target), Some(value)) => Some(
                StmtKindV::AugAssign { target, op_add: op == DumpV::Atom("Add"@), value },
            ),
            _ => None,
        }
    } else if variant == "AnnAssign"@ {
        match (expr_field_spec(fs, "target"@), expr_field_spec(fs, "annotation"@), opt_expr_field_spec(fs, "value"@)) {
            (Some(target), Some(annotation), Some(value)) => Some(StmtKindV::AnnAssign { target, annotation, value }),
            _ => None,
        }
    } else if variant == "For"@ || variant == "AsyncFor"@ {
        match (expr_field_spec(fs, "iter"@), stmt_list_field_spec(fs, "body"@), stmt_list_field_spec(fs, "orelse"@)) {
            (Some(iter), Some(body), Some(orelse)) => Some(
                StmtKindV::For { is_async: variant == "AsyncFor"@, iter, body, orelse },
            ),
            _ => None,
        }
    } else if variant == "While"@ {
        match (expr_field_spec(fs, "test"@), stmt_list_field_spec(fs, "body"@), stmt_list_field_spec(fs, "orelse"@)) {
            (Some(test), Some(body), Some(orelse)) => Some(StmtKindV::While { test, body, orelse }),
            _ => None,
        }
    } else if variant == "If"@ {
        match (expr_field_spec(fs, "test"@), stmt_list_field_spec(fs, "body"@), stmt_list_field_spec(fs, "orelse"@)) {
            (Some(test), Some(body), Some(orelse)) => Some(StmtKindV::If { test, body, orelse }),
            _ => None,
        }
    } else if variant == "With"@ || variant == "AsyncWith"@ {
        match (with_items_field_spec(fs), stmt_list_field_spec(fs, "body"@)) {
            (Some(items), Some(body)) => Some(StmtKindV::With { is_async: variant == "AsyncWith"@, items, body }),
            _ => None,
        }
    } else if variant == "Match"@ {
        match (expr_field_spec(fs, "subject"@), cases_field_spec(fs)) {
            (Some(subject), Some(cases)) => Some(StmtKindV::Match { subject, cases }),
            _ => None,
        }
    } else if variant == "Raise"@ {
        match (opt_expr_field_spec(fs, "exc"@), opt_expr_field_spec(fs, "cause"@)) {
            (Some(exc), Some(cause)) => Some(StmtKindV::Raise { exc, cause }),
            _ => None,
        }
    } else if variant == "Try"@ || variant == "TryStar"@ {
        match (
            stmt_list_field_spec(fs, "body"@),
            handlers_field_spec(fs),
            stmt_list_field_spec(fs, "orelse"@),
            stmt_list_field_spec(fs, "finalbody"@),
        ) {
            (Some(body), Some(handlers), Some(orelse), Some(finalbody)) => Some(
                StmtKindV::Try { is_star: variant == "TryStar"@, body, handlers, orelse, finalbody },
            ),
            _ => None,
        }
    } else if variant == "Assert"@ {
        match (expr_field_spec(fs, "test"@), opt_expr_field_spec(fs, "msg"@)) {
            (Some(test), Some(msg)) => Some(StmtKindV::Assert { test, msg }),
            _ => None,
        }
    } else if variant == "Import"@ {
        match aliases_field_spec(fs) {
            Some(names) => Some(StmtKindV::Import { names }),
            None => None,
        }
    } else if variant == "ImportFrom"@ {
        match (opt_ident_field_spec(fs, "module"@), aliases_field_spec(fs)) {
            (Some(module), Some(names)) => Some(StmtKindV::ImportFrom { module, names }),
            _ => None,
        }
    } else if variant == "Expr"@ {
        match expr_field_spec(fs, "value"@) {
            Some(value) => Some(StmtKindV::Expr { value }),
            None => None,
        }
    } else if variant == "Pass"@ {
        Some(StmtKindV::Pass)
    } else {
        Some(StmtKindV::Other)
    }
}

/// A module: `Module(ModModule { body: [...] })` or the interactive form;
/// other modes have no statements.
pub open spec fn module_spec(d: DumpV) -> Option<Seq<StmtV>> {
    match node_spec(d) {
        Some((variant, fs)) => if variant == "Module"@ || variant == "Interactive"@ {
            match field_value(fs, "body"@) {
                Some(DumpV::List(items)) => stmts_spec(items),
                _ => None,
            }
        } else {
            Some(Seq::empty())
        },
        None => None,
    }
}

/// A list of statements.
#[verifier::loop_isolation(false)]
pub(crate) fn lower_stmt_list(items: &Vec<Dump>) -> (r: Option<Vec<Stmt>>)
    ensures
        match stmts_spec(dump_views(items@)) {
            Some(v) => r matches Some(x) && stmts_view(x@) == v,
            None => r is None,
        },
    decreases items, 0int,
{
    let ghost iv = dump_views(items@);
    proof {
        lemma_dump_views_index(items@);
        lemma_views_empty();
        assert(iv.subrange(0, iv.len() as int) =~= iv);
        assert(stmts_view(Seq::<Stmt>::empty()) + Seq::<StmtV>::empty() =~= Seq::<StmtV>::empty());
    }
    let mut out: Vec<Stmt> = Vec::new();
    let mut k: usize = 0;
    while k < items.len()
        invariant
            k <= items@.len(),
            iv == dump_views(items@),
            iv.len() == items@.len(),
            forall|j: int| 0 <= j < items@.len() ==> #[trigger] iv[j] == dump_view(items@[j]),
            stmts_spec(iv) == match stmts_spec(iv.subrange(k as int, iv.len() as int)) {
                Some(rest) => Some(stmts_view(out@) + rest),
                None => None,
            },
        decreases items@.len() - k,
    {
        let ghost sub = iv.subrange(k as int, iv.len() as int);
        proof {
            assert(sub[0] == iv[k as int]);
            assert(sub.subrange(1, sub.len() as int) =~= iv.subrange(k + 1, iv.len() as int));
        }
        let x = lower_stmt(&items[k])?;
        let ghost before = stmts_view(out@);
        out.push(x);
        proof {
            lemma_views_push();
            match stmts_spec(iv.subrange(k + 1, iv.len() as int)) {
                Some(rest) => {
                    assert(before + (seq![stmt_view(x)] + rest) =~= stmts_view(out@) + rest);
                },
                None => {},
            }
        }
        k = k + 1;
    }
    proof {
        assert(iv.subrange(k as int, iv.len() as int) =~= Seq::<DumpV>::empty());
        assert(stmts_view(out@) + Seq::<StmtV>::empty() =~= stmts_view(out@));
    }
    Some(out)
}

/// The cases of a `match` statement.
#[verifier::loop_isolation(false)]
pub(crate) fn cases_field(fields: &Vec<(String, Dump)>) -> (r: Option<Vec<MatchCase>>)
    ensures
        match cases_field_spec(field_views(fields@)) {
            Some(v) => r matches Some(x) && cases_view(x@) == v,
            None => r is None,
        },
    decreases fields, 1int,
{
    let i = field_index(fields, "cases")?;
    proof {
        lemma_field_views_index(fields@);
    }
    match &fields[i].1 {
        Dump::List(items) => {
            let ghost iv = dump_views(items@);
            proof {
                lemma_dump_views_index(items@);
                lemma_views_empty();
                assert(iv.subrange(0, iv.len() as int) =~= iv);
                assert(cases_view(Seq::<MatchCase>::empty()) + Seq::<MatchCaseV>::empty() =~= Seq::<MatchCaseV>::empty());
            }
            let mut out: Vec<MatchCase> = Vec::new();
            let mut k: usize = 0;
            while k < items.len()
                invariant
                    k <= items@.len(),
                    iv == dump_views(items@),
                    iv.len() == items@.len(),
                    forall|j: int| 0 <= j < items@.len() ==> #[trigger] iv[j] == dump_view(items@[j]),
                    cases_spec(iv) == match cases_spec(iv.subrange(k as int, iv.len() as int)) {
                        Some(rest) => Some(cases_view(out@) + rest),
                        None => None,
                    },
                decreases items@.len() - k,
            {
                let ghost sub = iv.subrange(k as int, iv.len() as int);
                proof {
                    assert(sub[0] == iv[k as int]);
                    assert(sub.subrange(1, sub.len() as int) =~= iv.subrange(k + 1, iv.len() as int));
                }
                let x = match &items[k] {
                    Dump::Record(_, cf) => {
                        let j = field_index(cf, "pattern")?;
                        proof {
                            lemma_field_views_index(cf@);
                        }
                        let pattern = lower_pattern(&cf[j].1)?;
                        let guard = opt_expr_field(cf, "guard")?;
                        let body = stmt_list_field(cf, "body")?;
                        MatchCase { pattern, guard, body }
                    },
                    _ => return None,
                };
                let ghost before = cases_view(out@);
                out.push(x);
                proof {
                    lemma_views_push();
                    match cases_spec(iv.subrange(k + 1, iv.len() as int)) {
                        Some(rest) => {
                            assert(before + (seq![case_view(x)] + rest) =~= cases_view(out@) + rest);
                        },
                        None => {},
                    }
                }
                k = k + 1;
            }
            proof {
                assert(iv.subrange(k as int, iv.len() as int) =~= Seq::<DumpV>::empty());
                assert(cases_view(out@) + Seq::<MatchCaseV>::empty() =~= cases_view(out@));
            }
            Some(out)
        },
        _ => None,
    }
}

/// The `except` clauses of a `try` statement.
#[verifier::loop_isolation(false)]
pub(crate) fn handlers_field(fields: &Vec<(String, Dump)>) -> (r: Option<Vec<ExceptHandler>>)
    ensures
        match handlers_field_spec(field_views(fields@)) {
            Some(v) => r matches Some(x) && handlers_view(x@) == v,
            None => r is None,
        },
    decreases fields, 1int,
{
    let i = field_index(fields, "handlers")?;
    proof {
        lemma_field_views_index(fields@);
    }
    match &fields[i].1 {
        Dump::List(items) => {
            let ghost iv = dump_views(items@);
            proof {
                lemma_dump_views_index(items@);
                lemma_views_empty();
                assert(iv.subrange(0, iv.len() as int) =~= iv);
                assert(handlers_view(Seq::<ExceptHandler>::empty()) + Seq::<ExceptHandlerV>::empty() =~= Seq::<ExceptHandlerV>::empty());
            }
            let mut out: Vec<ExceptHandler> = Vec::new();
            let mut k: usize = 0;
            while k < items.len()
                invariant
                    k <= items@.len(),
                    iv == dump_views(items@),
                    iv.len() == items@.len(),
                    forall|j: int| 0 <= j < items@.len() ==> #[trigger] iv[j] == dump_view(items@[j]),
                    handlers_spec(iv) == match handlers_spec(iv.subrange(k as int, iv.len() as int)) {
                        Some(rest) => Some(handlers_view(out@) + rest),
                        None => None,
                    },
                decreases items@.len() - k,
            {
                let ghost sub = iv.subrange(k as int, iv.len() as int);
                proof {
                    assert(sub[0] == iv[k as int]);
                    assert(sub.subrange(1, sub.len() as int) =~= iv.subrange(k + 1, iv.len() as int));
                }
                let (_, hf) = node_fields(&items[k])?;
                let (start, end) = range_of(hf)?;
                let type_ = opt_expr_field(hf, "type_")?;
                let body = stmt_list_field(hf, "body")?;
                let x = ExceptHandler { start, end, type_, body };
                let ghost before = handlers_view(out@);
                out.push(x);
                proof {
                    lemma_views_push();
                    match handlers_spec(iv.subrange(k + 1, iv.len() as int)) {
                        Some(rest) => {
                            assert(before + (seq![handler_view(x)] + rest) =~= handlers_view(out@) + rest);
                        },
                        None => {},
                    }
                }
                k = k + 1;
            }
            proof {
                assert(iv.subrange(k as int, iv.len() as int) =~= Seq::<DumpV>::empty());
                assert(handlers_view(out@) + Seq::<ExceptHandlerV>::empty() =~= handlers_view(out@));
            }
            Some(out)
        },
        _ => None,
    }
}

/// Imported names.
#[verifier::loop_isolation(false)]
pub(crate) fn aliases_list(items: &Vec<Dump>) -> (r: Option<Vec<Alias>>)
    ensures
        match aliases_spec(dump_views(items@)) {
            Some(v) => r matches Some(x) && aliases_view(x@) == v,
            None => r is None,
        },
{
    let ghost iv = dump_views(items@);
    proof {
        lemma_dump_views_index(items@);
        lemma_views_empty();
        assert(iv.subrange(0, iv.len() as int) =~= iv);
        assert(aliases_view(Seq::<Alias>::empty()) + Seq::<AliasV>::empty() =~= Seq::<AliasV>::empty());
    }
    let mut out: Vec<Alias> = Vec::new();
    let mut k: usize = 0;
    while k < items.len()
        invariant
            k <= items@.len(),
            iv == dump_views(items@),
            iv.len() == items@.len(),
            forall|j: int| 0 <= j < items@.len() ==> #[trigger] iv[j] == dump_view(items@[j]),
            aliases_spec(iv) == match aliases_spec(iv.subrange(k as int, iv.len() as int)) {
                Some(rest) => Some(aliases_view(out@) + rest),
                None => None,
            },
        decreases items@.len() - k,
    {
        let ghost sub = iv.subrange(k as int, iv.len() as int);
        proof {
            assert(sub[0] == iv[k as int]);
            assert(sub.subrange(1, sub.len() as int) =~= iv.subrange(k + 1, iv.len() as int));
        }
        let x = match &items[k] {
            Dump::Record(_, af) => {
                let (start, end) = range_of(af)?;
                let name = ident_field(af, "name")?;
                Alias { start, end, name }
            },
            _ => return None,
        };
        let ghost before = aliases_view(out@);
        out.push(x);
        proof {
            lemma_views_push();
            match aliases_spec(iv.subrange(k + 1, iv.len() as int)) {
                Some(rest) => {
                    assert(before + (seq![alias_view(x)] + rest) =~= aliases_view(out@) + rest);
                },
                None => {},
            }
        }
        k = k + 1;
    }
    proof {
        assert(iv.subrange(k as int, iv.len() as int) =~= Seq::<DumpV>::empty());
        assert(aliases_view(out@) + Seq::<AliasV>::empty() =~= aliases_view(out@));
    }
    Some(out)
}

/// Lowers a statement.
#[verifier::loop_isolation(false)]
pub fn lower_stmt(d: &Dump) -> (r: Option<Stmt>)
    ensures
        match stmt_spec(d@) {
            Some(v) => r matches Some(x) && stmt_view(x) == v,
            None => r is None,
        },
    decreases d, 0int,
{
    let (variant, fields) = node_fields(d)?;
    let (start, end) = range_of(fields)?;
    let kind = lower_stmt_kind(variant, fields)?;
    Some(Stmt { start, end, kind })
}

/// A list of statements in field `name`.
#[verifier::loop_isolation(false)]
pub(crate) fn stmt_list_field(fields: &Vec<(String, Dump)>, name: &str) -> (r: Option<Vec<Stmt>>)
    ensures
        match stmt_list_field_spec(field_views(fields@), name@) {
            Some(v) => r matches Some(x) && stmts_view(x@) == v,
            None => r is None,
        },
    decreases fields, 1int,
{
    let i = field_index(fields, name)?;
    proof {
        lemma_field_views_index(fields@);
    }
    match &fields[i].1 {
        Dump::List(items) => lower_stmt_list(items),
        _ => None,
    }
}

/// The imported names of an import statement.
pub(crate) fn aliases_field(fields: &Vec<(String, Dump)>) -> (r: Option<Vec<Alias>>)
    ensures
        match aliases_field_spec(field_views(fields@)) {
            Some(v) => r matches Some(x) && aliases_view(x@) == v,
            None => r is None,
        },
{
    let i = field_index(fields, "names")?;
    proof {
        lemma_field_views_index(fields@);
    }
    match &fields[i].1 {
        Dump::List(items) => aliases_list(items),
        _ => None,
    }
}

/// The kind of a statement node.
#[verifier::loop_isolation(false)]
pub(crate) fn lower_stmt_kind(variant: &String, fields: &Vec<(String, Dump)>) -> (r: Option<StmtKind>)
    ensures
        match stmt_kind_spec(variant@, field_views(fields@)) {
            Some(v) => r matches Some(x) && stmt_kind_view(x) == v,
            None => r is None,
        },
    decreases fields, 2int,
{
    let kind = if is(variant, "FunctionDef") || is(variant, "AsyncFunctionDef") {
        let name = ident_field(fields, "name")?;
        let args = arguments_field(fields)?;
        let body = stmt_list_field(fields, "body")?;
        let decorators = expr_list_field(fields, "decorator_list")?;
        StmtKind::FunctionDef { is_async: is(variant, "AsyncFunctionDef"), name, args, body, decorators }
    } else if is(variant, "ClassDef") {
        let name = ident_field(fields, "name")?;
        let body = stmt_list_field(fields, "body")?;
        let decorators = expr_list_field(fields, "decorator_list")?;
        StmtKind::ClassDef { name, body, decorators }
    } else if is(variant, "Return") {
        StmtKind::Return { value: opt_expr_field(fields, "value")? }
    } else if is(variant, "Delete") {
        StmtKind::Delete { targets: expr_list_field(fields, "targets")? }
    } else if is(variant, "Assign") {
        let targets = expr_list_field(fields, "targets")?;
        let value = expr_field(fields, "value")?;
        StmtKind::Assign { targets, value }
    } else if is(variant, "AugAssign") {
        let i = field_index(fields, "op")?;
        proof {
            lemma_field_views_index(fields@);
            reveal_strlit("Add");
        }
        let op_add = match &fields[i].1 {
            Dump::Atom(a) => is(a, "Add"),
            _ => false,
        };
        let target = expr_field(fields, "target")?;
        let value = expr_field(fields, "value")?;
        StmtKind::AugAssign { target, op_add, value }
    } else if is(variant, "AnnAssign") {
        let target = expr_field(fields, "target")?;
        let annotation = expr_field(fields, "annotation")?;
        let value = opt_expr_field(fields, "value")?;
        StmtKind::AnnAssign { target, annotation, value }
    } else if is(variant, "For") || is(variant, "AsyncFor") {
        let iter = expr_field(fields, "iter")?;
        let body = stmt_list_field(fields, "body")?;
        let orelse = stmt_list_field(fields, "orelse")?;
        StmtKind::For { is_async: is(variant, "AsyncFor"), iter, body, orelse }
    } else if is(variant, "While") {
        let test = expr_field(fields, "test")?;
        let body = stmt_list_field(fields, "body")?;
        let orelse = stmt_list_field(fields, "orelse")?;
        StmtKind::While { test, body, orelse }
    } else if is(variant, "If") {
        let test = expr_field(fields, "test")?;
        let body = stmt_list_field(fields, "body")?;
        let orelse = stmt_list_field(fields, "orelse")?;
        StmtKind::If { test, body, orelse }
    } else if is(variant, "With") || is(variant, "AsyncWith") {
        let items = with_items_field(fields)?;
        let body = stmt_list_field(fields, "body")?;
        StmtKind::With { is_async: is(variant, "AsyncWith"), items, body }
    } else if is(variant, "Match") {
        let subject = expr_field(fields, "subject")?;
        let cases = cases_field(fields)?;
        StmtKind::Match { subject, cases }
    } else if is(variant, "Raise") {
        let exc = opt_expr_field(fields, "exc")?;
        let cause = opt_expr_field(fields, "cause")?;
        StmtKind::Raise { exc, cause }
    } else if is(variant, "Try") || is(variant, "TryStar") {
        let body = stmt_list_field(fields, "body")?;
        let handlers = handlers_field(fields)?;
        let orelse = stmt_list_field(fields, "orelse")?;
        let finalbody = stmt_list_field(fields, "finalbody")?;
        StmtKind::Try { is_star: is(variant, "TryStar"), body, handlers, orelse, finalbody }
    } else if is(variant, "Assert") {
        let test = expr_field(fields, "test")?;
        let msg = opt_expr_field(fields, "msg")?;
        StmtKind::Assert { test, msg }
    } else if is(variant, "Import") {
        StmtKind::Import { names: aliases_field(fields)? }
    } else if is(variant, "ImportFrom") {
        let module = opt_ident_field(fields, "module")?;
        let names = aliases_field(fields)?;
        StmtKind::ImportFrom { module, names }
    } else if is(variant, "Expr") {
        StmtKind::Expr { value: expr_field(fields, "value")? }
    } else if is(variant, "Pass") {
        StmtKind::Pass
    } else {
        StmtKind::Other
    };
    Some(kind)
}

/// Lowers a module: `Module(ModModule { body: [...] })` or the interactive
/// form; other modes give an empty body.
pub fn lower_module(d: &Dump) -> (r: Option<Module>)
    ensures
        match module_spec(d@) {
            Some(v) => r matches Some(m) && module_view(m) == v,
            None => r is None,
        },
{
    let (variant, fields) = node_fields(d)?;
    if is(variant, "Module") || is(variant, "Interactive") {
        let i = field_index(fields, "body")?;
        proof {
            lemma_field_views_index(fields@);
        }
        match &fields[i].1 {
            Dump::List(items) => Some(Module { body: lower_stmt_list(items)? }),
            _ => None,
        }
    } else {
        proof {
            lemma_views_empty();
        }
        Some(Module { body: Vec::new() })
    }
}

} // verus!
