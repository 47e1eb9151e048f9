//! Running a statement-level detector over every statement of a module.
use vstd::prelude::*;
use super::flow_rules::{
    ambiguous_none_hits, detect_ambiguous_none_return, detect_duplicate_branch_body, detect_mixed_return_style,
    detect_query_in_loop, detect_repeated_try_except, duplicate_branch_hits, mixed_return_hits, query_in_loop_hits,
    repeated_try_hits,
};
use super::hit::{append_hits, hit, hit_views, hv, push_hit, Anchor, Hit, HitView};
use super::stmt_rules::{
    assert_hits, collapsible_if_hits, dataclass_hits, dead_branch_hits, defensive_suffix_hits, detect_assert,
    detect_collapsible_if, detect_dataclass_without_behavior, detect_defensive_naming_suffix,
    detect_empty_wrapper_function, detect_extractable_condition, detect_generated_dead_branch,
    detect_generic_exception_message, detect_handler_rule, detect_identity_passthrough, detect_loop_filter_none,
    detect_manual_string_join_in_loop, detect_mutable_default, detect_reject_none_guard,
    detect_short_variable_names, detect_unnecessary_else_after_return, else_after_return_hits,
    empty_wrapper_hits, extractable_condition_hits, generic_exception_hits, identity_passthrough_hits,
    loop_filter_none_hits, mutable_default_hits, reject_none_hits, short_variable_hits, string_join_hits,
    try_handler_hits, HandlerRule,
};
use super::syntax::{is_mutable_expr, is_mutable_literal};
use crate::analysis::fold::{flat_map, lemma_flat_map_step, lemma_take_ends};
use crate::analysis::model::src_bytes;
use crate::analysis::walk::{derefs, module_statements, module_stmts};
use crate::parser::ast::{Module, Stmt, StmtKind};
use crate::parser::python::ParsedFile;

verus! {

/// The statement-level detectors.
#[derive(Clone, Copy, PartialEq, Eq, Structural)]
pub enum StmtRule {
    Assert,
    DeadBranch,
    DataclassWithoutBehavior,
    ShortVariableName,
    DefensiveNamingSuffix,
    ElseAfterReturn,
    CollapsibleIf,
    ExtractableCondition,
    RejectNoneGuard,
    IdentityPassthrough,
    EmptyWrapperFunction,
    MutableDefaultArgument,
    ManualStringJoin,
    LoopFilterNone,
    GenericExceptionMessage,
    Handler(HandlerRule),
    RepeatedTryExcept,
    AmbiguousNoneReturn,
    MixedReturnStyle,
    QueryInLoop,
    DuplicateBranchBody,
}

/// The findings of a statement-level detector on one statement.
pub open spec fn stmt_rule_hits(rule: StmtRule, src: Seq<u8>, s: Stmt) -> Seq<HitView> {
    match rule {
        StmtRule::Assert => assert_hits(s),
        StmtRule::DeadBranch => dead_branch_hits(s),
        StmtRule::DataclassWithoutBehavior => dataclass_hits(s),
        StmtRule::ShortVariableName => short_variable_hits(s),
        StmtRule::DefensiveNamingSuffix => defensive_suffix_hits(s),
        StmtRule::ElseAfterReturn => else_after_return_hits(s),
        StmtRule::CollapsibleIf => collapsible_if_hits(s),
        StmtRule::ExtractableCondition => extractable_condition_hits(s),
        StmtRule::RejectNoneGuard => reject_none_hits(s),
        StmtRule::IdentityPassthrough => identity_passthrough_hits(s),
        StmtRule::EmptyWrapperFunction => empty_wrapper_hits(s),
        StmtRule::MutableDefaultArgument => mutable_default_hits(s),
        StmtRule::ManualStringJoin => string_join_hits(s),
        StmtRule::LoopFilterNone => loop_filter_none_hits(s),
        StmtRule::GenericExceptionMessage => generic_exception_hits(s),
        StmtRule::Handler(h) => try_handler_hits(h, s),
        StmtRule::RepeatedTryExcept => repeated_try_hits(s),
        StmtRule::AmbiguousNoneReturn => ambiguous_none_hits(s),
        StmtRule::MixedReturnStyle => mixed_return_hits(s),
        StmtRule::QueryInLoop => query_in_loop_hits(s),
        StmtRule::DuplicateBranchBody => duplicate_branch_hits(src, s),
    }
}

/// The findings of a statement-level detector on one statement.
pub fn run_stmt_rule(rule: StmtRule, src: &[u8], s: &Stmt) -> (r: Vec<Hit>)
    ensures
        hit_views(r@) == stmt_rule_hits(rule, src@, *s),
{
    match rule {
        StmtRule::Assert => detect_assert(s),
        StmtRule::DeadBranch => detect_generated_dead_branch(s),
        StmtRule::DataclassWithoutBehavior => detect_dataclass_without_behavior(s),
        StmtRule::ShortVariableName => detect_short_variable_names(s),
        StmtRule::DefensiveNamingSuffix => detect_defensive_naming_suffix(s),
        StmtRule::ElseAfterReturn => detect_unnecessary_else_after_return(s),
        StmtRule::CollapsibleIf => detect_collapsible_if(s),
        StmtRule::ExtractableCondition => detect_extractable_condition(s),
        StmtRule::RejectNoneGuard => detect_reject_none_guard(s),
        StmtRule::IdentityPassthrough => detect_identity_passthrough(s),
        StmtRule::EmptyWrapperFunction => detect_empty_wrapper_function(s),
        StmtRule::MutableDefaultArgument => detect_mutable_default(s),
        StmtRule::ManualStringJoin => detect_manual_string_join_in_loop(s),
        StmtRule::LoopFilterNone => detect_loop_filter_none(s),
        StmtRule::GenericExceptionMessage => detect_generic_exception_message(s),
        StmtRule::Handler(h) => detect_handler_rule(h, s),
        StmtRule::RepeatedTryExcept => detect_repeated_try_except(s),
        StmtRule::AmbiguousNoneReturn => detect_ambiguous_none_return(s),
        StmtRule::MixedReturnStyle => detect_mixed_return_style(s),
        StmtRule::QueryInLoop => detect_query_in_loop(s),
        StmtRule::DuplicateBranchBody => detect_duplicate_branch_body(src, s),
    }
}

/// [`stmt_rule_hits`] as a function of the statement.
pub open spec fn stmt_rule_fn(rule: StmtRule, src: Seq<u8>) -> spec_fn(Stmt) -> Seq<HitView> {
    |s: Stmt| stmt_rule_hits(rule, src, s)
}

/// The findings of a statement-level detector over every statement of a
/// module, in statement pre-order.
pub open spec fn module_stmt_hits(rule: StmtRule, src: Seq<u8>, m: Module) -> Seq<HitView> {
    flat_map(module_stmts(m), stmt_rule_fn(rule, src))
}

/// Runs a statement-level detector over every statement of the file.
pub fn scan_statements(rule: StmtRule, parsed: &ParsedFile) -> (r: Vec<Hit>)
    ensures
        hit_views(r@) == module_stmt_hits(rule, src_bytes(*parsed), parsed.module),
{
    let src = parsed.source.as_str().as_bytes();
    let ghost f = stmt_rule_fn(rule, src@);
    let stmts = module_statements(&parsed.module);
    let ghost ss = derefs(stmts@);
    let mut out: Vec<Hit> = Vec::new();
    let mut i: usize = 0;
    proof {
        lemma_take_ends(ss);
        assert(hit_views(out@) =~= Seq::<HitView>::empty());
    }
    while i < stmts.len()
        invariant
            i <= stmts@.len(),
            ss == derefs(stmts@),
            ss == module_stmts(parsed.module),
            src@ == src_bytes(*parsed),
            f == stmt_rule_fn(rule, src@),
            hit_views(out@) == flat_map(ss.take(i as int), f),
        decreases stmts@.len() - i,
    {
        proof {
            lemma_flat_map_step(ss, i as int, f);
        }
        let more = run_stmt_rule(rule, src, stmts[i]);
        append_hits(&mut out, more);
        i = i + 1;
    }
    proof {
        lemma_take_ends(ss);
    }
    out
}

/// A module-level assignment of a mutable literal.
pub open spec fn global_mutable_hits(s: Stmt) -> Seq<HitView> {
    if s.kind matches StmtKind::Assign { value, .. } && is_mutable_literal(value) {
        seq![hv(Anchor::Offset(s.start), "module-level assignment to mutable literal"@)]
    } else {
        Seq::empty()
    }
}

/// [`global_mutable_hits`] as a function of the statement.
pub open spec fn global_mutable_fn() -> spec_fn(Stmt) -> Seq<HitView> {
    |s: Stmt| global_mutable_hits(s)
}

/// Mutable literals assigned at module level (top-level statements only).
pub open spec fn module_global_mutable_hits(m: Module) -> Seq<HitView> {
    flat_map(m.body@, global_mutable_fn())
}

/// Finds module-level assignments of mutable literals.
pub fn detect_global_mutable_assignment(m: &Module) -> (r: Vec<Hit>)
    ensures
        hit_views(r@) == module_global_mutable_hits(*m),
{
    let ghost f = global_mutable_fn();
    let mut out: Vec<Hit> = Vec::new();
    let mut i: usize = 0;
    proof {
        lemma_take_ends(m.body@);
        assert(hit_views(out@) =~= Seq::<HitView>::empty());
    }
    while i < m.body.len()
        invariant
            i <= m.body@.len(),
            f == global_mutable_fn(),
            hit_views(out@) == flat_map(m.body@.take(i as int), f),
        decreases m.body@.len() - i,
    {
        proof {
            lemma_flat_map_step(m.body@, i as int, f);
        }
        let s = &m.body[i];
        let flag = match &s.kind {
            StmtKind::Assign { value, .. } => is_mutable_expr(value),
            _ => false,
        };
        if flag {
            push_hit(&mut out, hit(Anchor::Offset(s.start), "module-level assignment to mutable literal"));
            proof {
                assert(global_mutable_hits(*s) =~= seq![hv(Anchor::Offset(s.start), "module-level assignment to mutable literal"@)]);
            }
        } else {
            proof {
                assert(hit_views(out@) + global_mutable_hits(*s) =~= hit_views(out@));
            }
        }
        i = i + 1;
    }
    proof {
        lemma_take_ends(m.body@);
    }
    out
}

} // verus!
