//! The stand-alone checks: each has its own id, documentation and default
//! limit, runs one detector, and always reports with its own severity.
use vstd::prelude::*;
use super::catalog::{CatalogCheck, CheckMetadata, CheckView, Detector};
use super::check::Check;
use super::run::{own_severity_issues, CheckContext};
use crate::base::category::Category;
use crate::base::issue::{Issue, IssueView};
use crate::base::severity::Severity;
use crate::config::ConfigView;
use crate::parser::python::ParsedFile;

verus! {

/// The stand-alone checks.
#[derive(Clone, Copy, PartialEq, Eq, Structural)]
pub enum Standalone {
    TooManyBranches,
    TooManyArguments,
    LongFunction,
    NestedConditionals,
    BroadExcept,
    PrintDebugging,
    MutableDefaultArgument,
    GodClass,
    ForbiddenArchitectureImport,
}

/// The model of a stand-alone check with the given identity, documentation
/// and detector.
pub open spec fn standalone_model(
    id: Seq<char>,
    name: Seq<char>,
    category: Category,
    severity: Severity,
    explanation: Seq<char>,
    remediation: Seq<char>,
    detector: Detector,
) -> CheckView {
    CheckView {
        id,
        name,
        category,
        severity,
        safe_fixable: false,
        examples: ""@,
        explanation,
        remediation,
        false_positives: "This rule may trigger on project-specific styles."@,
        tradeoffs: "Disabling this rule may reduce guidance consistency."@,
        detector,
    }
}

/// The model of each stand-alone check.
pub open spec fn standalone_view(k: Standalone) -> CheckView {
    match k {
        Standalone::TooManyBranches => standalone_model(
            "ZR001"@,
            "too-many-branches"@,
            Category::Design,
            Severity::Medium,
            "Functions with many branches are harder to test and reason about. Each branch is a separate path through the function."@,
            "Extract helper functions, use early returns, or replace nested conditionals with polymorphism or lookup tables."@,
            Detector::TooManyBranches(8),
        ),
        Standalone::TooManyArguments => standalone_model(
            "ZR002"@,
            "too-many-arguments"@,
            Category::Readability,
            Severity::Low,
            "Functions with many parameters are difficult to call correctly and often indicate missing abstractions."@,
            "Group related parameters into a dataclass or config object, or split the function."@,
            Detector::TooManyArguments(5),
        ),
        Standalone::LongFunction => standalone_model(
            "ZR003"@,
            "long-function"@,
            Category::Readability,
            Severity::Low,
            "Long functions mix multiple responsibilities and are harder to test and review."@,
            "Extract cohesive blocks into private helpers with descriptive names."@,
            Detector::LongFunction(50),
        ),
        Standalone::NestedConditionals => standalone_model(
            "ZR004"@,
            "nested-conditionals"@,
            Category::Design,
            Severity::Medium,
            "Deeply nested conditionals increase cognitive load and hide the happy path."@,
            "Flatten with guard clauses, extract nested blocks into named functions, or restructure control flow."@,
            Detector::DeepNesting(3),
        ),
        Standalone::BroadExcept => standalone_model(
            "ZR005"@,
            "broad-except"@,
            Category::Warning,
            Severity::High,
            "Catching Exception or using bare except hides bugs and makes failures silent."@,
            "Catch specific exception types and re-raise or log unexpected errors."@,
            Detector::BroadOrBareExcept,
        ),
        Standalone::PrintDebugging => standalone_model(
            "ZR006"@,
            "print-debugging"@,
            Category::Warning,
            Severity::Low,
            "print() calls left in production code are noisy and usually indicate leftover debugging."@,
            "Use structured logging (logging module) or remove the statement before merging. Phase 1 only flags bare `print()` calls, not `builtins.print` or import aliases."@,
            Detector::PrintDebugging,
        ),
        Standalone::MutableDefaultArgument => standalone_model(
            "ZR007"@,
            "mutable-default-argument"@,
            Category::Warning,
            Severity::High,
            "Mutable default arguments are shared across calls and cause subtle state bugs."@,
            "Use None as the default and initialize the mutable value inside the function body."@,
            Detector::MutableDefaultArgument,
        ),
        Standalone::GodClass => standalone_model(
            "ZR008"@,
            "god-class"@,
            Category::Design,
            Severity::Medium,
            "Classes with many methods often violate the single-responsibility principle and become change magnets."@,
            "Split the class by responsibility, extract mixins or collaborators, and group related behavior."@,
            Detector::GodClass(15),
        ),
        Standalone::ForbiddenArchitectureImport => standalone_model(
            "ZR010"@,
            "forbidden-architecture-import"@,
            Category::Architecture,
            Severity::High,
            "Importing across architectural boundaries couples layers and makes refactors risky."@,
            "Introduce interfaces in the domain layer or move shared code to an allowed dependency direction."@,
            Detector::ForbiddenArchitectureImport,
        ),
    }
}

/// A stand-alone check with the given identity, documentation and detector.
fn make(
    id: &'static str,
    name: &'static str,
    category: Category,
    severity: Severity,
    explanation: &'static str,
    remediation: &'static str,
    detector: Detector,
) -> (r: CatalogCheck)
    ensures
        r@ == standalone_model(id@, name@, category, severity, explanation@, remediation@, detector),
{
    CatalogCheck {
        metadata: CheckMetadata { id, name, category, severity, safe_fixable: false, examples: "" },
        explanation,
        remediation,
        false_positives: "This rule may trigger on project-specific styles.",
        tradeoffs: "Disabling this rule may reduce guidance consistency.",
        detector,
    }
}

/// The check that `k` stands for.
pub fn standalone_check(k: Standalone) -> (r: CatalogCheck)
    ensures
        r@ == standalone_view(k),
{
    proof {
        reveal_strlit("");
    }
    match k {
        Standalone::TooManyBranches => make(
            "ZR001",
            "too-many-branches",
            Category::Design,
            Severity::Medium,
            "Functions with many branches are harder to test and reason about. Each branch is a separate path through the function.",
            "Extract helper functions, use early returns, or replace nested conditionals with polymorphism or lookup tables.",
            Detector::TooManyBranches(8),
        ),
        Standalone::TooManyArguments => make(
            "ZR002",
            "too-many-arguments",
            Category::Readability,
            Severity::Low,
            "Functions with many parameters are difficult to call correctly and often indicate missing abstractions.",
            "Group related parameters into a dataclass or config object, or split the function.",
            Detector::TooManyArguments(5),
        ),
        Standalone::LongFunction => make(
            "ZR003",
            "long-function",
            Category::Readability,
            Severity::Low,
            "Long functions mix multiple responsibilities and are harder to test and review.",
            "Extract cohesive blocks into private helpers with descriptive names.",
            Detector::LongFunction(50),
        ),
        Standalone::NestedConditionals => make(
            "ZR004",
            "nested-conditionals",
            Category::Design,
            Severity::Medium,
            "Deeply nested conditionals increase cognitive load and hide the happy path.",
            "Flatten with guard clauses, extract nested blocks into named functions, or restructure control flow.",
            Detector::DeepNesting(3),
        ),
        Standalone::BroadExcept => make(
            "ZR005",
            "broad-except",
            Category::Warning,
            Severity::High,
            "Catching Exception or using bare except hides bugs and makes failures silent.",
            "Catch specific exception types and re-raise or log unexpected errors.",
            Detector::BroadOrBareExcept,
        ),
        Standalone::PrintDebugging => make(
            "ZR006",
            "print-debugging",
            Category::Warning,
            Severity::Low,
            "print() calls left in production code are noisy and usually indicate leftover debugging.",
            "Use structured logging (logging module) or remove the statement before merging. Phase 1 only flags bare `print()` calls, not `builtins.print` or import aliases.",
            Detector::PrintDebugging,
        ),
        Standalone::MutableDefaultArgument => make(
            "ZR007",
            "mutable-default-argument",
            Category::Warning,
            Severity::High,
            "Mutable default arguments are shared across calls and cause subtle state bugs.",
            "Use None as the default and initialize the mutable value inside the function body.",
            Detector::MutableDefaultArgument,
        ),
        Standalone::GodClass => make(
            "ZR008",
            "god-class",
            Category::Design,
            Severity::Medium,
            "Classes with many methods often violate the single-responsibility principle and become change magnets.",
            "Split the class by responsibility, extract mixins or collaborators, and group related behavior.",
            Detector::GodClass(15),
        ),
        Standalone::ForbiddenArchitectureImport => make(
            "ZR010",
            "forbidden-architecture-import",
            Category::Architecture,
            Severity::High,
            "Importing across architectural boundaries couples layers and makes refactors risky.",
            "Introduce interfaces in the domain layer or move shared code to an allowed dependency direction.",
            Detector::ForbiddenArchitectureImport,
        ),
    }
}

/// Functions with more branches than `max_branches` (default 8).
pub struct TooManyBranches;

impl Check for TooManyBranches {
    open spec fn check_view(&self) -> CheckView {
        standalone_view(Standalone::TooManyBranches)
    }

    /// Always with the check's own severity, whatever the configuration sets.
    open spec fn reported(&self, cfg: ConfigView, path: Seq<char>, p: ParsedFile) -> Seq<IssueView> {
        own_severity_issues(standalone_view(Standalone::TooManyBranches), cfg, path, p)
    }

    fn metadata(&self) -> (r: CheckMetadata) {
        standalone_check(Standalone::TooManyBranches).metadata
    }

    fn id(&self) -> (r: &'static str) {
        standalone_check(Standalone::TooManyBranches).metadata.id
    }

    fn name(&self) -> (r: &'static str) {
        standalone_check(Standalone::TooManyBranches).metadata.name
    }

    fn category(&self) -> (r: Category) {
        standalone_check(Standalone::TooManyBranches).metadata.category
    }

    fn severity(&self) -> (r: Severity) {
        standalone_check(Standalone::TooManyBranches).metadata.severity
    }

    fn explanation(&self) -> (r: &'static str) {
        standalone_check(Standalone::TooManyBranches).explanation
    }

    fn remediation(&self) -> (r: &'static str) {
        standalone_check(Standalone::TooManyBranches).remediation
    }

    fn false_positives(&self) -> (r: &'static str) {
        standalone_check(Standalone::TooManyBranches).false_positives
    }

    fn tradeoffs(&self) -> (r: &'static str) {
        standalone_check(Standalone::TooManyBranches).tradeoffs
    }

    fn run(&self, ctx: &CheckContext) -> (r: Vec<Issue>) {
        standalone_check(Standalone::TooManyBranches).run_with_own_severity(ctx)
    }
}

/// Functions with more parameters than `max_arguments` (default 5).
pub struct TooManyArguments;

impl Check for TooManyArguments {
    open spec fn check_view(&self) -> CheckView {
        standalone_view(Standalone::TooManyArguments)
    }

    /// Always with the check's own severity, whatever the configuration sets.
    open spec fn reported(&self, cfg: ConfigView, path: Seq<char>, p: ParsedFile) -> Seq<IssueView> {
        own_severity_issues(standalone_view(Standalone::TooManyArguments), cfg, path, p)
    }

    fn metadata(&self) -> (r: CheckMetadata) {
        standalone_check(Standalone::TooManyArguments).metadata
    }

    fn id(&self) -> (r: &'static str) {
        standalone_check(Standalone::TooManyArguments).metadata.id
    }

    fn name(&self) -> (r: &'static str) {
        standalone_check(Standalone::TooManyArguments).metadata.name
    }

    fn category(&self) -> (r: Category) {
        standalone_check(Standalone::TooManyArguments).metadata.category
    }

    fn severity(&self) -> (r: Severity) {
        standalone_check(Standalone::TooManyArguments).metadata.severity
    }

    fn explanation(&self) -> (r: &'static str) {
        standalone_check(Standalone::TooManyArguments).explanation
    }

    fn remediation(&self) -> (r: &'static str) {
        standalone_check(Standalone::TooManyArguments).remediation
    }

    fn false_positives(&self) -> (r: &'static str) {
        standalone_check(Standalone::TooManyArguments).false_positives
    }

    fn tradeoffs(&self) -> (r: &'static str) {
        standalone_check(Standalone::TooManyArguments).tradeoffs
    }

    fn run(&self, ctx: &CheckContext) -> (r: Vec<Issue>) {
        standalone_check(Standalone::TooManyArguments).run_with_own_severity(ctx)
    }
}

/// Functions spanning more lines than `max_lines` (default 50).
pub struct LongFunction;

impl Check for LongFunction {
    open spec fn check_view(&self) -> CheckView {
        standalone_view(Standalone::LongFunction)
    }

    /// Always with the check's own severity, whatever the configuration sets.
    open spec fn reported(&self, cfg: ConfigView, path: Seq<char>, p: ParsedFile) -> Seq<IssueView> {
        own_severity_issues(standalone_view(Standalone::LongFunction), cfg, path, p)
    }

    fn metadata(&self) -> (r: CheckMetadata) {
        standalone_check(Standalone::LongFunction).metadata
    }

    fn id(&self) -> (r: &'static str) {
        standalone_check(Standalone::LongFunction).metadata.id
    }

    fn name(&self) -> (r: &'static str) {
        standalone_check(Standalone::LongFunction).metadata.name
    }

    fn category(&self) -> (r: Category) {
        standalone_check(Standalone::LongFunction).metadata.category
    }

    fn severity(&self) -> (r: Severity) {
        standalone_check(Standalone::LongFunction).metadata.severity
    }

    fn explanation(&self) -> (r: &'static str) {
        standalone_check(Standalone::LongFunction).explanation
    }

    fn remediation(&self) -> (r: &'static str) {
        standalone_check(Standalone::LongFunction).remediation
    }

    fn false_positives(&self) -> (r: &'static str) {
        standalone_check(Standalone::LongFunction).false_positives
    }

    fn tradeoffs(&self) -> (r: &'static str) {
        standalone_check(Standalone::LongFunction).tradeoffs
    }

    fn run(&self, ctx: &CheckContext) -> (r: Vec<Issue>) {
        standalone_check(Standalone::LongFunction).run_with_own_severity(ctx)
    }
}

/// Conditionals nested deeper than `max_depth` (default 3).
pub struct NestedConditionals;

impl Check for NestedConditionals {
    open spec fn check_view(&self) -> CheckView {
        standalone_view(Standalone::NestedConditionals)
    }

    /// Always with the check's own severity, whatever the configuration sets.
    open spec fn reported(&self, cfg: ConfigView, path: Seq<char>, p: ParsedFile) -> Seq<IssueView> {
        own_severity_issues(standalone_view(Standalone::NestedConditionals), cfg, path, p)
    }

    fn metadata(&self) -> (r: CheckMetadata) {
        standalone_check(Standalone::NestedConditionals).metadata
    }

    fn id(&self) -> (r: &'static str) {
        standalone_check(Standalone::NestedConditionals).metadata.id
    }

    fn name(&self) -> (r: &'static str) {
        standalone_check(Standalone::NestedConditionals).metadata.name
    }

    fn category(&self) -> (r: Category) {
        standalone_check(Standalone::NestedConditionals).metadata.category
    }

    fn severity(&self) -> (r: Severity) {
        standalone_check(Standalone::NestedConditionals).metadata.severity
    }

    fn explanation(&self) -> (r: &'static str) {
        standalone_check(Standalone::NestedConditionals).explanation
    }

    fn remediation(&self) -> (r: &'static str) {
        standalone_check(Standalone::NestedConditionals).remediation
    }

    fn false_positives(&self) -> (r: &'static str) {
        standalone_check(Standalone::NestedConditionals).false_positives
    }

    fn tradeoffs(&self) -> (r: &'static str) {
        standalone_check(Standalone::NestedConditionals).tradeoffs
    }

    fn run(&self, ctx: &CheckContext) -> (r: Vec<Issue>) {
        standalone_check(Standalone::NestedConditionals).run_with_own_severity(ctx)
    }
}

/// Bare handlers and handlers of `Exception` or `BaseException`.
pub struct BroadExcept;

impl Check for BroadExcept {
    open spec fn check_view(&self) -> CheckView {
        standalone_view(Standalone::BroadExcept)
    }

    /// Always with the check's own severity, whatever the configuration sets.
    open spec fn reported(&self, cfg: ConfigView, path: Seq<char>, p: ParsedFile) -> Seq<IssueView> {
        own_severity_issues(standalone_view(Standalone::BroadExcept), cfg, path, p)
    }

    fn metadata(&self) -> (r: CheckMetadata) {
        standalone_check(Standalone::BroadExcept).metadata
    }

    fn id(&self) -> (r: &'static str) {
        standalone_check(Standalone::BroadExcept).metadata.id
    }

    fn name(&self) -> (r: &'static str) {
        standalone_check(Standalone::BroadExcept).metadata.name
    }

    fn category(&self) -> (r: Category) {
        standalone_check(Standalone::BroadExcept).metadata.category
    }

    fn severity(&self) -> (r: Severity) {
        standalone_check(Standalone::BroadExcept).metadata.severity
    }

    fn explanation(&self) -> (r: &'static str) {
        standalone_check(Standalone::BroadExcept).explanation
    }

    fn remediation(&self) -> (r: &'static str) {
        standalone_check(Standalone::BroadExcept).remediation
    }

    fn false_positives(&self) -> (r: &'static str) {
        standalone_check(Standalone::BroadExcept).false_positives
    }

    fn tradeoffs(&self) -> (r: &'static str) {
        standalone_check(Standalone::BroadExcept).tradeoffs
    }

    fn run(&self, ctx: &CheckContext) -> (r: Vec<Issue>) {
        standalone_check(Standalone::BroadExcept).run_with_own_severity(ctx)
    }
}

/// Bare `print(...)` calls.
pub struct PrintDebugging;

impl Check for PrintDebugging {
    open spec fn check_view(&self) -> CheckView {
        standalone_view(Standalone::PrintDebugging)
    }

    /// Always with the check's own severity, whatever the configuration sets.
    open spec fn reported(&self, cfg: ConfigView, path: Seq<char>, p: ParsedFile) -> Seq<IssueView> {
        own_severity_issues(standalone_view(Standalone::PrintDebugging), cfg, path, p)
    }

    fn metadata(&self) -> (r: CheckMetadata) {
        standalone_check(Standalone::PrintDebugging).metadata
    }

    fn id(&self) -> (r: &'static str) {
        standalone_check(Standalone::PrintDebugging).metadata.id
    }

    fn name(&self) -> (r: &'static str) {
        standalone_check(Standalone::PrintDebugging).metadata.name
    }

    fn category(&self) -> (r: Category) {
        standalone_check(Standalone::PrintDebugging).metadata.category
    }

    fn severity(&self) -> (r: Severity) {
        standalone_check(Standalone::PrintDebugging).metadata.severity
    }

    fn explanation(&self) -> (r: &'static str) {
        standalone_check(Standalone::PrintDebugging).explanation
    }

    fn remediation(&self) -> (r: &'static str) {
        standalone_check(Standalone::PrintDebugging).remediation
    }

    fn false_positives(&self) -> (r: &'static str) {
        standalone_check(Standalone::PrintDebugging).false_positives
    }

    fn tradeoffs(&self) -> (r: &'static str) {
        standalone_check(Standalone::PrintDebugging).tradeoffs
    }

    fn run(&self, ctx: &CheckContext) -> (r: Vec<Issue>) {
        standalone_check(Standalone::PrintDebugging).run_with_own_severity(ctx)
    }
}

/// Functions with a list, dict or set default.
pub struct MutableDefaultArgument;

impl Check for MutableDefaultArgument {
    open spec fn check_view(&self) -> CheckView {
        standalone_view(Standalone::MutableDefaultArgument)
    }

    /// Always with the check's own severity, whatever the configuration sets.
    open spec fn reported(&self, cfg: ConfigView, path: Seq<char>, p: ParsedFile) -> Seq<IssueView> {
        own_severity_issues(standalone_view(Standalone::MutableDefaultArgument), cfg, path, p)
    }

    fn metadata(&self) -> (r: CheckMetadata) {
        standalone_check(Standalone::MutableDefaultArgument).metadata
    }

    fn id(&self) -> (r: &'static str) {
        standalone_check(Standalone::MutableDefaultArgument).metadata.id
    }

    fn name(&self) -> (r: &'static str) {
        standalone_check(Standalone::MutableDefaultArgument).metadata.name
    }

    fn category(&self) -> (r: Category) {
        standalone_check(Standalone::MutableDefaultArgument).metadata.category
    }

    fn severity(&self) -> (r: Severity) {
        standalone_check(Standalone::MutableDefaultArgument).metadata.severity
    }

    fn explanation(&self) -> (r: &'static str) {
        standalone_check(Standalone::MutableDefaultArgument).explanation
    }

    fn remediation(&self) -> (r: &'static str) {
        standalone_check(Standalone::MutableDefaultArgument).remediation
    }

    fn false_positives(&self) -> (r: &'static str) {
        standalone_check(Standalone::MutableDefaultArgument).false_positives
    }

    fn tradeoffs(&self) -> (r: &'static str) {
        standalone_check(Standalone::MutableDefaultArgument).tradeoffs
    }

    fn run(&self, ctx: &CheckContext) -> (r: Vec<Issue>) {
        standalone_check(Standalone::MutableDefaultArgument).run_with_own_severity(ctx)
    }
}

/// Classes with more methods than `max_methods` (default 15).
pub struct GodClass;

impl Check for GodClass {
    open spec fn check_view(&self) -> CheckView {
        standalone_view(Standalone::GodClass)
    }

    /// Always with the check's own severity, whatever the configuration sets.
    open spec fn reported(&self, cfg: ConfigView, path: Seq<char>, p: ParsedFile) -> Seq<IssueView> {
        own_severity_issues(standalone_view(Standalone::GodClass), cfg, path, p)
    }

    fn metadata(&self) -> (r: CheckMetadata) {
        standalone_check(Standalone::GodClass).metadata
    }

    fn id(&self) -> (r: &'static str) {
        standalone_check(Standalone::GodClass).metadata.id
    }

    fn name(&self) -> (r: &'static str) {
        standalone_check(Standalone::GodClass).metadata.name
    }

    fn category(&self) -> (r: Category) {
        standalone_check(Standalone::GodClass).metadata.category
    }

    fn severity(&self) -> (r: Severity) {
        standalone_check(Standalone::GodClass).metadata.severity
    }

    fn explanation(&self) -> (r: &'static str) {
        standalone_check(Standalone::GodClass).explanation
    }

    fn remediation(&self) -> (r: &'static str) {
        standalone_check(Standalone::GodClass).remediation
    }

    fn false_positives(&self) -> (r: &'static str) {
        standalone_check(Standalone::GodClass).false_positives
    }

    fn tradeoffs(&self) -> (r: &'static str) {
        standalone_check(Standalone::GodClass).tradeoffs
    }

    fn run(&self, ctx: &CheckContext) -> (r: Vec<Issue>) {
        standalone_check(Standalone::GodClass).run_with_own_severity(ctx)
    }
}

/// Imports that a configured layer rule forbids.
pub struct ForbiddenArchitectureImport;

impl Check for ForbiddenArchitectureImport {
    open spec fn check_view(&self) -> CheckView {
        standalone_view(Standalone::ForbiddenArchitectureImport)
    }

    /// Always with the check's own severity, whatever the configuration sets.
    open spec fn reported(&self, cfg: ConfigView, path: Seq<char>, p: ParsedFile) -> Seq<IssueView> {
        own_severity_issues(standalone_view(Standalone::ForbiddenArchitectureImport), cfg, path, p)
    }

    fn metadata(&self) -> (r: CheckMetadata) {
        standalone_check(Standalone::ForbiddenArchitectureImport).metadata
    }

    fn id(&self) -> (r: &'static str) {
        standalone_check(Standalone::ForbiddenArchitectureImport).metadata.id
    }

    fn name(&self) -> (r: &'static str) {
        standalone_check(Standalone::ForbiddenArchitectureImport).metadata.name
    }

    fn category(&self) -> (r: Category) {
        standalone_check(Standalone::ForbiddenArchitectureImport).metadata.category
    }

    fn severity(&self) -> (r: Severity) {
        standalone_check(Standalone::ForbiddenArchitectureImport).metadata.severity
    }

    fn explanation(&self) -> (r: &'static str) {
        standalone_check(Standalone::ForbiddenArchitectureImport).explanation
    }

    fn remediation(&self) -> (r: &'static str) {
        standalone_check(Standalone::ForbiddenArchitectureImport).remediation
    }

    fn false_positives(&self) -> (r: &'static str) {
        standalone_check(Standalone::ForbiddenArchitectureImport).false_positives
    }

    fn tradeoffs(&self) -> (r: &'static str) {
        standalone_check(Standalone::ForbiddenArchitectureImport).tradeoffs
    }

    fn run(&self, ctx: &CheckContext) -> (r: Vec<Issue>) {
        standalone_check(Standalone::ForbiddenArchitectureImport).run_with_own_severity(ctx)
    }
}

} // verus!
