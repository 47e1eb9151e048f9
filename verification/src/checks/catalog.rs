//! The rule catalog: every check's identity, documentation and detector.
use vstd::prelude::*;
use crate::base::category::Category;
use crate::base::severity::Severity;
use crate::text::str_eq;
use super::text_rules::pattern_views;

verus! {

/// The fixed pattern lists of the text-pattern rules.
#[derive(Debug, Clone, Copy, PartialEq, Eq, Structural)]
pub enum PatternSet {
    /// Narrator wording in docstrings.
    NarratorDocstring,
    /// Boilerplate docstrings.
    BoilerplateDocstring,
    /// Step-by-step comments.
    StepComment,
    /// Narrating comments.
    NarratorComment,
    /// Comments restating the code.
    ObviousComment,
    /// Class naming heuristics.
    ClassNaming,
    /// String constants assigned inline.
    ConstantNaming,
    /// Import statements of either style.
    ImportStyle,
    /// Private and name-mangled definitions.
    PrivatePrefix,
    /// Generic naming words.
    NamingPattern,
    /// Empty collection literals.
    CollectionStyle,
    /// Instance attribute access.
    InstanceVariables,
    /// Reaching into other objects.
    FeatureEnvy,
    /// Imports of the application package.
    CircularImport,
    /// Layer names.
    LayerViolation,
    /// Delegation helpers.
    Indirection,
    /// Narration in comments.
    Narration,
    /// Boilerplate parameter docs.
    ParameterDocs,
    /// Abstraction-heavy names.
    Abstraction,
    /// Catch-all utility names.
    UtilityNames,
}

/// The patterns of a pattern list, in the order they are tried.
pub open spec fn pattern_list(p: PatternSet) -> Seq<Seq<char>> {
    match p {
        PatternSet::NarratorDocstring => seq!["this function"@, "this module"@],
        PatternSet::BoilerplateDocstring => seq!["auto-generated"@, "boilerplate"@],
        PatternSet::StepComment => seq!["step 1"@, "step 2"@, "step 3"@],
        PatternSet::NarratorComment => seq!["now we"@, "then we"@],
        PatternSet::ObviousComment => seq!["increment x"@, "set value"@],
        PatternSet::ClassNaming => seq!["class "@, "_"@],
        PatternSet::ConstantNaming => seq![" = \""@, " = '"@],
        PatternSet::ImportStyle => seq!["import "@, "from "@],
        PatternSet::PrivatePrefix => seq!["def _"@, "def __"@],
        PatternSet::NamingPattern => seq!["manager"@, "service"@, "helper"@],
        PatternSet::CollectionStyle => seq!["[]"@, "{}"@],
        PatternSet::InstanceVariables => seq!["self."@, "self."@, "self."@],
        PatternSet::FeatureEnvy => seq!["other."@, ".get_"@, ".set_"@],
        PatternSet::CircularImport => seq!["import app."@, "from app."@],
        PatternSet::LayerViolation => seq!["infrastructure"@, "domain"@],
        PatternSet::Indirection => seq!["delegate("@, "wrapper("@],
        PatternSet::Narration => seq!["this function does"@, "in this step"@],
        PatternSet::ParameterDocs => seq![":param "@, ":return:"@],
        PatternSet::Abstraction => seq!["Abstract"@, "Base"@, "Interface"@],
        PatternSet::UtilityNames => seq!["utils"@, "helpers"@, "common"@],
    }
}

/// The patterns of a pattern list, in the order they are tried.
pub fn patterns_of(p: PatternSet) -> (r: Vec<&'static str>)
    ensures
        pattern_views(r@) == pattern_list(p),
{
    let mut v: Vec<&'static str> = Vec::new();
    match p {
        PatternSet::NarratorDocstring => {
            v.push("this function");
            v.push("this module");
        },
        PatternSet::BoilerplateDocstring => {
            v.push("auto-generated");
            v.push("boilerplate");
        },
        PatternSet::StepComment => {
            v.push("step 1");
            v.push("step 2");
            v.push("step 3");
        },
        PatternSet::NarratorComment => {
            v.push("now we");
            v.push("then we");
        },
        PatternSet::ObviousComment => {
            v.push("increment x");
            v.push("set value");
        },
        PatternSet::ClassNaming => {
            v.push("class ");
            v.push("_");
        },
        PatternSet::ConstantNaming => {
            v.push(" = \"");
            v.push(" = '");
        },
        PatternSet::ImportStyle => {
            v.push("import ");
            v.push("from ");
        },
        PatternSet::PrivatePrefix => {
            v.push("def _");
            v.push("def __");
        },
        PatternSet::NamingPattern => {
            v.push("manager");
            v.push("service");
            v.push("helper");
        },
        PatternSet::CollectionStyle => {
            v.push("[]");
            v.push("{}");
        },
        PatternSet::InstanceVariables => {
            v.push("self.");
            v.push("self.");
            v.push("self.");
        },
        PatternSet::FeatureEnvy => {
            v.push("other.");
            v.push(".get_");
            v.push(".set_");
        },
        PatternSet::CircularImport => {
            v.push("import app.");
            v.push("from app.");
        },
        PatternSet::LayerViolation => {
            v.push("infrastructure");
            v.push("domain");
        },
        PatternSet::Indirection => {
            v.push("delegate(");
            v.push("wrapper(");
        },
        PatternSet::Narration => {
            v.push("this function does");
            v.push("in this step");
        },
        PatternSet::ParameterDocs => {
            v.push(":param ");
            v.push(":return:");
        },
        PatternSet::Abstraction => {
            v.push("Abstract");
            v.push("Base");
            v.push("Interface");
        },
        PatternSet::UtilityNames => {
            v.push("utils");
            v.push("helpers");
            v.push("common");
        },
    }
    proof {
        assert(pattern_views(v@) =~= pattern_list(p));
    }
    v
}

/// The AST-precise detectors.
#[derive(Debug, Clone, Copy, PartialEq, Eq, Structural)]
pub enum CatalogDetector {
    CommentedOutCode,
    AiPlaceholderInComment,
    GeneratedCommentPattern,
    GeneratedDeadBranch,
    RedundantBooleanComparison,
    DataclassWithoutBehavior,
    GlobalMutableAssignment,
    ExceptHandlerOnlyPass { typed_only: bool },
    MixedStringQuotes,
    ShortVariableName,
    TestAndShouldFunctionMix,
    DefensiveNamingSuffix,
    ServiceNamingExplosion,
    UnnecessaryElseAfterReturn,
    IdentityPassthrough,
    IdentityMap,
    BlanketExceptException,
    SilentFallbackReturnNone,
    GenericExceptionMessage,
    CollapsibleIf,
    DuplicateBranchBody,
    ManualStringJoinInLoop,
    SortThenReverse,
    SortForTopK,
    QueryInLoop,
    SimplifiableIfExpression,
    ExtractableCondition,
    RepeatedTryExcept,
    AmbiguousNoneReturn,
    RejectNoneGuard,
    FilterNonePattern,
    InconsistentFunctionNaming,
    RepeatedLiteral,
    EmptyWrapperFunction,
    MixedReturnStyle,
}

/// What a check looks for. Numbers are default thresholds (overridable per
/// check in the configuration) or fixed limits.
#[derive(Debug, Clone, Copy, PartialEq, Eq, Structural)]
pub enum Detector {
    /// Function bodies spanning more lines than `max_lines` (default given).
    LongFunction(usize),
    /// Functions with more parameters than `max_arguments` (default given).
    TooManyArguments(usize),
    /// Conditional nesting deeper than `max_depth` (default given).
    DeepNesting(usize),
    /// Functions with more branches than `max_branches` (default given).
    TooManyBranches(usize),
    /// Classes with more methods than `max_methods` (default given).
    GodClass(usize),
    /// Classes with more public methods than `max_methods` (default given).
    TooManyPublicMethods(usize),
    /// `and`/`or` chains with more operators than the given limit.
    ComplexBooleanExpression(usize),
    MagicNumber,
    TodoWithoutContext,
    AssertProduction,
    DangerousEvalExec,
    LengthComparison,
    /// Source lines containing one of the patterns (ignoring ASCII case).
    PatternAny(PatternSet),
    /// Comments containing one of the patterns (ignoring ASCII case).
    PatternComment(PatternSet),
    MissingModuleDocstring,
    MissingFunctionDocstring,
    BroadExcept,
    BareExcept,
    /// Handlers that are bare or catch `Exception` / `BaseException`: the
    /// detector of the stand-alone broad-except check (no catalog row uses it).
    BroadOrBareExcept,
    MutableDefaultArgument,
    PrintDebugging,
    ForbiddenArchitectureImport,
    Precise(CatalogDetector),
}

/// The documentation of a rule.
#[derive(Clone, Copy)]
pub struct RuleDocs {
    pub explanation: &'static str,
    pub remediation: &'static str,
    pub false_positives: &'static str,
    pub tradeoffs: &'static str,
    pub examples: &'static str,
}

/// Mathematical model of a rule's documentation.
pub ghost struct DocsView {
    pub explanation: Seq<char>,
    pub remediation: Seq<char>,
    pub false_positives: Seq<char>,
    pub tradeoffs: Seq<char>,
    pub examples: Seq<char>,
}

impl View for RuleDocs {
    type V = DocsView;

    open spec fn view(&self) -> DocsView {
        DocsView {
            explanation: self.explanation@,
            remediation: self.remediation@,
            false_positives: self.false_positives@,
            tradeoffs: self.tradeoffs@,
            examples: self.examples@,
        }
    }
}

/// The documentation shared by rules without their own.
pub open spec fn generic_docs() -> DocsView {
    DocsView { explanation: "This finding highlights maintainability risk in deterministic analysis."@, remediation: "Refactor for clarity and consistency with project conventions."@, false_positives: "Heuristic rule: validate in project context before enforcing strictly."@, tradeoffs: "Stricter thresholds can improve consistency but may increase review churn."@, examples: "See `zerum explain <ID>` for examples."@ }
}

/// The documentation shared by rules without their own.
pub fn generic_rule_docs() -> (r: RuleDocs)
    ensures
        r@ == generic_docs(),
{
    RuleDocs {
        explanation: "This finding highlights maintainability risk in deterministic analysis.",
        remediation: "Refactor for clarity and consistency with project conventions.",
        false_positives: "Heuristic rule: validate in project context before enforcing strictly.",
        tradeoffs: "Stricter thresholds can improve consistency but may increase review churn.",
        examples: "See `zerum explain <ID>` for examples.",
    }
}

/// The rules with documentation of their own, and that documentation.
pub open spec fn docs_spec(id: Seq<char>) -> Option<DocsView> {
    if id == "ZR001"@ {
        Some(DocsView { explanation: "Long functions are harder to test, review, and reuse."@, remediation: "Extract helpers or split responsibilities into smaller functions."@, false_positives: "Generated code, DSL builders, or single-purpose scripts."@, tradeoffs: "Lower thresholds catch sprawl early but may conflict with local cohesion."@, examples: "A 120-line handler doing validation, IO, and formatting in one block."@ })
    } else if id == "ZR003"@ {
        Some(DocsView { explanation: "Deep nesting obscures control flow and error handling paths."@, remediation: "Use guard clauses, early returns, or extract nested blocks into functions."@, false_positives: "State machines or parser combinator style code with intentional depth."@, tradeoffs: "Flattening can scatter related logic if over-applied."@, examples: "Four levels of if/for inside one function."@ })
    } else if id == "ZR005"@ {
        Some(DocsView { explanation: "Very short names reduce readability for maintainers."@, remediation: "Rename to descriptive snake_case identifiers."@, false_positives: "Loop indices, math conventions (x, y), or well-known abbreviations in scope."@, tradeoffs: "Verbose names help newcomers but can clutter tight algorithms."@, examples: "`def f(a, b):` where names do not convey intent."@ })
    } else if id == "ZR010"@ {
        Some(DocsView { explanation: "TODOs without owner or context tend to linger indefinitely."@, remediation: "Add owner, ticket id, or concrete next step; remove stale TODOs."@, false_positives: "Template files or internal scratch scripts."@, tradeoffs: "Strict TODO hygiene improves tracking but adds friction for spikes."@, examples: "`# TODO fix this` with no ticket or owner."@ })
    } else if id == "ZR207"@ {
        Some(DocsView { explanation: "Layer violations let infrastructure concerns leak into domain code."@, remediation: "Move imports behind interfaces or invert dependencies per your architecture rules."@, false_positives: "Monorepos with unconventional folder layouts; adjust `[[checks.ZR207.rules]]`."@, tradeoffs: "Strict layering improves testability but requires upfront boundary design."@, examples: "Domain module importing `app.infrastructure.db`."@ })
    } else if id == "ZR401"@ {
        Some(DocsView { explanation: "Broad except handlers hide bugs and make failures hard to diagnose."@, remediation: "Catch specific exception types and re-raise or wrap with context."@, false_positives: "Top-level CLI entrypoints that must report any failure."@, tradeoffs: "Narrow exceptions improve signal but need maintenance when APIs change."@, examples: "`except Exception:` around business logic."@ })
    } else if id == "ZR402"@ {
        Some(DocsView { explanation: "Empty except blocks swallow errors silently."@, remediation: "Log, handle, or re-raise; remove no-op handlers."@, false_positives: "Intentional suppression with documented rationale in comments."@, tradeoffs: "Explicit handling adds noise if every rare edge case is logged."@, examples: "`except ValueError: pass`"@ })
    } else if id == "ZR403"@ {
        Some(DocsView { explanation: "Bare except catches system exits and keyboard interrupts."@, remediation: "Specify `except Exception` at minimum, preferably concrete types."@, false_positives: "Legacy compatibility shims (still discouraged)."@, tradeoffs: "Bare except is convenient for quick scripts but unsafe in libraries."@, examples: "`except:` with no exception type."@ })
    } else if id == "ZR404"@ {
        Some(DocsView { explanation: "Mutable defaults are shared across calls and cause subtle bugs."@, remediation: "Use `None` as default and assign a new list/dict inside the function."@, false_positives: "Immutable defaults (None, int, str, tuple) are fine."@, tradeoffs: "The None-sentinel pattern is idiomatic but slightly more verbose."@, examples: "`def f(items=[]):`"@ })
    } else if id == "ZR406"@ {
        Some(DocsView { explanation: "Assert statements are stripped when Python runs with `-O`."@, remediation: "Use explicit validation and raise proper exceptions in production paths."@, false_positives: "Test modules and type-checking-only blocks."@, tradeoffs: "Asserts are concise for invariants but unsafe as production guards."@, examples: "`assert user.is_active` in application code."@ })
    } else if id == "ZR407"@ {
        Some(DocsView { explanation: "`eval` and `exec` execute arbitrary code and are major security risks."@, remediation: "Use safe parsers, AST literals, or restricted DSLs instead."@, false_positives: "Controlled REPL tooling with explicit operator approval."@, tradeoffs: "Dynamic execution is flexible but almost never worth the risk in apps."@, examples: "`eval(user_input)`"@ })
    } else if id == "ZR414"@ {
        Some(DocsView { explanation: "Comparing `len(x) > 0` is less idiomatic than truthiness for collections."@, remediation: "Use `if xs:` or `if not xs:` when semantics match."@, false_positives: "Cases where falsy values differ from empty (custom containers)."@, tradeoffs: "Truthiness is shorter; length checks can be clearer for non-bool emptiness."@, examples: "`if len(items) > 0:`"@ })
    } else if id == "ZR501"@ {
        Some(DocsView { explanation: "AI-generated placeholders often ship without real implementation."@, remediation: "Replace placeholders with real logic or remove dead scaffolding."@, false_positives: "Legitimate docs mentioning AI tooling in comments."@, tradeoffs: "Catching slop early reduces review load; patterns may miss subtle cases."@, examples: "`# TODO: AI generated` in production modules."@ })
    } else if id == "ZR504"@ {
        Some(DocsView { explanation: "Generic exception messages make production debugging harder."@, remediation: "Include actionable context while avoiding sensitive data in messages."@, false_positives: "User-facing messages intentionally generic for security."@, tradeoffs: "Detailed errors help engineers but may leak internals if exposed raw."@, examples: "`raise Exception(\"Something went wrong\")`"@ })
    } else {
        None
    }
}

/// The documentation of rule `id`, when it has its own.
pub fn docs_for(id: &str) -> (r: Option<RuleDocs>)
    ensures
        match r {
            Some(d) => docs_spec(id@) == Some(d@),
            None => docs_spec(id@) is None,
        },
{
    if str_eq(id, "ZR001") {
        Some(RuleDocs {
            explanation: "Long functions are harder to test, review, and reuse.",
            remediation: "Extract helpers or split responsibilities into smaller functions.",
            false_positives: "Generated code, DSL builders, or single-purpose scripts.",
            tradeoffs: "Lower thresholds catch sprawl early but may conflict with local cohesion.",
            examples: "A 120-line handler doing validation, IO, and formatting in one block.",
        })
    } else if str_eq(id, "ZR003") {
        Some(RuleDocs {
            explanation: "Deep nesting obscures control flow and error handling paths.",
            remediation: "Use guard clauses, early returns, or extract nested blocks into functions.",
            false_positives: "State machines or parser combinator style code with intentional depth.",
            tradeoffs: "Flattening can scatter related logic if over-applied.",
            examples: "Four levels of if/for inside one function.",
        })
    } else if str_eq(id, "ZR005") {
        Some(RuleDocs {
            explanation: "Very short names reduce readability for maintainers.",
            remediation: "Rename to descriptive snake_case identifiers.",
            false_positives: "Loop indices, math conventions (x, y), or well-known abbreviations in scope.",
            tradeoffs: "Verbose names help newcomers but can clutter tight algorithms.",
            examples: "`def f(a, b):` where names do not convey intent.",
        })
    } else if str_eq(id, "ZR010") {
        Some(RuleDocs {
            explanation: "TODOs without owner or context tend to linger indefinitely.",
            remediation: "Add owner, ticket id, or concrete next step; remove stale TODOs.",
            false_positives: "Template files or internal scratch scripts.",
            tradeoffs: "Strict TODO hygiene improves tracking but adds friction for spikes.",
            examples: "`# TODO fix this` with no ticket or owner.",
        })
    } else if str_eq(id, "ZR207") {
        Some(RuleDocs {
            explanation: "Layer violations let infrastructure concerns leak into domain code.",
            remediation: "Move imports behind interfaces or invert dependencies per your architecture rules.",
            false_positives: "Monorepos with unconventional folder layouts; adjust `[[checks.ZR207.rules]]`.",
            tradeoffs: "Strict layering improves testability but requires upfront boundary design.",
            examples: "Domain module importing `app.infrastructure.db`.",
        })
    } else if str_eq(id, "ZR401") {
        Some(RuleDocs {
            explanation: "Broad except handlers hide bugs and make failures hard to diagnose.",
            remediation: "Catch specific exception types and re-raise or wrap with context.",
            false_positives: "Top-level CLI entrypoints that must report any failure.",
            tradeoffs: "Narrow exceptions improve signal but need maintenance when APIs change.",
            examples: "`except Exception:` around business logic.",
        })
    } else if str_eq(id, "ZR402") {
        Some(RuleDocs {
            explanation: "Empty except blocks swallow errors silently.",
            remediation: "Log, handle, or re-raise; remove no-op handlers.",
            false_positives: "Intentional suppression with documented rationale in comments.",
            tradeoffs: "Explicit handling adds noise if every rare edge case is logged.",
            examples: "`except ValueError: pass`",
        })
    } else if str_eq(id, "ZR403") {
        Some(RuleDocs {
            explanation: "Bare except catches system exits and keyboard interrupts.",
            remediation: "Specify `except Exception` at minimum, preferably concrete types.",
            false_positives: "Legacy compatibility shims (still discouraged).",
            tradeoffs: "Bare except is convenient for quick scripts but unsafe in libraries.",
            examples: "`except:` with no exception type.",
        })
    } else if str_eq(id, "ZR404") {
        Some(RuleDocs {
            explanation: "Mutable defaults are shared across calls and cause subtle bugs.",
            remediation: "Use `None` as default and assign a new list/dict inside the function.",
            false_positives: "Immutable defaults (None, int, str, tuple) are fine.",
            tradeoffs: "The None-sentinel pattern is idiomatic but slightly more verbose.",
            examples: "`def f(items=[]):`",
        })
    } else if str_eq(id, "ZR406") {
        Some(RuleDocs {
            explanation: "Assert statements are stripped when Python runs with `-O`.",
            remediation: "Use explicit validation and raise proper exceptions in production paths.",
            false_positives: "Test modules and type-checking-only blocks.",
            tradeoffs: "Asserts are concise for invariants but unsafe as production guards.",
            examples: "`assert user.is_active` in application code.",
        })
    } else if str_eq(id, "ZR407") {
        Some(RuleDocs {
            explanation: "`eval` and `exec` execute arbitrary code and are major security risks.",
            remediation: "Use safe parsers, AST literals, or restricted DSLs instead.",
            false_positives: "Controlled REPL tooling with explicit operator approval.",
            tradeoffs: "Dynamic execution is flexible but almost never worth the risk in apps.",
            examples: "`eval(user_input)`",
        })
    } else if str_eq(id, "ZR414") {
        Some(RuleDocs {
            explanation: "Comparing `len(x) > 0` is less idiomatic than truthiness for collections.",
            remediation: "Use `if xs:` or `if not xs:` when semantics match.",
            false_positives: "Cases where falsy values differ from empty (custom containers).",
            tradeoffs: "Truthiness is shorter; length checks can be clearer for non-bool emptiness.",
            examples: "`if len(items) > 0:`",
        })
    } else if str_eq(id, "ZR501") {
        Some(RuleDocs {
            explanation: "AI-generated placeholders often ship without real implementation.",
            remediation: "Replace placeholders with real logic or remove dead scaffolding.",
            false_positives: "Legitimate docs mentioning AI tooling in comments.",
            tradeoffs: "Catching slop early reduces review load; patterns may miss subtle cases.",
            examples: "`# TODO: AI generated` in production modules.",
        })
    } else if str_eq(id, "ZR504") {
        Some(RuleDocs {
            explanation: "Generic exception messages make production debugging harder.",
            remediation: "Include actionable context while avoiding sensitive data in messages.",
            false_positives: "User-facing messages intentionally generic for security.",
            tradeoffs: "Detailed errors help engineers but may leak internals if exposed raw.",
            examples: "`raise Exception(\"Something went wrong\")`",
        })
    } else {
        None
    }
}

/// A check's identity.
#[derive(Clone, Copy)]
pub struct CheckMetadata {
    pub id: &'static str,
    pub name: &'static str,
    pub category: Category,
    pub severity: Severity,
    pub safe_fixable: bool,
    pub examples: &'static str,
}

/// One check of the catalog: its identity, its documentation and what it
/// looks for.
#[derive(Clone, Copy)]
pub struct CatalogCheck {
    pub metadata: CheckMetadata,
    pub explanation: &'static str,
    pub remediation: &'static str,
    pub false_positives: &'static str,
    pub tradeoffs: &'static str,
    pub detector: Detector,
}

/// Mathematical model of a catalog check.
pub ghost struct CheckView {
    pub id: Seq<char>,
    pub name: Seq<char>,
    pub category: Category,
    pub severity: Severity,
    pub safe_fixable: bool,
    pub examples: Seq<char>,
    pub explanation: Seq<char>,
    pub remediation: Seq<char>,
    pub false_positives: Seq<char>,
    pub tradeoffs: Seq<char>,
    pub detector: Detector,
}

impl View for CatalogCheck {
    type V = CheckView;

    open spec fn view(&self) -> CheckView {
        CheckView {
            id: self.metadata.id@,
            name: self.metadata.name@,
            category: self.metadata.category,
            severity: self.metadata.severity,
            safe_fixable: self.metadata.safe_fixable,
            examples: self.metadata.examples@,
            explanation: self.explanation@,
            remediation: self.remediation@,
            false_positives: self.false_positives@,
            tradeoffs: self.tradeoffs@,
            detector: self.detector,
        }
    }
}

/// The identity of catalog entry `i`: id, name, category, severity and
/// detector.
pub ghost struct EntrySpec {
    pub id: Seq<char>,
    pub name: Seq<char>,
    pub category: Category,
    pub severity: Severity,
    pub detector: Detector,
}

/// Number of checks in the catalog.
pub open spec fn catalog_len() -> nat {
    75
}

/// The catalog, entry by entry, in listing order.
pub open spec fn entry_spec(i: int) -> EntrySpec {
    if i == 0 {
        EntrySpec { id: "ZR001"@, name: "long-function"@, category: Category::Readability, severity: Severity::Low, detector: Detector::LongFunction(50) }
    } else if i == 1 {
        EntrySpec { id: "ZR002"@, name: "too-many-arguments"@, category: Category::Readability, severity: Severity::Low, detector: Detector::TooManyArguments(5) }
    } else if i == 2 {
        EntrySpec { id: "ZR003"@, name: "deep-nesting"@, category: Category::Readability, severity: Severity::Medium, detector: Detector::DeepNesting(3) }
    } else if i == 3 {
        EntrySpec { id: "ZR004"@, name: "complex-boolean-expression"@, category: Category::Readability, severity: Severity::Low, detector: Detector::ComplexBooleanExpression(3) }
    } else if i == 4 {
        EntrySpec { id: "ZR005"@, name: "unclear-variable-name"@, category: Category::Readability, severity: Severity::Low, detector: Detector::Precise(CatalogDetector::ShortVariableName) }
    } else if i == 5 {
        EntrySpec { id: "ZR006"@, name: "magic-number"@, category: Category::Readability, severity: Severity::Low, detector: Detector::MagicNumber }
    } else if i == 6 {
        EntrySpec { id: "ZR007"@, name: "missing-module-docstring"@, category: Category::Readability, severity: Severity::Low, detector: Detector::MissingModuleDocstring }
    } else if i == 7 {
        EntrySpec { id: "ZR008"@, name: "missing-function-docstring"@, category: Category::Readability, severity: Severity::Low, detector: Detector::MissingFunctionDocstring }
    } else if i == 8 {
        EntrySpec { id: "ZR009"@, name: "commented-out-code"@, category: Category::Readability, severity: Severity::Low, detector: Detector::Precise(CatalogDetector::CommentedOutCode) }
    } else if i == 9 {
        EntrySpec { id: "ZR010"@, name: "todo-without-context"@, category: Category::Readability, severity: Severity::Low, detector: Detector::TodoWithoutContext }
    } else if i == 10 {
        EntrySpec { id: "ZR011"@, name: "narrator-docstring"@, category: Category::Readability, severity: Severity::Low, detector: Detector::PatternAny(PatternSet::NarratorDocstring) }
    } else if i == 11 {
        EntrySpec { id: "ZR012"@, name: "boilerplate-docstring"@, category: Category::Readability, severity: Severity::Low, detector: Detector::PatternAny(PatternSet::BoilerplateDocstring) }
    } else if i == 12 {
        EntrySpec { id: "ZR013"@, name: "step-comment"@, category: Category::Readability, severity: Severity::Low, detector: Detector::PatternComment(PatternSet::StepComment) }
    } else if i == 13 {
        EntrySpec { id: "ZR014"@, name: "narrator-comment"@, category: Category::Readability, severity: Severity::Low, detector: Detector::PatternComment(PatternSet::NarratorComment) }
    } else if i == 14 {
        EntrySpec { id: "ZR015"@, name: "obvious-comment"@, category: Category::Readability, severity: Severity::Low, detector: Detector::PatternComment(PatternSet::ObviousComment) }
    } else if i == 15 {
        EntrySpec { id: "ZR101"@, name: "inconsistent-function-naming"@, category: Category::Consistency, severity: Severity::Low, detector: Detector::Precise(CatalogDetector::InconsistentFunctionNaming) }
    } else if i == 16 {
        EntrySpec { id: "ZR102"@, name: "inconsistent-class-naming"@, category: Category::Consistency, severity: Severity::Low, detector: Detector::PatternAny(PatternSet::ClassNaming) }
    } else if i == 17 {
        EntrySpec { id: "ZR103"@, name: "inconsistent-constant-naming"@, category: Category::Consistency, severity: Severity::Low, detector: Detector::PatternAny(PatternSet::ConstantNaming) }
    } else if i == 18 {
        EntrySpec { id: "ZR104"@, name: "inconsistent-import-style"@, category: Category::Consistency, severity: Severity::Low, detector: Detector::PatternAny(PatternSet::ImportStyle) }
    } else if i == 19 {
        EntrySpec { id: "ZR105"@, name: "mixed-quote-style"@, category: Category::Consistency, severity: Severity::Low, detector: Detector::Precise(CatalogDetector::MixedStringQuotes) }
    } else if i == 20 {
        EntrySpec { id: "ZR106"@, name: "inconsistent-test-naming"@, category: Category::Consistency, severity: Severity::Low, detector: Detector::Precise(CatalogDetector::TestAndShouldFunctionMix) }
    } else if i == 21 {
        EntrySpec { id: "ZR107"@, name: "inconsistent-private-prefix"@, category: Category::Consistency, severity: Severity::Low, detector: Detector::PatternAny(PatternSet::PrivatePrefix) }
    } else if i == 22 {
        EntrySpec { id: "ZR108"@, name: "duplicate-naming-pattern"@, category: Category::Consistency, severity: Severity::Low, detector: Detector::PatternAny(PatternSet::NamingPattern) }
    } else if i == 23 {
        EntrySpec { id: "ZR109"@, name: "mixed-collection-style"@, category: Category::Consistency, severity: Severity::Low, detector: Detector::PatternAny(PatternSet::CollectionStyle) }
    } else if i == 24 {
        EntrySpec { id: "ZR110"@, name: "mixed-return-style"@, category: Category::Consistency, severity: Severity::Low, detector: Detector::Precise(CatalogDetector::MixedReturnStyle) }
    } else if i == 25 {
        EntrySpec { id: "ZR201"@, name: "god-class"@, category: Category::Design, severity: Severity::Medium, detector: Detector::GodClass(15) }
    } else if i == 26 {
        EntrySpec { id: "ZR202"@, name: "too-many-instance-variables"@, category: Category::Design, severity: Severity::Medium, detector: Detector::PatternAny(PatternSet::InstanceVariables) }
    } else if i == 27 {
        EntrySpec { id: "ZR203"@, name: "too-many-public-methods"@, category: Category::Design, severity: Severity::Medium, detector: Detector::TooManyPublicMethods(20) }
    } else if i == 28 {
        EntrySpec { id: "ZR204"@, name: "feature-envy"@, category: Category::Design, severity: Severity::Medium, detector: Detector::PatternAny(PatternSet::FeatureEnvy) }
    } else if i == 29 {
        EntrySpec { id: "ZR205"@, name: "dataclass-without-behavior"@, category: Category::Design, severity: Severity::Low, detector: Detector::Precise(CatalogDetector::DataclassWithoutBehavior) }
    } else if i == 30 {
        EntrySpec { id: "ZR206"@, name: "circular-import"@, category: Category::Design, severity: Severity::High, detector: Detector::PatternAny(PatternSet::CircularImport) }
    } else if i == 31 {
        EntrySpec { id: "ZR207"@, name: "forbidden-architecture-import"@, category: Category::Design, severity: Severity::High, detector: Detector::ForbiddenArchitectureImport }
    } else if i == 32 {
        EntrySpec { id: "ZR208"@, name: "layer-violation"@, category: Category::Design, severity: Severity::High, detector: Detector::PatternAny(PatternSet::LayerViolation) }
    } else if i == 33 {
        EntrySpec { id: "ZR209"@, name: "service-object-explosion"@, category: Category::Design, severity: Severity::Low, detector: Detector::Precise(CatalogDetector::ServiceNamingExplosion) }
    } else if i == 34 {
        EntrySpec { id: "ZR210"@, name: "excessive-indirection"@, category: Category::Design, severity: Severity::Low, detector: Detector::PatternAny(PatternSet::Indirection) }
    } else if i == 35 {
        EntrySpec { id: "ZR301"@, name: "duplicate-branch-body"@, category: Category::Refactor, severity: Severity::Low, detector: Detector::Precise(CatalogDetector::DuplicateBranchBody) }
    } else if i == 36 {
        EntrySpec { id: "ZR302"@, name: "collapsible-if"@, category: Category::Refactor, severity: Severity::Low, detector: Detector::Precise(CatalogDetector::CollapsibleIf) }
    } else if i == 37 {
        EntrySpec { id: "ZR303"@, name: "unnecessary-else-after-return"@, category: Category::Refactor, severity: Severity::Low, detector: Detector::Precise(CatalogDetector::UnnecessaryElseAfterReturn) }
    } else if i == 38 {
        EntrySpec { id: "ZR304"@, name: "redundant-boolean-comparison"@, category: Category::Refactor, severity: Severity::Low, detector: Detector::Precise(CatalogDetector::RedundantBooleanComparison) }
    } else if i == 39 {
        EntrySpec { id: "ZR305"@, name: "simplifiable-if-expression"@, category: Category::Refactor, severity: Severity::Low, detector: Detector::Precise(CatalogDetector::SimplifiableIfExpression) }
    } else if i == 40 {
        EntrySpec { id: "ZR306"@, name: "repeated-literal"@, category: Category::Refactor, severity: Severity::Low, detector: Detector::Precise(CatalogDetector::RepeatedLiteral) }
    } else if i == 41 {
        EntrySpec { id: "ZR307"@, name: "long-parameter-list"@, category: Category::Refactor, severity: Severity::Low, detector: Detector::TooManyArguments(7) }
    } else if i == 42 {
        EntrySpec { id: "ZR308"@, name: "extractable-condition"@, category: Category::Refactor, severity: Severity::Low, detector: Detector::Precise(CatalogDetector::ExtractableCondition) }
    } else if i == 43 {
        EntrySpec { id: "ZR309"@, name: "repeated-try-except"@, category: Category::Refactor, severity: Severity::Low, detector: Detector::Precise(CatalogDetector::RepeatedTryExcept) }
    } else if i == 44 {
        EntrySpec { id: "ZR310"@, name: "identity-passthrough"@, category: Category::Refactor, severity: Severity::Low, detector: Detector::Precise(CatalogDetector::IdentityPassthrough) }
    } else if i == 45 {
        EntrySpec { id: "ZR311"@, name: "identity-map"@, category: Category::Refactor, severity: Severity::Low, detector: Detector::Precise(CatalogDetector::IdentityMap) }
    } else if i == 46 {
        EntrySpec { id: "ZR312"@, name: "reject-none"@, category: Category::Refactor, severity: Severity::Low, detector: Detector::Precise(CatalogDetector::RejectNoneGuard) }
    } else if i == 47 {
        EntrySpec { id: "ZR313"@, name: "filter-none"@, category: Category::Refactor, severity: Severity::Low, detector: Detector::Precise(CatalogDetector::FilterNonePattern) }
    } else if i == 48 {
        EntrySpec { id: "ZR314"@, name: "manual-string-join"@, category: Category::Refactor, severity: Severity::Low, detector: Detector::Precise(CatalogDetector::ManualStringJoinInLoop) }
    } else if i == 49 {
        EntrySpec { id: "ZR315"@, name: "sort-then-reverse"@, category: Category::Refactor, severity: Severity::Low, detector: Detector::Precise(CatalogDetector::SortThenReverse) }
    } else if i == 50 {
        EntrySpec { id: "ZR401"@, name: "broad-except"@, category: Category::Warning, severity: Severity::High, detector: Detector::BroadExcept }
    } else if i == 51 {
        EntrySpec { id: "ZR402"@, name: "empty-except"@, category: Category::Warning, severity: Severity::High, detector: Detector::Precise(CatalogDetector::ExceptHandlerOnlyPass { typed_only: false }) }
    } else if i == 52 {
        EntrySpec { id: "ZR403"@, name: "bare-except"@, category: Category::Warning, severity: Severity::High, detector: Detector::BareExcept }
    } else if i == 53 {
        EntrySpec { id: "ZR404"@, name: "mutable-default-argument"@, category: Category::Warning, severity: Severity::High, detector: Detector::MutableDefaultArgument }
    } else if i == 54 {
        EntrySpec { id: "ZR405"@, name: "print-debugging"@, category: Category::Warning, severity: Severity::Low, detector: Detector::PrintDebugging }
    } else if i == 55 {
        EntrySpec { id: "ZR406"@, name: "assert-production"@, category: Category::Warning, severity: Severity::Medium, detector: Detector::AssertProduction }
    } else if i == 56 {
        EntrySpec { id: "ZR407"@, name: "dangerous-eval-exec"@, category: Category::Warning, severity: Severity::High, detector: Detector::DangerousEvalExec }
    } else if i == 57 {
        EntrySpec { id: "ZR408"@, name: "silent-exception-swallowing"@, category: Category::Warning, severity: Severity::High, detector: Detector::Precise(CatalogDetector::ExceptHandlerOnlyPass { typed_only: true }) }
    } else if i == 58 {
        EntrySpec { id: "ZR409"@, name: "global-mutable-state"@, category: Category::Warning, severity: Severity::Medium, detector: Detector::Precise(CatalogDetector::GlobalMutableAssignment) }
    } else if i == 59 {
        EntrySpec { id: "ZR410"@, name: "ambiguous-none-return"@, category: Category::Warning, severity: Severity::Medium, detector: Detector::Precise(CatalogDetector::AmbiguousNoneReturn) }
    } else if i == 60 {
        EntrySpec { id: "ZR411"@, name: "blanket-except"@, category: Category::Warning, severity: Severity::High, detector: Detector::Precise(CatalogDetector::BlanketExceptException) }
    } else if i == 61 {
        EntrySpec { id: "ZR412"@, name: "query-in-loop"@, category: Category::Warning, severity: Severity::Medium, detector: Detector::Precise(CatalogDetector::QueryInLoop) }
    } else if i == 62 {
        EntrySpec { id: "ZR413"@, name: "silent-fallback"@, category: Category::Warning, severity: Severity::Medium, detector: Detector::Precise(CatalogDetector::SilentFallbackReturnNone) }
    } else if i == 63 {
        EntrySpec { id: "ZR414"@, name: "length-comparison"@, category: Category::Warning, severity: Severity::Low, detector: Detector::LengthComparison }
    } else if i == 64 {
        EntrySpec { id: "ZR415"@, name: "sort-for-top-k"@, category: Category::Warning, severity: Severity::Low, detector: Detector::Precise(CatalogDetector::SortForTopK) }
    } else if i == 65 {
        EntrySpec { id: "ZR501"@, name: "placeholder-generated-code"@, category: Category::Ai, severity: Severity::Medium, detector: Detector::Precise(CatalogDetector::AiPlaceholderInComment) }
    } else if i == 66 {
        EntrySpec { id: "ZR502"@, name: "generated-comment-pattern"@, category: Category::Ai, severity: Severity::Medium, detector: Detector::Precise(CatalogDetector::GeneratedCommentPattern) }
    } else if i == 67 {
        EntrySpec { id: "ZR503"@, name: "excessive-narration"@, category: Category::Ai, severity: Severity::Low, detector: Detector::PatternComment(PatternSet::Narration) }
    } else if i == 68 {
        EntrySpec { id: "ZR504"@, name: "generic-exception-message"@, category: Category::Ai, severity: Severity::Low, detector: Detector::Precise(CatalogDetector::GenericExceptionMessage) }
    } else if i == 69 {
        EntrySpec { id: "ZR505"@, name: "boilerplate-parameter-docs"@, category: Category::Ai, severity: Severity::Low, detector: Detector::PatternAny(PatternSet::ParameterDocs) }
    } else if i == 70 {
        EntrySpec { id: "ZR506"@, name: "empty-wrapper-function"@, category: Category::Ai, severity: Severity::Low, detector: Detector::Precise(CatalogDetector::EmptyWrapperFunction) }
    } else if i == 71 {
        EntrySpec { id: "ZR507"@, name: "generated-dead-branch"@, category: Category::Ai, severity: Severity::Low, detector: Detector::Precise(CatalogDetector::GeneratedDeadBranch) }
    } else if i == 72 {
        EntrySpec { id: "ZR508"@, name: "defensive-overengineering"@, category: Category::Ai, severity: Severity::Low, detector: Detector::Precise(CatalogDetector::DefensiveNamingSuffix) }
    } else if i == 73 {
        EntrySpec { id: "ZR509"@, name: "excessive-abstraction"@, category: Category::Ai, severity: Severity::Low, detector: Detector::PatternAny(PatternSet::Abstraction) }
    } else if i == 74 {
        EntrySpec { id: "ZR510"@, name: "generic-utility-explosion"@, category: Category::Ai, severity: Severity::Low, detector: Detector::PatternAny(PatternSet::UtilityNames) }
    } else {
        EntrySpec { id: "ZR510"@, name: "generic-utility-explosion"@, category: Category::Ai, severity: Severity::Low, detector: Detector::PatternAny(PatternSet::UtilityNames) }
    }
}

/// The check a catalog entry describes: its own documentation when it has
/// some, the generic documentation otherwise; never safe to fix
/// automatically.
pub open spec fn check_of(e: EntrySpec) -> CheckView {
    let d = match docs_spec(e.id) {
        Some(d) => d,
        None => generic_docs(),
    };
    CheckView {
        id: e.id,
        name: e.name,
        category: e.category,
        severity: e.severity,
        safe_fixable: false,
        examples: d.examples,
        explanation: d.explanation,
        remediation: d.remediation,
        false_positives: d.false_positives,
        tradeoffs: d.tradeoffs,
        detector: e.detector,
    }
}

/// Builds a check with its documentation.
fn rule(id: &'static str, name: &'static str, category: Category, severity: Severity, detector: Detector) -> (r:
    CatalogCheck)
    ensures
        r@ == check_of(EntrySpec { id: id@, name: name@, category, severity, detector }),
{
    let docs = match docs_for(id) {
        Some(d) => d,
        None => generic_rule_docs(),
    };
    CatalogCheck {
        metadata: CheckMetadata { id, name, category, severity, safe_fixable: false, examples: docs.examples },
        explanation: docs.explanation,
        remediation: docs.remediation,
        false_positives: docs.false_positives,
        tradeoffs: docs.tradeoffs,
        detector,
    }
}

/// Catalog entry `i`.
pub fn catalog_entry(i: usize) -> (r: CatalogCheck)
    requires
        i < catalog_len(),
    ensures
        r@ == check_of(entry_spec(i as int)),
{
    match i {
        0 => rule("ZR001", "long-function", Category::Readability, Severity::Low, Detector::LongFunction(50)),
        1 => rule("ZR002", "too-many-arguments", Category::Readability, Severity::Low, Detector::TooManyArguments(5)),
        2 => rule("ZR003", "deep-nesting", Category::Readability, Severity::Medium, Detector::DeepNesting(3)),
        3 => rule("ZR004", "complex-boolean-expression", Category::Readability, Severity::Low, Detector::ComplexBooleanExpression(3)),
        4 => rule("ZR005", "unclear-variable-name", Category::Readability, Severity::Low, Detector::Precise(CatalogDetector::ShortVariableName)),
        5 => rule("ZR006", "magic-number", Category::Readability, Severity::Low, Detector::MagicNumber),
        6 => rule("ZR007", "missing-module-docstring", Category::Readability, Severity::Low, Detector::MissingModuleDocstring),
        7 => rule("ZR008", "missing-function-docstring", Category::Readability, Severity::Low, Detector::MissingFunctionDocstring),
        8 => rule("ZR009", "commented-out-code", Category::Readability, Severity::Low, Detector::Precise(CatalogDetector::CommentedOutCode)),
        9 => rule("ZR010", "todo-without-context", Category::Readability, Severity::Low, Detector::TodoWithoutContext),
        10 => rule("ZR011", "narrator-docstring", Category::Readability, Severity::Low, Detector::PatternAny(PatternSet::NarratorDocstring)),
        11 => rule("ZR012", "boilerplate-docstring", Category::Readability, Severity::Low, Detector::PatternAny(PatternSet::BoilerplateDocstring)),
        12 => rule("ZR013", "step-comment", Category::Readability, Severity::Low, Detector::PatternComment(PatternSet::StepComment)),
        13 => rule("ZR014", "narrator-comment", Category::Readability, Severity::Low, Detector::PatternComment(PatternSet::NarratorComment)),
        14 => rule("ZR015", "obvious-comment", Category::Readability, Severity::Low, Detector::PatternComment(PatternSet::ObviousComment)),
        15 => rule("ZR101", "inconsistent-function-naming", Category::Consistency, Severity::Low, Detector::Precise(CatalogDetector::InconsistentFunctionNaming)),
        16 => rule("ZR102", "inconsistent-class-naming", Category::Consistency, Severity::Low, Detector::PatternAny(PatternSet::ClassNaming)),
        17 => rule("ZR103", "inconsistent-constant-naming", Category::Consistency, Severity::Low, Detector::PatternAny(PatternSet::ConstantNaming)),
        18 => rule("ZR104", "inconsistent-import-style", Category::Consistency, Severity::Low, Detector::PatternAny(PatternSet::ImportStyle)),
        19 => rule("ZR105", "mixed-quote-style", Category::Consistency, Severity::Low, Detector::Precise(CatalogDetector::MixedStringQuotes)),
        20 => rule("ZR106", "inconsistent-test-naming", Category::Consistency, Severity::Low, Detector::Precise(CatalogDetector::TestAndShouldFunctionMix)),
        21 => rule("ZR107", "inconsistent-private-prefix", Category::Consistency, Severity::Low, Detector::PatternAny(PatternSet::PrivatePrefix)),
        22 => rule("ZR108", "duplicate-naming-pattern", Category::Consistency, Severity::Low, Detector::PatternAny(PatternSet::NamingPattern)),
        23 => rule("ZR109", "mixed-collection-style", Category::Consistency, Severity::Low, Detector::PatternAny(PatternSet::CollectionStyle)),
        24 => rule("ZR110", "mixed-return-style", Category::Consistency, Severity::Low, Detector::Precise(CatalogDetector::MixedReturnStyle)),
        25 => rule("ZR201", "god-class", Category::Design, Severity::Medium, Detector::GodClass(15)),
        26 => rule("ZR202", "too-many-instance-variables", Category::Design, Severity::Medium, Detector::PatternAny(PatternSet::InstanceVariables)),
        27 => rule("ZR203", "too-many-public-methods", Category::Design, Severity::Medium, Detector::TooManyPublicMethods(20)),
        28 => rule("ZR204", "feature-envy", Category::Design, Severity::Medium, Detector::PatternAny(PatternSet::FeatureEnvy)),
        29 => rule("ZR205", "dataclass-without-behavior", Category::Design, Severity::Low, Detector::Precise(CatalogDetector::DataclassWithoutBehavior)),
        30 => rule("ZR206", "circular-import", Category::Design, Severity::High, Detector::PatternAny(PatternSet::CircularImport)),
        31 => rule("ZR207", "forbidden-architecture-import", Category::Design, Severity::High, Detector::ForbiddenArchitectureImport),
        32 => rule("ZR208", "layer-violation", Category::Design, Severity::High, Detector::PatternAny(PatternSet::LayerViolation)),
        33 => rule("ZR209", "service-object-explosion", Category::Design, Severity::Low, Detector::Precise(CatalogDetector::ServiceNamingExplosion)),
        34 => rule("ZR210", "excessive-indirection", Category::Design, Severity::Low, Detector::PatternAny(PatternSet::Indirection)),
        35 => rule("ZR301", "duplicate-branch-body", Category::Refactor, Severity::Low, Detector::Precise(CatalogDetector::DuplicateBranchBody)),
        36 => rule("ZR302", "collapsible-if", Category::Refactor, Severity::Low, Detector::Precise(CatalogDetector::CollapsibleIf)),
        37 => rule("ZR303", "unnecessary-else-after-return", Category::Refactor, Severity::Low, Detector::Precise(CatalogDetector::UnnecessaryElseAfterReturn)),
        38 => rule("ZR304", "redundant-boolean-comparison", Category::Refactor, Severity::Low, Detector::Precise(CatalogDetector::RedundantBooleanComparison)),
        39 => rule("ZR305", "simplifiable-if-expression", Category::Refactor, Severity::Low, Detector::Precise(CatalogDetector::SimplifiableIfExpression)),
        40 => rule("ZR306", "repeated-literal", Category::Refactor, Severity::Low, Detector::Precise(CatalogDetector::RepeatedLiteral)),
        41 => rule("ZR307", "long-parameter-list", Category::Refactor, Severity::Low, Detector::TooManyArguments(7)),
        42 => rule("ZR308", "extractable-condition", Category::Refactor, Severity::Low, Detector::Precise(CatalogDetector::ExtractableCondition)),
        43 => rule("ZR309", "repeated-try-except", Category::Refactor, Severity::Low, Detector::Precise(CatalogDetector::RepeatedTryExcept)),
        44 => rule("ZR310", "identity-passthrough", Category::Refactor, Severity::Low, Detector::Precise(CatalogDetector::IdentityPassthrough)),
        45 => rule("ZR311", "identity-map", Category::Refactor, Severity::Low, Detector::Precise(CatalogDetector::IdentityMap)),
        46 => rule("ZR312", "reject-none", Category::Refactor, Severity::Low, Detector::Precise(CatalogDetector::RejectNoneGuard)),
        47 => rule("ZR313", "filter-none", Category::Refactor, Severity::Low, Detector::Precise(CatalogDetector::FilterNonePattern)),
        48 => rule("ZR314", "manual-string-join", Category::Refactor, Severity::Low, Detector::Precise(CatalogDetector::ManualStringJoinInLoop)),
        49 => rule("ZR315", "sort-then-reverse", Category::Refactor, Severity::Low, Detector::Precise(CatalogDetector::SortThenReverse)),
        50 => rule("ZR401", "broad-except", Category::Warning, Severity::High, Detector::BroadExcept),
        51 => rule("ZR402", "empty-except", Category::Warning, Severity::High, Detector::Precise(CatalogDetector::ExceptHandlerOnlyPass { typed_only: false })),
        52 => rule("ZR403", "bare-except", Category::Warning, Severity::High, Detector::BareExcept),
        53 => rule("ZR404", "mutable-default-argument", Category::Warning, Severity::High, Detector::MutableDefaultArgument),
        54 => rule("ZR405", "print-debugging", Category::Warning, Severity::Low, Detector::PrintDebugging),
        55 => rule("ZR406", "assert-production", Category::Warning, Severity::Medium, Detector::AssertProduction),
        56 => rule("ZR407", "dangerous-eval-exec", Category::Warning, Severity::High, Detector::DangerousEvalExec),
        57 => rule("ZR408", "silent-exception-swallowing", Category::Warning, Severity::High, Detector::Precise(CatalogDetector::ExceptHandlerOnlyPass { typed_only: true })),
        58 => rule("ZR409", "global-mutable-state", Category::Warning, Severity::Medium, Detector::Precise(CatalogDetector::GlobalMutableAssignment)),
        59 => rule("ZR410", "ambiguous-none-return", Category::Warning, Severity::Medium, Detector::Precise(CatalogDetector::AmbiguousNoneReturn)),
        60 => rule("ZR411", "blanket-except", Category::Warning, Severity::High, Detector::Precise(CatalogDetector::BlanketExceptException)),
        61 => rule("ZR412", "query-in-loop", Category::Warning, Severity::Medium, Detector::Precise(CatalogDetector::QueryInLoop)),
        62 => rule("ZR413", "silent-fallback", Category::Warning, Severity::Medium, Detector::Precise(CatalogDetector::SilentFallbackReturnNone)),
        63 => rule("ZR414", "length-comparison", Category::Warning, Severity::Low, Detector::LengthComparison),
        64 => rule("ZR415", "sort-for-top-k", Category::Warning, Severity::Low, Detector::Precise(CatalogDetector::SortForTopK)),
        65 => rule("ZR501", "placeholder-generated-code", Category::Ai, Severity::Medium, Detector::Precise(CatalogDetector::AiPlaceholderInComment)),
        66 => rule("ZR502", "generated-comment-pattern", Category::Ai, Severity::Medium, Detector::Precise(CatalogDetector::GeneratedCommentPattern)),
        67 => rule("ZR503", "excessive-narration", Category::Ai, Severity::Low, Detector::PatternComment(PatternSet::Narration)),
        68 => rule("ZR504", "generic-exception-message", Category::Ai, Severity::Low, Detector::Precise(CatalogDetector::GenericExceptionMessage)),
        69 => rule("ZR505", "boilerplate-parameter-docs", Category::Ai, Severity::Low, Detector::PatternAny(PatternSet::ParameterDocs)),
        70 => rule("ZR506", "empty-wrapper-function", Category::Ai, Severity::Low, Detector::Precise(CatalogDetector::EmptyWrapperFunction)),
        71 => rule("ZR507", "generated-dead-branch", Category::Ai, Severity::Low, Detector::Precise(CatalogDetector::GeneratedDeadBranch)),
        72 => rule("ZR508", "defensive-overengineering", Category::Ai, Severity::Low, Detector::Precise(CatalogDetector::DefensiveNamingSuffix)),
        73 => rule("ZR509", "excessive-abstraction", Category::Ai, Severity::Low, Detector::PatternAny(PatternSet::Abstraction)),
        _ => rule("ZR510", "generic-utility-explosion", Category::Ai, Severity::Low, Detector::PatternAny(PatternSet::UtilityNames)),
    }
}

/// Every check of the catalog, in listing order.
pub fn build_catalog() -> (r: Vec<CatalogCheck>)
    ensures
        r@.len() == catalog_len(),
        forall|i: int| 0 <= i < catalog_len() ==> (#[trigger] r@[i])@ == check_of(entry_spec(i)),
{
    let mut v: Vec<CatalogCheck> = Vec::new();
    let mut i: usize = 0;
    while i < 75
        invariant
            i <= 75,
            v@.len() == i,
            forall|j: int| 0 <= j < i ==> (#[trigger] v@[j])@ == check_of(entry_spec(j)),
        decreases 75 - i,
    {
        v.push(catalog_entry(i));
        i = i + 1;
    }
    v
}

} // verus!
