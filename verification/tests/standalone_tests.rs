use zerum::base::issue::Issue;
use zerum::base::severity::Severity;
use zerum::checks::check::Check;
use zerum::checks::run::CheckContext;
use zerum::checks::standalone::{
    BroadExcept, ForbiddenArchitectureImport, GodClass, LongFunction, MutableDefaultArgument,
    NestedConditionals, PrintDebugging, TooManyArguments, TooManyBranches,
};
use zerum::config::{CheckConfig, Config, ForbiddenImportRule};
use zerum::parser::{ParsedFile, PythonParser, RustPythonParser};

fn parse(source: &str, path: &str) -> ParsedFile {
    match RustPythonParser.parse_file(source, path) {
        Ok(p) => p,
        Err(_) => panic!("source should parse"),
    }
}

fn with_ctx<T>(source: &str, path: &str, config: &Config, f: impl Fn(&CheckContext) -> T) -> T {
    let parsed = parse(source, path);
    let ctx = CheckContext::new(path, &parsed, config);
    f(&ctx)
}

const BRANCHY: &str = r#"
def branchy(x):
    if x > 0:
        pass
    elif x > 1:
        pass
    elif x > 2:
        pass
    elif x > 3:
        pass
    elif x > 4:
        pass
    elif x > 5:
        pass
    elif x > 6:
        pass
    elif x > 7:
        pass
    elif x > 8:
        pass
    while x:
        for i in range(3):
            if i:
                pass
"#;

const ASYNC_BRANCHY: &str = r#"
async def branchy(x):
    if x:
        pass
    elif x > 1:
        pass
    elif x > 2:
        pass
    elif x > 3:
        pass
    elif x > 4:
        pass
    elif x > 5:
        pass
    elif x > 6:
        pass
    elif x > 7:
        pass
    elif x > 8:
        pass
"#;

const DEEP: &str = r#"
def deep():
    if a:
        if b:
            if c:
                if d:
                    pass
"#;

const ASYNC_DEEP: &str = r#"
async def deep():
    if a:
        if b:
            if c:
                if d:
                    pass
"#;

fn branches(source: &str) -> Vec<Issue> {
    with_ctx(source, "sample.py", &Config::default(), |ctx| TooManyBranches.run(ctx))
}

#[test]
fn flags_branchy_function() {
    let issues = branches(BRANCHY);
    assert!(!issues.is_empty());
    assert!(issues.iter().all(|i| i.id == "ZR001"));
}

#[test]
fn async_function_branches_counted() {
    assert!(!branches(ASYNC_BRANCHY).is_empty());
}

#[test]
fn flags_deep_nesting() {
    let issues = with_ctx(DEEP, "t.py", &Config::default(), |ctx| NestedConditionals.run(ctx));
    assert_eq!(issues.len(), 1);
    assert_eq!(issues[0].id, "ZR004");
}

#[test]
fn async_function_depth_counted() {
    let issues = with_ctx(ASYNC_DEEP, "t.py", &Config::default(), |ctx| NestedConditionals.run(ctx));
    assert_eq!(issues.len(), 1);
}

#[test]
fn nesting_message_names_function_and_limit() {
    let issues = with_ctx(DEEP, "t.py", &Config::default(), |ctx| NestedConditionals.run(ctx));
    assert_eq!(issues[0].message, "function `deep` has conditional nesting depth 4 (max 3)");
    assert_eq!(issues[0].title, "nested-conditionals");
    assert_eq!(issues[0].line, 2);
    assert_eq!(issues[0].column, 1);
}

fn enabling(id: &str) -> Config {
    let mut config = Config::default();
    config.checks.push((
        id.to_string(),
        CheckConfig {
            enabled: Some(true),
            ..Default::default()
        },
    ));
    config
}

#[test]
fn flags_list_default_when_enabled() {
    // ZR007 is off in the built-in default profile, so it is enabled here.
    let source = "def f(items=[]):\n    return items\n";
    let issues = with_ctx(source, "t.py", &enabling("ZR007"), |ctx| MutableDefaultArgument.run(ctx));
    assert_eq!(issues.len(), 1);
    assert_eq!(issues[0].message, "function `f` uses a mutable default argument");
    let off = with_ctx(source, "t.py", &Config::default(), |ctx| MutableDefaultArgument.run(ctx));
    assert!(off.is_empty());
}

#[test]
fn none_default_is_clean() {
    let source = "def f(items=None):\n    return items\n";
    let issues = with_ctx(source, "t.py", &Config::default(), |ctx| MutableDefaultArgument.run(ctx));
    assert!(issues.is_empty());
}

#[test]
fn none_default_is_clean_when_enabled() {
    let source = "def f(items=None):\n    return items\n";
    let issues = with_ctx(source, "t.py", &enabling("ZR007"), |ctx| MutableDefaultArgument.run(ctx));
    assert!(issues.is_empty());
}

#[test]
fn flags_print_call() {
    let source = "def f():\n    print('debug')\n";
    let issues = with_ctx(source, "t.py", &Config::default(), |ctx| PrintDebugging.run(ctx));
    assert_eq!(issues.len(), 1);
    assert_eq!(issues[0].id, "ZR006");
}

#[test]
fn ignores_builtins_print_attribute() {
    let source = "import builtins\nbuiltins.print('x')\n";
    let issues = with_ctx(source, "t.py", &Config::default(), |ctx| PrintDebugging.run(ctx));
    assert!(issues.is_empty());
}

#[test]
fn flags_forbidden_import_in_domain_layer() {
    let source = "from app.infrastructure.db import connect\n";
    let mut config = Config::default();
    config.checks.push((
        "ZR010".to_string(),
        CheckConfig {
            enabled: Some(true),
            rules: vec![ForbiddenImportRule {
                from: "app.domain".to_string(),
                forbidden: "app.infrastructure".to_string(),
            }],
            ..Default::default()
        },
    ));
    let issues = with_ctx(source, "app/domain/service.py", &config, |ctx| {
        ForbiddenArchitectureImport.run(ctx)
    });
    assert_eq!(issues.len(), 1);
    assert_eq!(issues[0].id, "ZR010");
}

#[test]
fn broad_except_flags_bare_exception_and_base_exception() {
    let source = "try:\n    x()\nexcept:\n    pass\ntry:\n    y()\nexcept Exception:\n    pass\ntry:\n    z()\nexcept BaseException:\n    pass\ntry:\n    w()\nexcept ValueError:\n    pass\n";
    let issues = with_ctx(source, "t.py", &Config::default(), |ctx| BroadExcept.run(ctx));
    assert_eq!(issues.len(), 3);
    assert!(issues.iter().all(|i| i.message == "broad or bare except handler swallows errors"));
    assert_eq!(issues[0].line, 3);
}

#[test]
fn too_many_arguments_uses_configured_limit() {
    let source = "def f(a, b, c):\n    return a\n";
    let mut config = Config::default();
    config.checks.push((
        "ZR002".to_string(),
        CheckConfig {
            max_arguments: Some(2),
            ..Default::default()
        },
    ));
    let issues = with_ctx(source, "t.py", &config, |ctx| TooManyArguments.run(ctx));
    assert_eq!(issues.len(), 1);
    assert_eq!(issues[0].message, "function `f` has 3 arguments (max 2)");
    let clean = with_ctx(source, "t.py", &Config::default(), |ctx| TooManyArguments.run(ctx));
    assert!(clean.is_empty());
}

#[test]
fn long_function_reports_with_its_own_severity() {
    let source = "def f():\n    a = 1\n    b = 2\n    c = 3\n";
    let mut config = Config::default();
    config.checks.push((
        "ZR003".to_string(),
        CheckConfig {
            max_lines: Some(1),
            severity: Some(Severity::Critical),
            ..Default::default()
        },
    ));
    let issues = with_ctx(source, "t.py", &config, |ctx| LongFunction.run(ctx));
    assert_eq!(issues.len(), 1);
    assert_eq!(issues[0].severity, Severity::Low);
}

#[test]
fn god_class_counts_methods() {
    let mut source = String::from("class Big:\n");
    for i in 0..16 {
        source.push_str(&format!("    def m{i}(self):\n        pass\n"));
    }
    let issues = with_ctx(&source, "t.py", &enabling("ZR008"), |ctx| GodClass.run(ctx));
    assert_eq!(issues.len(), 1);
    assert_eq!(issues[0].message, "class `Big` defines 16 methods (max 15)");
}

#[test]
fn disabled_standalone_check_reports_nothing() {
    let mut config = Config::default();
    config.checks.push((
        "ZR006".to_string(),
        CheckConfig {
            enabled: Some(false),
            ..Default::default()
        },
    ));
    let issues = with_ctx("print(1)\n", "t.py", &config, |ctx| PrintDebugging.run(ctx));
    assert!(issues.is_empty());
}

#[test]
fn standalone_metadata_is_aligned() {
    assert_eq!(TooManyBranches.id(), "ZR001");
    assert_eq!(TooManyBranches.metadata().name, TooManyBranches.name());
    assert_eq!(GodClass.metadata().severity, GodClass.severity());
    assert_eq!(PrintDebugging.false_positives(), "This rule may trigger on project-specific styles.");
    assert_eq!(BroadExcept.tradeoffs(), "Disabling this rule may reduce guidance consistency.");
}

fn identity_is_aligned<C: Check>(check: &C) -> &'static str {
    let meta = check.metadata();
    assert_eq!(meta.id, check.id());
    assert_eq!(meta.name, check.name());
    assert_eq!(meta.category, check.category());
    assert_eq!(meta.severity, check.severity());
    check.id()
}

#[test]
fn catalog_and_standalone_checks_share_the_check_interface() {
    let registry = zerum::checks::registry::CheckRegistry::new();
    let first = registry.find("ZR001").unwrap();
    assert_eq!(identity_is_aligned(first), "ZR001");
    assert_eq!(identity_is_aligned(&TooManyBranches), "ZR001");
    assert_eq!(identity_is_aligned(&GodClass), "ZR008");
    assert_eq!(identity_is_aligned(&ForbiddenArchitectureImport), "ZR010");
}
