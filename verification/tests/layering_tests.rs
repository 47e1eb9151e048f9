use zerum::analyzers::deterministic::DeterministicAnalyzer;
use zerum::base::issue::Issue;
use zerum::checks::layering::module_matches_forbidden;
use zerum::config::{CheckConfig, Config, ForbiddenImportRule};

fn layered_config() -> Config {
    let mut config = Config::default();
    config.checks.push((
        "ZR207".to_string(),
        CheckConfig {
            enabled: Some(true),
            rules: vec![ForbiddenImportRule {
                from: "app.domain".to_string(),
                forbidden: "app.infrastructure".to_string(),
            }],
            ..Default::default()
        },
    ));
    config
}

fn analyze_at(path: &str, source: &str, config: &Config) -> Vec<Issue> {
    DeterministicAnalyzer::new()
        .analyze_source(path, source, config)
        .unwrap_or_default()
}

#[test]
fn does_not_match_prefix_extension() {
    assert!(!module_matches_forbidden(
        "app.infrastructure_extra",
        "app.infrastructure"
    ));
}

#[test]
fn matches_exact_module_and_submodule() {
    assert!(module_matches_forbidden("app.infrastructure", "app.infrastructure"));
    assert!(module_matches_forbidden("app.infrastructure.db", "app.infrastructure"));
    assert!(!module_matches_forbidden("app", "app.infrastructure"));
}

#[test]
fn zr207_flags_forbidden_import_in_domain_layer() {
    let source = "from app.infrastructure.db import connect\n";
    let issues = analyze_at("app/domain/service.py", source, &layered_config());
    let hits: Vec<&Issue> = issues.iter().filter(|i| i.id == "ZR207").collect();
    assert_eq!(hits.len(), 1);
    assert_eq!(hits[0].line, 1);
}

#[test]
fn allows_import_outside_the_restricted_layer() {
    let source = "from app.infrastructure.db import connect\n";
    let issues = analyze_at("app/adapters/service.py", source, &layered_config());
    assert!(!issues.iter().any(|i| i.id == "ZR207"));
}

#[test]
fn plain_import_statement_is_checked_too() {
    let source = "import app.infrastructure.cache\n";
    let issues = analyze_at("app/domain/model.py", source, &layered_config());
    assert!(issues.iter().any(|i| i.id == "ZR207"));
}

#[test]
fn no_rules_means_no_layer_findings() {
    let source = "from app.infrastructure.db import connect\n";
    let issues = analyze_at("app/domain/service.py", source, &Config::default());
    assert!(!issues.iter().any(|i| i.id == "ZR207"));
}
