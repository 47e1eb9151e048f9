use zerum::analyzers::deterministic::DeterministicAnalyzer;
use zerum::base::issue::Issue;
use zerum::checks::check::Check;
use zerum::checks::registry::CheckRegistry;
use zerum::cli::{explain_text, list_line};
use zerum::config::{ActiveProfile, Config};

fn all_rule_ids() -> Vec<String> {
    let registry = CheckRegistry::new();
    registry.iter().iter().map(|c| c.id().to_string()).collect()
}

fn analyze(source: &str, config: &Config) -> Vec<Issue> {
    DeterministicAnalyzer::new()
        .analyze_source("sample.py", source, config)
        .unwrap_or_default()
}

fn strict() -> Config {
    Config {
        profile: ActiveProfile {
            name: "strict".to_string(),
        },
        ..Default::default()
    }
}

fn has_id(out: &[Issue], id: &str) -> bool {
    out.iter().any(|i| i.id == id)
}

/// Minimal snippets that should trigger a single rule (strict profile where needed).
fn trigger_snippet(id: &str) -> Option<String> {
    Some(match id {
        "ZR001" => {
            let mut s = String::from("def long_fn():\n");
            s.push_str(&"    x=1\n".repeat(60));
            s
        }
        "ZR010" => "# TODO fix\nx=1\n".to_string(),
        "ZR101" => "def snake_one():\n    pass\ndef camelCase():\n    pass\n".to_string(),
        "ZR304" => "def f(flag):\n    return flag == True\n".to_string(),
        "ZR306" => "a = \"ERROR\"\nb = \"ERROR\"\nc = \"ERROR\"\n".to_string(),
        "ZR401" => "try:\n    1/0\nexcept BaseException:\n    pass\n".to_string(),
        "ZR411" => "try:\n    1/0\nexcept Exception:\n    pass\n".to_string(),
        "ZR404" => "def f(xs=[]):\n    return xs\n".to_string(),
        "ZR406" => "def f(x):\n    assert x\n".to_string(),
        "ZR407" => "def f(c):\n    return eval(c)\n".to_string(),
        "ZR414" => "def f(xs):\n    return len(xs) > 0\n".to_string(),
        "ZR501" => "# TODO: AI generated\nx=1\n".to_string(),
        "ZR506" => "def wrap():\n    return other()\n".to_string(),
        _ => return None,
    })
}

#[test]
fn catalog_has_seventy_five_rules() {
    let ids = all_rule_ids();
    assert_eq!(ids.len(), 75);
}

#[test]
fn registry_has_unique_zr_ids() {
    let registry = CheckRegistry::new();
    let mut ids: Vec<&str> = registry.iter().iter().map(|c| c.id()).collect();
    ids.sort_unstable();
    assert!(ids.len() >= 75);
    for id in &ids {
        assert!(id.starts_with("ZR"));
        assert_eq!(id.len(), 5);
    }
    assert_eq!(ids.windows(2).filter(|w| w[0] == w[1]).count(), 0);
}

#[test]
fn registry_metadata_is_complete_and_aligned() {
    let registry = CheckRegistry::new();
    for check in registry.iter() {
        let meta = check.metadata();
        assert_eq!(meta.id, check.id());
        assert_eq!(meta.name, check.name());
        assert_eq!(meta.category, check.category());
        assert_eq!(meta.severity, check.severity());
        assert!(!meta.examples.trim().is_empty());
    }
}

#[test]
fn registry_finds_by_id() {
    let registry = CheckRegistry::new();
    assert_eq!(registry.find("ZR207").map(|c| c.name()), Some("forbidden-architecture-import"));
    assert!(registry.find("ZR999").is_none());
}

#[test]
fn every_rule_explain_succeeds() {
    let registry = CheckRegistry::new();
    for id in all_rule_ids() {
        let check = registry.find(&id).expect("known id");
        let text = explain_text(check);
        assert!(text.starts_with(&format!("{} — {}\n", check.id(), check.name())));
        assert!(text.contains("Remediation: "));
    }
}

#[test]
fn curated_rules_have_non_generic_explanation() {
    let registry = CheckRegistry::new();
    for id in ["ZR001", "ZR401", "ZR010"] {
        let text = explain_text(registry.find(id).unwrap());
        assert!(
            !text.contains("maintainability risk in deterministic analysis"),
            "{id}"
        );
    }
}

#[test]
fn explain_zr001_includes_metadata() {
    let registry = CheckRegistry::new();
    let text = explain_text(registry.find("ZR001").unwrap());
    assert!(text.contains("ZR001"));
    assert!(text.contains("category: readability"));
    assert!(text.contains("severity: low"));
}

#[test]
fn list_checks_lists_catalog_ids() {
    let registry = CheckRegistry::new();
    let lines: Vec<String> = registry.iter().iter().map(list_line).collect();
    for id in ["ZR001", "ZR110", "ZR210", "ZR315", "ZR415", "ZR510"] {
        assert!(lines.iter().any(|l| l.contains(id)), "missing {id} in list-checks output");
    }
    assert_eq!(lines[0], "ZR001  long-function  [readability] low");
}

#[test]
fn trigger_snippets_fire_under_strict_profile() {
    let config = strict();
    for id in all_rule_ids() {
        let Some(snippet) = trigger_snippet(&id) else {
            continue;
        };
        let out = analyze(&snippet, &config);
        assert!(has_id(&out, &id), "expected {id} to trigger");
    }
}

#[test]
fn default_profile_disables_zr110_on_minimal_code() {
    let out = analyze("def f():\n    return 1\n", &Config::default());
    assert!(!has_id(&out, "ZR110"));
}

#[test]
fn clean_module_passes_default_profile() {
    let source = "\"\"\"Tidy helpers.\"\"\"\n\n\ndef add(a, b):\n    \"\"\"Return the sum.\"\"\"\n    return a + b\n";
    let out = analyze(source, &Config::default());
    assert!(out.is_empty(), "{:?}", out.iter().map(|i| i.id.clone()).collect::<Vec<_>>());
}

#[test]
fn severity_override_applies_to_matching_check() {
    let mut config = Config::default();
    config.checks.push((
        "ZR001".to_string(),
        zerum::config::CheckConfig {
            enabled: Some(true),
            severity: Some(zerum::base::severity::Severity::Critical),
            max_lines: Some(1),
            ..Default::default()
        },
    ));
    let out = analyze("def long_fn():\n    a=1\n    b=2\n    c=3\n", &config);
    let zr001: Vec<&Issue> = out.iter().filter(|i| i.id == "ZR001").collect();
    assert_eq!(zr001.len(), 1);
    assert_eq!(zr001[0].severity, zerum::base::severity::Severity::Critical);
}

#[test]
fn issues_come_in_report_order() {
    let out = analyze("def f(xs=[]):\n    print(xs)\n    return eval(xs)\n", &strict());
    assert!(out.len() >= 2);
    for w in out.windows(2) {
        let a = (&w[0].file, w[0].line, w[0].column, &w[0].id, &w[0].message);
        let b = (&w[1].file, w[1].line, w[1].column, &w[1].id, &w[1].message);
        assert!(a <= b);
    }
}

#[test]
fn disabled_check_reports_nothing_even_under_strict() {
    let mut config = strict();
    config.checks.push((
        "ZR404".to_string(),
        zerum::config::CheckConfig {
            enabled: Some(false),
            ..Default::default()
        },
    ));
    let out = analyze("def f(xs=[]):\n    return xs\n", &config);
    assert!(!has_id(&out, "ZR404"));
}

fn zr001_places(max_lines: usize, source: &str) -> Vec<(usize, usize)> {
    let mut config = Config::default();
    config.checks.push((
        "ZR001".to_string(),
        zerum::config::CheckConfig { enabled: Some(true), max_lines: Some(max_lines), ..Default::default() },
    ));
    analyze(source, &config).iter().filter(|i| i.id == "ZR001").map(|i| (i.line, i.column)).collect()
}

#[test]
fn higher_max_lines_reports_no_more_long_functions() {
    let source = "def long_fn():\n    a=1\n    b=2\n    c=3\n\ndef short_fn():\n    return 1\n";
    let at_one = zr001_places(1, source);
    let at_three = zr001_places(3, source);
    assert_eq!(at_one, vec![(1, 1)]);
    assert!(at_three.is_empty());
    for place in &at_three {
        assert!(at_one.contains(place));
    }
    let at_zero = zr001_places(0, source);
    assert_eq!(at_zero.len(), 2);
    for place in &at_one {
        assert!(at_zero.contains(place));
    }
}
