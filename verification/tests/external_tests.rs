use zerum::analyzers::external::ExternalAnalyzer;
use zerum::base::issue::ConfidenceKind;
use zerum::base::severity::Severity;
use zerum::config::Config;
use zerum::integrations::external_checker::{builtin_checkers, find_checker, ExternalChecker, ExternalFinding};
use zerum::integrations::ruff::{finding_from_diagnostic, findings_from_diagnostics, map_ruff_severity, RuffDiagnostic};

fn finding(code: &str) -> ExternalFinding {
    finding_from_diagnostic(code.to_string(), "line too long".to_string(), "app.py".to_string(), 3, 80)
}

#[test]
fn ruff_codes_map_to_severity() {
    assert_eq!(map_ruff_severity("E501"), Severity::High);
    assert_eq!(map_ruff_severity("F401"), Severity::High);
    assert_eq!(map_ruff_severity("W291"), Severity::Medium);
    assert_eq!(map_ruff_severity(""), Severity::Medium);
}

#[test]
fn diagnostic_location_is_clamped_to_one() {
    let f = finding_from_diagnostic("E1".to_string(), "m".to_string(), "x.py".to_string(), 0, 0);
    assert_eq!(f.line, 1);
    assert_eq!(f.column, 1);
    assert_eq!(f.tool, "ruff");
}

#[test]
fn external_finding_becomes_tool_reported_issue() {
    let issue = finding("E501").into_issue();
    assert_eq!(issue.id, "EXT-RUFF-E501");
    assert_eq!(issue.title, "ruff:E501");
    assert_eq!(issue.source, "ruff");
    assert_eq!(issue.line, 3);
    assert_eq!(issue.column, 80);
    assert_eq!(issue.severity, Severity::High);
    assert_eq!(issue.confidence, ConfidenceKind::ToolReported);
    assert!(issue.explanation.is_none());
}

#[test]
fn list_checkers_includes_ruff() {
    let checkers = builtin_checkers();
    assert!(checkers.iter().any(|c| c.id() == "ruff"));
    assert_eq!(checkers[0].name(), "Ruff");
    assert!(find_checker("ruff").is_some());
    assert!(find_checker("pylint").is_none());
}

#[test]
fn analyzer_keeps_findings_of_known_checkers_only() {
    let ext = ExternalAnalyzer::with_checkers(vec!["ruff".to_string(), "pylint".to_string()]);
    let issues = ext.run(vec![Some(vec![finding("E501"), finding("W291")]), Some(vec![finding("E1")])]);
    assert_eq!(issues.len(), 2);
    assert_eq!(issues[0].id, "EXT-RUFF-E501");
    assert_eq!(issues[1].id, "EXT-RUFF-W291");
}

#[test]
fn checker_that_did_not_run_contributes_nothing() {
    let ext = ExternalAnalyzer::with_checkers(vec!["ruff".to_string()]);
    assert!(ext.run(vec![None]).is_empty());
}

#[test]
fn analyzer_from_config_uses_configured_checkers() {
    let mut config = Config::default();
    config.external_checkers.push("ruff".to_string());
    let ext = ExternalAnalyzer::from_config(&config);
    assert_eq!(ext.checker_ids, vec!["ruff".to_string()]);
    assert!(ext.is_known(0));
}

#[test]
fn find_checker_is_exact_about_the_id() {
    assert_eq!(find_checker("ruff").map(|c| c.id()), Some("ruff"));
    assert!(find_checker("Ruff").is_none());
    assert!(find_checker("").is_none());
    assert!(find_checker("ruff ").is_none());
}

#[test]
fn each_ruff_diagnostic_becomes_one_finding_in_order() {
    let ds = vec![
        RuffDiagnostic {
            code: "F401".to_string(),
            message: "unused import".to_string(),
            filename: "a.py".to_string(),
            row: 2,
            column: 8,
        },
        RuffDiagnostic {
            code: "W291".to_string(),
            message: "trailing whitespace".to_string(),
            filename: "b.py".to_string(),
            row: 0,
            column: 0,
        },
    ];
    let fs = findings_from_diagnostics(&ds);
    assert_eq!(fs.len(), 2);
    assert_eq!((fs[0].code.as_str(), fs[0].file.as_str(), fs[0].line, fs[0].column), ("F401", "a.py", 2, 8));
    assert_eq!(fs[0].severity, Severity::High);
    assert_eq!(fs[0].tool, "ruff");
    assert_eq!(fs[1].message, "trailing whitespace");
    assert_eq!((fs[1].line, fs[1].column), (1, 1));
    assert_eq!(fs[1].severity, Severity::Medium);
    assert!(findings_from_diagnostics(&Vec::new()).is_empty());
}

#[test]
fn named_issue_uses_the_given_uppercase_tool_name() {
    let issue = finding("E501").into_issue_named("RUFF");
    assert_eq!(issue.id, "EXT-RUFF-E501");
    let other = finding("C901").into_issue_named("MY-TOOL");
    assert_eq!(other.id, "EXT-MY-TOOL-C901");
    assert_eq!(other.title, "ruff:C901");
    assert_eq!(other.source, "ruff");
}
