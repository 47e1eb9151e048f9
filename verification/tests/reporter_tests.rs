use zerum::base::category::Category;
use zerum::base::issue::{ConfidenceKind, Issue};
use zerum::base::severity::Severity;
use zerum::reporters::human::HumanReporter;
use zerum::reporters::markdown::MarkdownReporter;
use zerum::reporters::render::{render, ReportKind, Reporter};
use zerum::reporters::sarif::{severity_to_level, SarifReporter};

fn sample_issue() -> Issue {
    Issue {
        id: "ZR001".into(),
        title: "too-many-branches".into(),
        message: "function `f` has 12 branches".into(),
        explanation: Some("branches are hard".into()),
        remediation: Some("refactor".into()),
        file: "app.py".into(),
        line: 10,
        column: 1,
        severity: Severity::Medium,
        category: Category::Design,
        source: "zerum".into(),
        confidence: ConfidenceKind::Deterministic,
    }
}

#[test]
fn human_reporter_emits_issue_id() {
    let out = render(ReportKind::Human, &vec![sample_issue()]).unwrap();
    assert!(out.contains("ZR001"));
}

#[test]
fn human_report_exact_text() {
    let out = HumanReporter.report(&vec![sample_issue()]);
    assert_eq!(
        out,
        "[medium] ZR001 app.py:10:1 — function `f` has 12 branches\n  explanation: branches are hard\n  remediation: refactor\n"
    );
}

#[test]
fn human_report_of_nothing() {
    assert_eq!(HumanReporter.report(&Vec::new()), "No issues found.\n");
}

#[test]
fn serialized_formats_are_left_to_the_caller() {
    assert!(render(ReportKind::Json, &vec![sample_issue()]).is_none());
    assert!(render(ReportKind::Sarif, &vec![sample_issue()]).is_none());
}

#[test]
fn markdown_report_mentions_issue() {
    let out = MarkdownReporter.report(&vec![sample_issue()]);
    assert!(out.contains("ZR001"));
}

#[test]
fn sarif_levels_follow_severity() {
    assert_eq!(severity_to_level(Severity::Critical), "error");
    assert_eq!(severity_to_level(Severity::High), "error");
    assert_eq!(severity_to_level(Severity::Medium), "warning");
    assert_eq!(severity_to_level(Severity::Low), "note");
    assert_eq!(severity_to_level(Severity::Info), "note");
}

#[test]
fn sarif_log_has_one_result_per_issue() {
    let log = SarifReporter.build(&vec![sample_issue(), sample_issue()]);
    assert_eq!(log.version, "2.1.0");
    assert_eq!(log.tool_name, "zerum");
    assert_eq!(log.results.len(), 2);
    assert_eq!(log.results[0].rule_id, "ZR001");
    assert_eq!(log.results[0].level, "warning");
    assert_eq!(log.results[0].start_line, 10);
    assert_eq!(log.rules.len(), 1);
}
