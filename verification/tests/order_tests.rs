use zerum::analyzers::order::{compare_paths, reported_before, sort_issues};
use zerum::base::category::Category;
use zerum::base::issue::{ConfidenceKind, Issue};
use zerum::base::severity::Severity;

fn issue(file: &str, line: usize, column: usize, id: &str, message: &str) -> Issue {
    Issue {
        id: id.to_string(),
        title: "t".to_string(),
        message: message.to_string(),
        explanation: None,
        remediation: None,
        file: file.to_string(),
        line,
        column,
        severity: Severity::Low,
        category: Category::Readability,
        source: "zerum".to_string(),
        confidence: ConfidenceKind::Deterministic,
    }
}

fn key(i: &Issue) -> (String, usize, usize, String, String) {
    (i.file.clone(), i.line, i.column, i.id.clone(), i.message.clone())
}

#[test]
fn sort_orders_by_file_then_position_then_id_then_message() {
    let items = vec![
        issue("b.py", 1, 1, "ZR001", "m"),
        issue("a.py", 3, 1, "ZR002", "m"),
        issue("a.py", 3, 1, "ZR001", "z"),
        issue("a.py", 3, 1, "ZR001", "a"),
        issue("a.py", 2, 9, "ZR009", "m"),
    ];
    let sorted = sort_issues(items);
    let keys: Vec<_> = sorted.iter().map(key).collect();
    assert_eq!(
        keys,
        vec![
            ("a.py".to_string(), 2, 9, "ZR009".to_string(), "m".to_string()),
            ("a.py".to_string(), 3, 1, "ZR001".to_string(), "a".to_string()),
            ("a.py".to_string(), 3, 1, "ZR001".to_string(), "z".to_string()),
            ("a.py".to_string(), 3, 1, "ZR002".to_string(), "m".to_string()),
            ("b.py".to_string(), 1, 1, "ZR001".to_string(), "m".to_string()),
        ]
    );
}

#[test]
fn paths_compare_by_component_like_std_paths() {
    // A directory's files come before a sibling file whose name extends the directory's.
    let (lt, same) = compare_paths("app/x.py", "app.py");
    assert!(lt && !same);
    assert_eq!(
        std::path::Path::new("app/x.py") < std::path::Path::new("app.py"),
        lt
    );
    let (lt, same) = compare_paths("a//b.py", "a/b.py");
    assert!(!lt && same);
    let (lt, _) = compare_paths("/z.py", "a.py");
    assert!(lt);
    let (lt, _) = compare_paths("../x.py", "-y.py");
    assert_eq!(std::path::Path::new("../x.py") < std::path::Path::new("-y.py"), lt);
}

#[test]
fn reported_before_is_strict() {
    let a = issue("a.py", 1, 1, "ZR001", "m");
    assert!(!reported_before(&a, &a));
    let b = issue("a.py", 1, 2, "ZR001", "m");
    assert!(reported_before(&a, &b));
    assert!(!reported_before(&b, &a));
}

#[test]
fn sorting_keeps_every_issue() {
    let items = vec![
        issue("a.py", 1, 1, "ZR001", "m"),
        issue("a.py", 1, 1, "ZR001", "m"),
        issue("c.py", 1, 1, "ZR001", "m"),
    ];
    assert_eq!(sort_issues(items).len(), 3);
}
