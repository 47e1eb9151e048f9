use zerum::cli::{check_exit_code, ReportFormat, EXIT_ERROR, EXIT_ISSUES};
use zerum::discovery::{is_python_file, is_skipped_dir};
use zerum::reporters::render::ReportKind;

#[test]
fn all_parse_failures_exit_error() {
    assert_eq!(check_exit_code(0, 1), EXIT_ERROR);
}

#[test]
fn issues_found_exit_issues() {
    assert_eq!(check_exit_code(3, 0), EXIT_ISSUES);
    assert_eq!(check_exit_code(3, 2), EXIT_ISSUES);
}

#[test]
fn clean_run_exits_zero() {
    assert_eq!(check_exit_code(0, 0), 0);
}

#[test]
fn report_format_maps_to_kind() {
    assert_eq!(ReportKind::from(ReportFormat::Human), ReportKind::Human);
    assert_eq!(ReportKind::from(ReportFormat::Json), ReportKind::Json);
    assert_eq!(ReportKind::from(ReportFormat::Sarif), ReportKind::Sarif);
}

#[test]
fn skips_git_and_pycache_directories() {
    assert!(is_skipped_dir(".git"));
    assert!(is_skipped_dir("__pycache__"));
    assert!(is_skipped_dir("node_modules"));
    assert!(!is_skipped_dir("src"));
}

#[test]
fn python_files_are_recognised_by_extension() {
    assert!(is_python_file("pkg/mod.py"));
    assert!(is_python_file("/abs/x.py"));
    assert!(!is_python_file("notes.txt"));
    assert!(!is_python_file("pkg/.py"));
    assert!(!is_python_file("script"));
}
