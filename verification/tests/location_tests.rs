use zerum::parser::line_col;

#[test]
fn line_col_handles_utf8_without_panic() {
    let source = "é = 1\n";
    // Byte index 1 is inside the first codepoint.
    let (line, col) = line_col(source, 1);
    assert_eq!(line, 1);
    assert_eq!(col, 1);
}

#[test]
fn line_col_second_line() {
    let source = "a\nbc";
    let (line, col) = line_col(source, 3);
    assert_eq!(line, 2);
    assert_eq!(col, 2);
}
