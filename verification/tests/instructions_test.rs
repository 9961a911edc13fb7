use example_runner::instructions::is_executable_line;
use example_runner::instructions::split_lines;

#[test]
fn splits_simple_text() {
    let lines = split_lines("intro line\n  echo hi\n  touch done.txt\n");
    assert_eq!(lines, vec!["intro line", "  echo hi", "  touch done.txt"]);
}

#[test]
fn splits_without_final_newline() {
    let lines = split_lines("a\nb");
    assert_eq!(lines, vec!["a", "b"]);
}

#[test]
fn splits_empty_text_to_no_lines() {
    let lines = split_lines("");
    assert!(lines.is_empty());
}

#[test]
fn splits_lone_newline_to_one_empty_line() {
    let lines = split_lines("\n");
    assert_eq!(lines, vec![""]);
}

#[test]
fn splits_keep_empty_middle_lines() {
    let lines = split_lines("a\n\nb\n");
    assert_eq!(lines, vec!["a", "", "b"]);
}

#[test]
fn splits_strip_carriage_return_before_newline() {
    let lines = split_lines("a\r\nb\r\n");
    assert_eq!(lines, vec!["a", "b"]);
}

#[test]
fn splits_keep_trailing_carriage_return_without_newline() {
    let lines = split_lines("a\r");
    assert_eq!(lines, vec!["a\r"]);
}

#[test]
fn exactly_two_leading_spaces_are_executable() {
    assert!(is_executable_line("  echo hi"));
    assert!(is_executable_line("  "));
    assert!(is_executable_line("  x"));
}

#[test]
fn other_lines_are_informational() {
    assert!(!is_executable_line("echo hi"));
    assert!(!is_executable_line(" single space"));
    assert!(!is_executable_line("   indented further"));
    assert!(!is_executable_line("    "));
    assert!(!is_executable_line(""));
    assert!(!is_executable_line("\t  tab first"));
}
