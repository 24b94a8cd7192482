use orbit_sequencer_deployer::env_file::parse_env_text;

#[test]
fn comment_blank_and_entry_give_one_entry() {
    let entries = parse_env_text("# comment\n\nKEY=VALUE");
    assert_eq!(entries, vec!["KEY=VALUE".to_string()]);
}

#[test]
fn empty_text_gives_no_entries() {
    assert!(parse_env_text("").is_empty());
}

#[test]
fn malformed_line_passes_through() {
    let entries = parse_env_text("NOEQUALS\nA=1\n");
    assert_eq!(entries, vec!["NOEQUALS".to_string(), "A=1".to_string()]);
}

#[test]
fn indented_comment_and_white_lines_are_skipped() {
    let entries = parse_env_text("   # indented\n \t \nB=2\n\u{3000}\n");
    assert_eq!(entries, vec!["B=2".to_string()]);
}

#[test]
fn kept_lines_are_verbatim() {
    let entries = parse_env_text("  C = 3  \r\nD=#4\r\n");
    assert_eq!(entries, vec!["  C = 3  ".to_string(), "D=#4".to_string()]);
}

#[test]
fn final_line_without_newline_counts() {
    let entries = parse_env_text("X=1\nY=2");
    assert_eq!(entries, vec!["X=1".to_string(), "Y=2".to_string()]);
}
