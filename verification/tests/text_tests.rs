use brewhouse::text::{count_nonempty_lines, parse_line_list, split_text_lines, trim_str};

#[test]
fn line_list_trims_and_drops_empty_and_banner_lines() {
    let raw = "  jq \n\n==> Formulae\nwget\n";
    let lines = parse_line_list(raw);
    assert_eq!(lines, vec!["jq".to_string(), "wget".to_string()]);
}

#[test]
fn line_list_of_empty_output_is_empty() {
    let lines = parse_line_list("");
    assert!(lines.is_empty());
}

#[test]
fn line_list_handles_carriage_returns() {
    let lines = parse_line_list("a\r\nb");
    assert_eq!(lines, vec!["a".to_string(), "b".to_string()]);
}

#[test]
fn line_list_keeps_inner_whitespace() {
    let lines = parse_line_list("  openssl@3 3.0  \n");
    assert_eq!(lines, vec!["openssl@3 3.0".to_string()]);
}

#[test]
fn banner_needs_the_full_marker() {
    let lines = parse_line_list("==>\n==x\n=> y\n");
    assert_eq!(lines, vec!["==x".to_string(), "=> y".to_string()]);
}

#[test]
fn split_keeps_every_segment() {
    let segments = split_text_lines("a\n\nb\n");
    assert_eq!(
        segments,
        vec!["a".to_string(), "".to_string(), "b".to_string(), "".to_string()]
    );
    assert_eq!(split_text_lines(""), vec!["".to_string()]);
}

#[test]
fn trim_removes_edges_only() {
    assert_eq!(trim_str(" \t a b \r\n"), "a b");
    assert_eq!(trim_str(""), "");
    assert_eq!(trim_str("   "), "");
    assert_eq!(trim_str("x"), "x");
}

#[test]
fn counting_skips_empty_lines() {
    assert_eq!(count_nonempty_lines("a\n\nb\n"), 2);
    assert_eq!(count_nonempty_lines(""), 0);
    assert_eq!(count_nonempty_lines("\n\n"), 0);
    assert_eq!(count_nonempty_lines("one line"), 1);
}
