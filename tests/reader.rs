use commitz::commit::reader::{custom_scope, parse_multiline, RequiredField, RequiredOutcome};

#[test]
fn multiline_splits_trims_and_drops_empty_pieces() {
    assert_eq!(parse_multiline("a | b|  |c "), "a\nb\nc");
}

#[test]
fn multiline_of_blank_input_is_empty() {
    assert_eq!(parse_multiline(""), "");
    assert_eq!(parse_multiline("   "), "");
    assert_eq!(parse_multiline(" | |\t|"), "");
}

#[test]
fn multiline_keeps_inner_spaces() {
    assert_eq!(parse_multiline("  first line |second  line"), "first line\nsecond  line");
    assert_eq!(parse_multiline("one"), "one");
    assert_eq!(parse_multiline("|x|"), "x");
}

#[test]
fn custom_scope_is_trimmed_and_parenthesized() {
    assert_eq!(custom_scope("  api "), "(api)");
    assert_eq!(custom_scope(""), "()");
}

#[test]
fn required_field_reports_blank_once() {
    let mut field = RequiredField::new();
    assert_eq!(field.submit(""), RequiredOutcome::ShowError);
    assert_eq!(field.submit("   "), RequiredOutcome::Retry);
    assert_eq!(field.submit(""), RequiredOutcome::Retry);
    assert_eq!(field.submit("  add x  "), RequiredOutcome::Accepted("add x".to_string()));
}

#[test]
fn required_field_accepts_first_non_empty_line() {
    let mut field = RequiredField::new();
    assert_eq!(field.submit(" fix it"), RequiredOutcome::Accepted("fix it".to_string()));
    assert!(!field.error_shown);
}
