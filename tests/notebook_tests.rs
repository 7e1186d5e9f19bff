use calc_core::notebook::expand_cell;

#[test]
fn blank_and_comment_lines_are_skipped() {
    assert_eq!(expand_cell("", "5 V"), None);
    assert_eq!(expand_cell("   \t ", "5 V"), None);
    assert_eq!(expand_cell("  # a note", "5 V"), None);
    // a comment after an expression is left to the lexer
    assert_eq!(expand_cell("x = 1 # note", "").as_deref(), Some("x = 1 # note"));
}

#[test]
fn lines_are_trimmed_including_unicode_spaces() {
    assert_eq!(expand_cell("  r = 10kΩ \t", "").as_deref(), Some("r = 10kΩ"));
    assert_eq!(expand_cell("\u{2003}x\u{3000}", "").as_deref(), Some("x"));
}

#[test]
fn ans_is_replaced_textually() {
    assert_eq!(expand_cell("Ans * 2", "6000 Ω").as_deref(), Some("6000 Ω * 2"));
    assert_eq!(expand_cell("AnsAns", "1").as_deref(), Some("11"));
    assert_eq!(expand_cell("AAnss", "x").as_deref(), Some("Axs"));
    assert_eq!(expand_cell("An s", "x").as_deref(), Some("An s"));
    assert_eq!(expand_cell("Ans", "").as_deref(), Some(""));
}
