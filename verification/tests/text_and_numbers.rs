use myip_foo::{parse_i64, trimmed};

#[test]
fn trimming_strips_padding_at_both_ends() {
    assert_eq!(trimmed(" 1.2.3.4\n"), "1.2.3.4");
    assert_eq!(trimmed("\r\n\t 2001:db8::1 \t\r\n"), "2001:db8::1");
}

#[test]
fn trimming_leaves_an_unpadded_body_alone() {
    assert_eq!(trimmed("1.2.3.4"), "1.2.3.4");
}

#[test]
fn trimming_keeps_inner_padding() {
    assert_eq!(trimmed("  a b  "), "a b");
}

#[test]
fn trimming_strips_every_unicode_whitespace() {
    // vertical tab, form feed, next line, no-break space, ogham space mark,
    // the en-quad..hair-space run, line and paragraph separators, narrow
    // no-break space, medium mathematical space, ideographic space
    let padded = "\u{B}\u{C}\u{85}\u{A0}\u{1680}\u{2000}\u{2005}\u{200A}1.2.3.4\u{2028}\u{2029}\u{202F}\u{205F}\u{3000}";
    assert_eq!(trimmed(padded), padded.trim());
    assert_eq!(trimmed(padded), "1.2.3.4");
}

#[test]
fn trimming_keeps_non_whitespace_controls() {
    // zero-width space and word joiner are not Unicode whitespace
    assert_eq!(trimmed("\u{200B}x\u{2060}"), "\u{200B}x\u{2060}");
}

#[test]
fn trimming_a_padding_only_body_gives_empty_text() {
    assert_eq!(trimmed(" \t\r\n"), "");
    assert_eq!(trimmed("\u{C}\u{A0}\u{3000}"), "");
    assert_eq!(trimmed(""), "");
}

#[test]
fn integers_parse_exactly() {
    assert_eq!(parse_i64("64512"), Some(64512));
    assert_eq!(parse_i64("0"), Some(0));
    assert_eq!(parse_i64("007"), Some(7));
    assert_eq!(parse_i64("-7"), Some(-7));
    assert_eq!(parse_i64("9223372036854775807"), Some(i64::MAX));
    assert_eq!(parse_i64("-9223372036854775808"), Some(i64::MIN));
}

#[test]
fn non_integers_do_not_parse() {
    assert_eq!(parse_i64(""), None);
    assert_eq!(parse_i64("-"), None);
    assert_eq!(parse_i64("+5"), None);
    assert_eq!(parse_i64("1.5"), None);
    assert_eq!(parse_i64("12a"), None);
    assert_eq!(parse_i64("9223372036854775808"), None);
    assert_eq!(parse_i64("-9223372036854775809"), None);
    assert_eq!(parse_i64("99999999999999999999999999999999999999999999"), None);
}
