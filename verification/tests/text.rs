use matrix_relay::text::{eq_ignore_ascii_case, is_white_space_char, trim, trim_end};

#[test]
fn trim_removes_unicode_white_space_at_both_ends() {
    assert_eq!(trim("  a b  "), "a b");
    assert_eq!(trim("\u{2028}\u{205f}x\u{1680}"), "x");
    assert_eq!(trim("   "), "");
    assert_eq!(trim(""), "");
    assert_eq!(trim("\u{200b}x"), "\u{200b}x");
}

#[test]
fn trim_end_keeps_leading_white_space() {
    assert_eq!(trim_end("  {\"a\":1}\r\n"), "  {\"a\":1}");
    assert_eq!(trim_end("\n\n"), "");
}

#[test]
fn white_space_agrees_with_std() {
    for c in ['\t', '\n', '\u{b}', '\u{c}', '\r', ' ', '\u{85}', '\u{a0}', '\u{1680}', '\u{2000}',
        '\u{200a}', '\u{2028}', '\u{2029}', '\u{202f}', '\u{205f}', '\u{3000}', 'a', '\u{200b}',
        '\u{feff}', '\u{180e}', '0', '\u{1f}']
    {
        assert_eq!(is_white_space_char(c), c.is_whitespace(), "{:?}", c);
    }
}

#[test]
fn eq_ignore_ascii_case_folds_ascii_letters_only() {
    assert!(eq_ignore_ascii_case("HeLp", "help"));
    assert!(eq_ignore_ascii_case("Straße", "STRAßE"));
    assert!(!eq_ignore_ascii_case("straße", "STRASSE"));
    assert!(!eq_ignore_ascii_case("é", "É"));
    assert!(!eq_ignore_ascii_case("help", "hel"));
    assert!(eq_ignore_ascii_case("", ""));
}
