use warp_pane_activity::text::{char_is_white_space, str_eq, trim, u32_to_decimal};

#[test]
fn decimal_matches_display() {
    for n in [0u32, 7, 10, 99, 100, 4096, 1_000_000, u32::MAX] {
        assert_eq!(u32_to_decimal(n), n.to_string());
    }
}

#[test]
fn trim_matches_std() {
    for s in [
        "", "   ", " a ", "\t\nab c\r\n", "\u{a0}x\u{3000}", "\u{200b}x", "x\u{85}", "no-space",
        "\u{2000}\u{200a} y \u{2028}\u{2029}\u{202f}\u{205f}\u{1680}",
    ] {
        assert_eq!(trim(s), s.trim());
    }
}

#[test]
fn white_space_matches_std() {
    for c in ['\t', '\n', '\u{b}', '\u{c}', '\r', ' ', '\u{85}', '\u{a0}', '\u{1680}', '\u{2000}',
        '\u{2005}', '\u{200a}', '\u{2028}', '\u{2029}', '\u{202f}', '\u{205f}', '\u{3000}', 'a',
        '\u{200b}', '\u{feff}', '\u{180e}', '0']
    {
        assert_eq!(char_is_white_space(c), c.is_whitespace(), "{c:?}");
    }
}

#[test]
fn string_equality() {
    assert!(str_eq("abc", "abc"));
    assert!(!str_eq("abc", "abd"));
    assert!(!str_eq("ab", "abc"));
    assert!(str_eq("", ""));
}
