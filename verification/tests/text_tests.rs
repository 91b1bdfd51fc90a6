use sprout::text::{
    contains_text, decimal_string, is_blank, is_white_space, numbered, trim_text,
};

#[test]
fn white_space_is_the_unicode_property() {
    for c in ['\t', '\n', '\u{b}', '\u{c}', '\r', ' ', '\u{85}', '\u{a0}', '\u{1680}', '\u{2000}',
        '\u{200a}', '\u{2028}', '\u{2029}', '\u{202f}', '\u{205f}', '\u{3000}'] {
        assert!(is_white_space(c), "{:?}", c);
        assert!(c.is_whitespace());
    }
    for c in ['a', '0', '\u{200b}', '\u{180e}', '\u{feff}', '_'] {
        assert!(!is_white_space(c), "{:?}", c);
        assert_eq!(c.is_whitespace(), is_white_space(c));
    }
}

#[test]
fn trim_matches_str_trim() {
    for s in ["", "   ", "  Intel(R) Core(TM) i7  ", "x", "\u{3000}mid dle\t\n", "a b"] {
        assert_eq!(trim_text(s), s.trim());
        assert_eq!(is_blank(s), s.trim().is_empty());
    }
}

#[test]
fn decimal_numerals() {
    assert_eq!(decimal_string(0), "0");
    assert_eq!(decimal_string(7), "7");
    assert_eq!(decimal_string(10), "10");
    assert_eq!(decimal_string(8477), "8477");
    assert_eq!(decimal_string(u64::MAX), u64::MAX.to_string());
    assert_eq!(numbered("Vulkan", 12), "Vulkan12");
    assert_ne!(decimal_string(12), decimal_string(21));
}

#[test]
fn contains_finds_runs() {
    assert!(contains_text("amd radeon pro", "radeon"));
    assert!(contains_text("abc", ""));
    assert!(contains_text("abc", "abc"));
    assert!(!contains_text("ab", "abc"));
    assert!(!contains_text("intel iris", "amd"));
}
