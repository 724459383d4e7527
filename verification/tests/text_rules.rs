use clip_translator::text::{char_is_white_space, chars_of, trim, truncate};

#[test]
fn white_space_matches_std_for_every_char() {
    for u in 0u32..=0x10FFFF {
        if let Some(c) = char::from_u32(u) {
            assert_eq!(char_is_white_space(c), c.is_whitespace(), "U+{:04X}", u);
        }
    }
}

#[test]
fn chars_of_keeps_every_char_in_order() {
    assert_eq!(chars_of("aあ\n"), vec!['a', 'あ', '\n']);
    assert_eq!(chars_of(""), Vec::<char>::new());
}

#[test]
fn trim_removes_outer_white_space() {
    assert_eq!(trim("  hello world \n"), "hello world");
    assert_eq!(trim("\u{3000}日本語\u{3000}"), "日本語");
    assert_eq!(trim("\t a  b \r\n"), "a  b");
}

#[test]
fn trim_of_blank_text_is_empty() {
    assert_eq!(trim(""), "");
    assert_eq!(trim(" \t\n\u{00A0}\u{2028}"), "");
}

#[test]
fn trim_agrees_with_str_trim() {
    let samples = [
        "",
        "x",
        "  x",
        "x  ",
        " \u{85}mid dle\u{205F} ",
        "\u{200B}zero width is not white space\u{200B}",
        "\u{1680}\u{2000}\u{200A}a\u{202F}",
    ];
    for s in samples {
        assert_eq!(trim(s), s.trim(), "{:?}", s);
    }
}

#[test]
fn trim_is_idempotent() {
    let once = trim("  \n text \t ");
    assert_eq!(trim(&once), once);
}

#[test]
fn truncate_keeps_short_text() {
    assert_eq!(truncate("abc", 5), "abc");
    assert_eq!(truncate("abc", 3), "abc");
    assert_eq!(truncate("", 0), "");
}

#[test]
fn truncate_cuts_long_text_and_adds_ellipsis() {
    assert_eq!(truncate("abcdef", 3), "abc\u{2026}");
    assert_eq!(truncate("abcd", 0), "\u{2026}");
}

#[test]
fn truncate_counts_characters_not_bytes() {
    assert_eq!(truncate("あいうえお", 2), "あい\u{2026}");
    assert_eq!(truncate("あいう", 3), "あいう");
    let cut = truncate(&"x".repeat(100), 60);
    assert_eq!(cut.chars().count(), 61);
    assert!(cut.ends_with('\u{2026}'));
}
