use git_control::text::{
    contains, decimal_text, first_word, join_with, not_after, remove_parts, starts_with,
    strip_heads, strip_tail, to_ascii_lower, trim,
};

#[test]
fn white_space_is_trimmed_as_elsewhere() {
    let spaces = "\u{9}\u{a}\u{b}\u{c}\u{d} \u{85}\u{a0}\u{1680}\u{2000}\u{2001}\u{2002}\u{2003}\
                  \u{2004}\u{2005}\u{2006}\u{2007}\u{2008}\u{2009}\u{200a}\u{2028}\u{2029}\
                  \u{202f}\u{205f}\u{3000}";
    let padded = format!("{spaces}a b{spaces}");
    assert_eq!(trim(&padded), "a b");
    assert_eq!(trim(spaces), "");
    assert_eq!(trim(""), "");
    for kept in ["\u{200b}x", "\u{180e}x", "\u{feff}x", "\u{1f}x"] {
        assert_eq!(trim(kept), kept);
        assert_eq!(trim(kept), kept.trim());
    }
    for code in 0..=0x3100u32 {
        if let Some(c) = char::from_u32(code) {
            let one = c.to_string();
            assert_eq!(trim(&one), one.trim());
        }
    }
}

#[test]
fn parts_are_found() {
    assert!(contains("abc", "bc"));
    assert!(contains("abc", ""));
    assert!(contains("aab", "ab"));
    assert!(!contains("abc", "ac"));
    assert!(!contains("", "a"));
    assert!(starts_with("feature", "feat"));
    assert!(!starts_with("fea", "feat"));
    assert!(starts_with("x", ""));
}

#[test]
fn parts_are_taken_off() {
    assert_eq!(strip_heads("aaab", "a"), "b");
    assert_eq!(strip_heads("baa", "a"), "baa");
    assert_eq!(remove_parts("a-b--c", "-"), "abc");
    assert_eq!(remove_parts("xaxax", "xax"), "ax");
    assert_eq!(remove_parts("abc", "d"), "abc");
    assert_eq!(strip_tail("fix::", ':'), "fix");
    assert_eq!(strip_tail("fix", ':'), "fix");
}

#[test]
fn words_and_case() {
    assert_eq!(first_word("  feat: x"), "feat:");
    assert_eq!(first_word("   "), "");
    assert_eq!(first_word("one"), "one");
    assert_eq!(to_ascii_lower("FiX É"), "fix É");
}

#[test]
fn texts_are_ordered_by_code_points() {
    let mut texts = vec!["b", "", "a", "Z", "ab", "é", "z", "\u{ffff}", "\u{10000}", "a"];
    for a in &texts {
        for b in &texts {
            assert_eq!(not_after(a, b), a <= b);
        }
    }
    texts.sort();
    assert_eq!(texts[0], "");
}

#[test]
fn numbers_and_lists_are_written_out() {
    for n in [0, 7, 10, 99, 100, 1_234_567_890, usize::MAX] {
        assert_eq!(decimal_text(n), n.to_string());
    }
    let parts = vec!["a".to_owned(), "b".to_owned(), "c".to_owned()];
    assert_eq!(join_with(&parts, ", "), "a, b, c");
    assert_eq!(join_with(&Vec::new(), ", "), "");
}
