use imir::text::{
    char_is_whitespace, chars_lt, copy_chars, find_first, find_from, key_before, matches_at,
    position_from, split_lines, text_before, text_eq, to_chars, to_text, trim_bounds, trimmed,
};

fn chars(text: &str) -> Vec<char> {
    text.chars().collect()
}

#[test]
fn whitespace_is_the_unicode_property() {
    for code in 0..=0x10FFFFu32 {
        if let Some(c) = char::from_u32(code) {
            assert_eq!(char_is_whitespace(c), c.is_whitespace(), "U+{code:04X}");
        }
    }
}

#[test]
fn trimming_removes_whitespace_at_both_ends_only() {
    for text in [
        "",
        " ",
        "a",
        " a ",
        "\t a b \n",
        "\u{3000}x\u{2003}y\u{00A0}",
        "\u{FEFF}x ",
        "  leading",
        "trailing\r\n",
        "in  ner",
    ] {
        assert_eq!(trimmed(text), text.trim(), "{text:?}");
        let held = chars(text);
        let (start, end) = trim_bounds(&held);
        assert_eq!(to_text(&held, start, end), text.trim());
    }
}

#[test]
fn texts_are_copied_character_by_character() {
    let text = "héllo, wörld ✓";
    let held = to_chars(text);
    assert_eq!(held, chars(text));
    assert_eq!(to_text(&held, 0, held.len()), text);
    assert_eq!(to_text(&held, 1, 5), "éllo");
    assert_eq!(copy_chars(&held, 7, 12), chars("wörld"));
    assert!(text_eq("a✓", "a✓"));
    assert!(!text_eq("a", "a "));
    assert!(!text_eq("ab", "ba"));
}

#[test]
fn the_first_occurrence_is_found() {
    let cases = [
        ("", ""),
        ("abc", ""),
        ("", "a"),
        ("abcabc", "bc"),
        ("abcabc", "cab"),
        ("abcabc", "abcabc"),
        ("abcabc", "abcabcd"),
        ("aaa", "aa"),
        ("héé", "é"),
        ("x.svg.svg", ".svg"),
    ];
    for (hay, needle) in cases {
        let expected = hay.find(needle).map(|at| hay[..at].chars().count());
        assert_eq!(find_first(&chars(hay), &chars(needle)), expected, "{needle:?} in {hay:?}");
    }
    let hay = chars("abcabc");
    assert_eq!(find_from(&hay, &chars("bc"), 2), Some(4));
    assert_eq!(find_from(&hay, &chars("bc"), 5), None);
    assert_eq!(find_from(&hay, &chars(""), 6), Some(6));
    assert_eq!(find_from(&hay, &chars(""), 7), None);
    assert!(matches_at(&hay, &chars("ca"), 2));
    assert!(!matches_at(&hay, &chars("ca"), 5));
    assert_eq!(position_from(&hay, 'c', 3), 5);
    assert_eq!(position_from(&hay, 'z', 0), 6);
}

#[test]
fn lines_end_at_line_feeds() {
    for text in [
        "",
        "\n",
        "a",
        "a\n",
        "a\nb",
        "a\r\nb\r\n",
        "a\n\nb",
        "\r\n",
        "a\r",
        "a\r\r\n",
        "\n\n",
        "x\ny\r",
    ] {
        let expected: Vec<Vec<char>> = text.lines().map(chars).collect();
        assert_eq!(split_lines(&chars(text)), expected, "{text:?}");
    }
}

#[test]
fn texts_are_ordered_like_strings() {
    let samples = ["", "a", "A", "ab", "b", "é", "z", "aa", "a ", "\u{10FFFF}", "a\u{0}"];
    for a in samples {
        for b in samples {
            assert_eq!(text_before(a, b), a < b, "{a:?} < {b:?}");
            assert_eq!(chars_lt(&chars(a), &chars(b)), a < b);
        }
    }
    let keys = [("a", None), ("a", Some("")), ("a", Some("b")), ("b", None), ("", Some("z"))];
    for (a, b) in keys {
        for (c, d) in keys {
            assert_eq!(key_before(a, b, c, d), (a, b) < (c, d), "{a:?} {b:?} {c:?} {d:?}");
        }
    }
}
