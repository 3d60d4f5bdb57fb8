use indextts_launcher::text::{
    char_is_whitespace, chars_of, contains, decimal, first_word, join, nonblank_lines, split, trim,
};

#[test]
fn decimal_matches_display() {
    for n in [0u64, 1, 9, 10, 11, 99, 100, 101, 7860, 65535, 1_000_000, u64::MAX] {
        assert_eq!(decimal(n), n.to_string());
    }
}

#[test]
fn join_matches_std() {
    let none: Vec<String> = vec![];
    assert_eq!(join(&none, "\n"), "");
    assert_eq!(join(&vec!["a".to_string()], "\n"), "a");
    assert_eq!(join(&vec!["a".to_string(), "".to_string(), "c".to_string()], ", "), "a, , c");
}

#[test]
fn trim_matches_std() {
    for text in ["", " ", "a", "  a b \t\r\n", "\u{a0}x\u{3000}", "\u{2003}中 文\u{2028}", "no-space", "\u{200b}x"] {
        assert_eq!(trim(text), text.trim(), "{:?}", text);
    }
}

#[test]
fn whitespace_matches_std() {
    for code in 0u32..0x3100 {
        if let Some(c) = char::from_u32(code) {
            assert_eq!(char_is_whitespace(c), c.is_whitespace(), "U+{:04X}", code);
        }
    }
    assert!(!char_is_whitespace('\u{feff}'));
    assert!(!char_is_whitespace('\u{10ffff}'));
}

#[test]
fn split_matches_std() {
    for text in ["", "a", "a:b", ":", "a::b:", "GPU: NVIDIA: x", "одно:два"] {
        let expected: Vec<String> = text.split(':').map(|s| s.to_string()).collect();
        assert_eq!(split(text, ':'), expected, "{:?}", text);
    }
}

#[test]
fn nonblank_lines_match_lines_trim_filter() {
    for text in ["", "\n", "123\n456\n", " 12 \r\n\r\n\t34", "1\n\n\n2", "  \n  ", "7\r"] {
        let expected: Vec<String> = text
            .lines()
            .map(|line| line.trim())
            .filter(|line| !line.is_empty())
            .map(|line| line.to_string())
            .collect();
        assert_eq!(nonblank_lines(text), expected, "{:?}", text);
    }
}

#[test]
fn contains_matches_std() {
    let cases = [
        ("", ""),
        ("abc", ""),
        ("", "a"),
        ("abc", "abc"),
        ("abc", "bc"),
        ("abc", "abcd"),
        ("aab", "ab"),
        ("torch.cuda.is_available(): True\n", "torch.cuda.is_available(): True"),
        ("torch.cuda.is_available(): False\n", "torch.cuda.is_available(): True"),
        ("显存 VRAM: 8", "VRAM:"),
    ];
    for (haystack, needle) in cases {
        assert_eq!(contains(haystack, needle), haystack.contains(needle), "{:?} {:?}", haystack, needle);
    }
}

#[test]
fn first_word_matches_split_whitespace() {
    for text in ["", "   ", "12.5 GB", "  8.0\tGB", "x", "\u{a0}a\u{a0}b"] {
        let expected = text.trim().split_whitespace().next().map(|s| s.to_string());
        assert_eq!(first_word(text), expected, "{:?}", text);
    }
}

#[test]
fn chars_of_lists_characters() {
    assert_eq!(chars_of("a中b"), vec!['a', '中', 'b']);
    assert_eq!(chars_of(""), Vec::<char>::new());
}
