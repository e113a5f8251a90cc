use echo_core::text::{
    byte_len, chars_of, contains_char, has_prefix, index_at_byte, parse_u32, range_is, string_of,
    trim_range, width_of,
};

fn chars(s: &str) -> Vec<char> {
    s.chars().collect()
}

#[test]
fn characters_and_pieces_of_a_text() {
    assert_eq!(chars_of("héllo"), chars("héllo"));
    assert!(chars_of("").is_empty());
    let c = chars("héllo wörld");
    assert_eq!(string_of(&c, 0, 5), "héllo");
    assert_eq!(string_of(&c, 6, 11), "wörld");
    assert_eq!(string_of(&c, 3, 3), "");
    assert!(contains_char(&c, 'ö'));
    assert!(!contains_char(&c, '+'));
    assert!(range_is(&c, 0, 5, "héllo"));
    assert!(!range_is(&c, 0, 5, "hello"));
    assert!(!range_is(&c, 0, 4, "héllo"));
    assert!(has_prefix(&c, &chars("hé")));
    assert!(has_prefix(&c, &chars("")));
    assert!(!has_prefix(&c, &chars("he")));
    assert!(!has_prefix(&chars("h"), &chars("hé")));
}

#[test]
fn trimming_drops_white_space_at_both_ends() {
    for text in ["", " ", "a", "  a b  ", "\t\n x\u{3000}", "\u{a0}y\u{2003}", "no space", " \u{feff}z "] {
        let c = chars(text);
        let (from, to) = trim_range(&c, 0, c.len());
        assert_eq!(string_of(&c, from, to), text.trim(), "{:?}", text);
    }
    let c = chars("ab  cd  ef");
    let (from, to) = trim_range(&c, 2, 8);
    assert_eq!((from, to), (4, 6));
    assert_eq!(trim_range(&c, 2, 4), (4, 4));
}

#[test]
fn byte_lengths_are_those_of_utf8() {
    for c in ['a', '\u{7f}', '\u{80}', 'é', '\u{7ff}', '\u{800}', 'エ', '\u{ffff}', '\u{10000}', '🎤', '\u{10ffff}'] {
        assert_eq!(width_of(c) as usize, c.len_utf8(), "{:?}", c);
    }
    for text in ["", "echo", "エコー", "a🎤é"] {
        assert_eq!(byte_len(&chars(text)) as usize, text.len());
    }
    let c = chars("aé🎤z");
    assert_eq!(index_at_byte(&c, 0), Some(0));
    assert_eq!(index_at_byte(&c, 1), Some(1));
    assert_eq!(index_at_byte(&c, 2), None);
    assert_eq!(index_at_byte(&c, 3), Some(2));
    assert_eq!(index_at_byte(&c, 5), None);
    assert_eq!(index_at_byte(&c, 7), Some(3));
    assert_eq!(index_at_byte(&c, 8), Some(4));
    assert_eq!(index_at_byte(&c, 9), None);
    assert_eq!(index_at_byte(&chars(""), 0), Some(0));
}

#[test]
fn numbers_parse_as_u32_does() {
    for text in [
        "0", "7", "24", "007", "+5", "+", "", "-1", "1a", "a1", " 1", "1 ", "4294967295",
        "4294967296", "99999999999999999999", "++1", "1_0", "٣", "+0",
    ] {
        let c = chars(text);
        assert_eq!(parse_u32(&c, 0, c.len()), text.parse::<u32>().ok(), "{:?}", text);
    }
    assert_eq!(parse_u32(&chars("f12 "), 1, 3), Some(12));
    assert_eq!(parse_u32(&chars("f12 "), 1, 4), None);
    assert_eq!(parse_u32(&chars("f12"), 3, 3), None);
}
