use yomiage::text::{is_valid_target_id, parse_u64, split_lines, trim_chars, trim_trailing_slashes};

fn lines(text: &str) -> Vec<String> {
    split_lines(text).iter().map(|l| l.iter().collect()).collect()
}

#[test]
fn target_id_characters() {
    assert!(is_valid_target_id("sample"));
    assert!(is_valid_target_id("Sample-01_x"));
    assert!(!is_valid_target_id(""));
    assert!(!is_valid_target_id("a b"));
    assert!(!is_valid_target_id("a/b"));
    assert!(!is_valid_target_id("日本"));
    assert!(!is_valid_target_id("a.b"));
}

#[test]
fn lines_split_like_str_lines() {
    for text in ["", "a", "a\n", "a\nb", "a\r\nb\r\n", "\n", "\n\n", "a\rb", "a\n\nb\r", "x\r"] {
        let expected: Vec<String> = text.lines().map(|l| l.to_string()).collect();
        assert_eq!(lines(text), expected, "text {:?}", text);
    }
}

#[test]
fn trimming_removes_unicode_whitespace() {
    let trimmed: String = trim_chars(&"\u{3000} こんにちは\t \r".chars().collect::<Vec<_>>())
        .iter()
        .collect();
    assert_eq!(trimmed, "こんにちは");
    assert!(trim_chars(&" \t ".chars().collect::<Vec<_>>()).is_empty());
    let inner: String = trim_chars(&"a b".chars().collect::<Vec<_>>()).iter().collect();
    assert_eq!(inner, "a b");
}

#[test]
fn decimal_parsing_matches_std() {
    for s in [
        "300", "+5", "0", "", "+", "-1", "1a", "18446744073709551615", "18446744073709551616",
        "99999999999999999999x", "007",
    ] {
        assert_eq!(parse_u64(s), s.parse::<u64>().ok(), "input {:?}", s);
    }
}

#[test]
fn trailing_slashes_are_removed() {
    assert_eq!(trim_trailing_slashes("http://host:1//"), "http://host:1");
    assert_eq!(trim_trailing_slashes("http://host"), "http://host");
    assert_eq!(trim_trailing_slashes("///"), "");
}

#[test]
fn whitespace_set_matches_std() {
    for code in 0u32..0x3100 {
        if let Some(c) = char::from_u32(code) {
            assert_eq!(yomiage::text::is_whitespace(c), c.is_whitespace(), "U+{:04X}", code);
        }
    }
}
