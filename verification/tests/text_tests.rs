use devstackbox::text::{
    concat2, concat3, concat4, contains_text, decimal_chars, decimal_text, find, from_chars,
    has_suffix, is_digit_char, is_whitespace_char, matches_at, scan_line, scan_token,
    skip_whitespace, strip_char, to_chars, with_forward_slashes,
};

fn chars(text: &str) -> Vec<char> {
    text.chars().collect()
}

#[test]
fn characters_round_trip() {
    let text = "päth/ünï";
    assert_eq!(to_chars(text), chars(text));
    assert_eq!(from_chars(&chars(text)), text.to_string());
    assert_eq!(from_chars(&to_chars("")), String::new());
}

#[test]
fn find_gives_first_occurrence() {
    assert_eq!(find(&chars("abcabc"), &chars("bc")), Some(1));
    assert_eq!(find(&chars("abcabc"), &chars("abc")), Some(0));
    assert_eq!(find(&chars("abcabc"), &chars("cab")), Some(2));
    assert_eq!(find(&chars("abcabc"), &chars("abcabc")), Some(0));
}

#[test]
fn find_reports_absence() {
    assert_eq!(find(&chars("abcabc"), &chars("cb")), None);
    assert_eq!(find(&chars("abc"), &chars("abcd")), None);
    assert_eq!(find(&chars(""), &chars("a")), None);
}

#[test]
fn empty_pattern_stands_at_the_start() {
    assert_eq!(find(&chars("abc"), &chars("")), Some(0));
    assert_eq!(find(&chars(""), &chars("")), Some(0));
}

#[test]
fn matches_at_compares_the_window() {
    assert!(matches_at(&chars("hello"), &chars("ll"), 2));
    assert!(!matches_at(&chars("hello"), &chars("ll"), 1));
    assert!(matches_at(&chars("hello"), &chars(""), 5));
    assert!(!matches_at(&chars("hello"), &chars(""), 6));
    assert!(!matches_at(&chars("hello"), &chars("lo!"), 3));
    assert!(!matches_at(&chars("hello"), &chars("h"), usize::MAX));
}

#[test]
fn contains_text_agrees_with_find() {
    assert!(contains_text("php/8.2", "8.2"));
    assert!(!contains_text("php/8.2", "8.3"));
    assert!(contains_text("anything", ""));
}

#[test]
fn whitespace_is_recognised() {
    for c in [' ', '\t', '\n', '\u{b}', '\u{c}', '\r', '\u{85}', '\u{a0}', '\u{2003}', '\u{3000}'] {
        assert!(is_whitespace_char(c));
    }
    for c in ['a', '0', '.', '/', '\u{8}', '\u{e}', '\u{200b}'] {
        assert!(!is_whitespace_char(c));
    }
}

#[test]
fn whitespace_agrees_with_the_standard_library() {
    let mut code: u32 = 0;
    while code < 0x3100 {
        if let Some(c) = char::from_u32(code) {
            assert_eq!(is_whitespace_char(c), c.is_whitespace());
        }
        code += 1;
    }
}

#[test]
fn token_ends_at_whitespace_or_end() {
    let text = chars("Ver 8.0.35 for");
    assert_eq!(scan_token(&text, 4), 10);
    assert_eq!(scan_token(&text, 11), 14);
    assert_eq!(scan_token(&text, 3), 3);
    assert_eq!(scan_token(&text, 14), 14);
    assert_eq!(scan_token(&text, 20), 20);
}

#[test]
fn backslashes_become_slashes() {
    assert_eq!(with_forward_slashes(&chars("C:\\a\\b/c")), chars("C:/a/b/c"));
    assert_eq!(with_forward_slashes(&chars("")), chars(""));
    assert_eq!(with_forward_slashes(&chars("\\\\")), chars("//"));
}

#[test]
fn strip_char_drops_every_occurrence() {
    assert_eq!(strip_char(&chars("8.2"), '.'), chars("82"));
    assert_eq!(strip_char(&chars("8.2.12"), '.'), chars("8212"));
    assert_eq!(strip_char(&chars("..."), '.'), chars(""));
    assert_eq!(strip_char(&chars("82"), '.'), chars("82"));
}

#[test]
fn decimal_numerals() {
    assert_eq!(decimal_text(0), "0");
    assert_eq!(decimal_text(7), "7");
    assert_eq!(decimal_text(10), "10");
    assert_eq!(decimal_text(80), "80");
    assert_eq!(decimal_text(3306), "3306");
    assert_eq!(decimal_text(4294967295), "4294967295");
    assert_eq!(decimal_text(u64::MAX), u64::MAX.to_string());
    assert_eq!(decimal_chars(65535), chars("65535"));
}

#[test]
fn concatenation() {
    assert_eq!(concat2("a", "b"), "ab");
    assert_eq!(concat3("a", "", "c"), "ac");
    assert_eq!(concat4("a", "b", "c", "d"), "abcd");
}

#[test]
fn digits_are_recognised() {
    for c in ['0', '1', '5', '9'] {
        assert!(is_digit_char(c));
    }
    for c in ['/', ':', 'a', ' ', '\u{660}'] {
        assert!(!is_digit_char(c));
    }
}

#[test]
fn whitespace_is_skipped() {
    let text = chars("  \t a  b");
    assert_eq!(skip_whitespace(&text, 0), 4);
    assert_eq!(skip_whitespace(&text, 4), 4);
    assert_eq!(skip_whitespace(&text, 5), 7);
    assert_eq!(skip_whitespace(&text, 8), 8);
    assert_eq!(skip_whitespace(&text, 30), 30);
    assert_eq!(skip_whitespace(&chars("   "), 0), 3);
}

#[test]
fn line_ends_at_line_feed_or_end() {
    let text = chars("ab\ncd\r\n\nef");
    assert_eq!(scan_line(&text, 0), 2);
    assert_eq!(scan_line(&text, 2), 2);
    assert_eq!(scan_line(&text, 3), 6);
    assert_eq!(scan_line(&text, 7), 7);
    assert_eq!(scan_line(&text, 8), 10);
    assert_eq!(scan_line(&text, 10), 10);
    assert_eq!(scan_line(&text, 99), 99);
}

#[test]
fn suffix_is_recognised() {
    assert!(has_suffix(&chars("0.0.0.0:80"), &chars(":80")));
    assert!(has_suffix(&chars(":80"), &chars(":80")));
    assert!(has_suffix(&chars("abc"), &chars("")));
    assert!(!has_suffix(&chars("80"), &chars(":80")));
    assert!(!has_suffix(&chars("0.0.0.0:8080"), &chars(":80")));
    assert!(!has_suffix(&chars("0.0.0.0:80 "), &chars(":80")));
}
