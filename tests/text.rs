use lando_gui::text::{
    chars_of, first_word_of, is_blank, lines, parse_i32, replace, text_contains, to_decimal, trim,
};

fn chars(s: &str) -> Vec<char> {
    s.chars().collect()
}

fn text(v: &[char]) -> String {
    v.iter().collect()
}

#[test]
fn lines_match_std() {
    for s in ["", "a", "a\n", "a\r\nb", "a\n\nb\n", "\n", "x\r", "a\rb\n"] {
        let ours: Vec<String> = lines(&chars(s)).iter().map(|l| text(l)).collect();
        let std: Vec<String> = s.lines().map(|l| l.to_string()).collect();
        assert_eq!(ours, std, "lines of {:?}", s);
    }
}

#[test]
fn parse_i32_matches_std() {
    for s in [
        "0", "42", "-7", "+8", "-", "+", "", "2147483647", "2147483648", "-2147483648",
        "-2147483649", "12a", " 1", "007", "99999999999999999999",
    ] {
        assert_eq!(parse_i32(&chars(s)), s.parse::<i32>().ok(), "parse of {:?}", s);
    }
}

#[test]
fn first_word_skips_unicode_space() {
    let w = first_word_of(&chars("\u{3000} \tword\u{a0}rest")).unwrap();
    assert_eq!(text(&w), "word");
    assert!(first_word_of(&chars(" \u{2028}\n")).is_none());
}

#[test]
fn trim_matches_std() {
    for s in ["  a b  ", "\u{85}x\u{205f}", "", "   ", "y"] {
        assert_eq!(trim(s), s.trim());
        assert_eq!(is_blank(s), s.trim().is_empty());
    }
}

#[test]
fn replace_matches_std() {
    for (s, p, t) in [("aaa", "aa", "b"), ("a,b,,c", ",", ", "), ("", "x", "y"), ("xyx", "xyx", "")] {
        assert_eq!(text(&replace(&chars(s), &chars(p), &chars(t))), s.replace(p, t));
    }
}

#[test]
fn decimal_text() {
    assert_eq!(to_decimal(0), "0");
    assert_eq!(to_decimal(1050), "1050");
    assert_eq!(to_decimal(u128::MAX), u128::MAX.to_string());
}

#[test]
fn contains_and_chars() {
    assert_eq!(chars_of("héllo"), vec!['h', 'é', 'l', 'l', 'o']);
    assert!(text_contains(&"abc".to_string(), &"".to_string()));
    assert!(text_contains(&"abc".to_string(), &"bc".to_string()));
    assert!(!text_contains(&"abc".to_string(), &"abcd".to_string()));
}
