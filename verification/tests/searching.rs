use start_link::text::{chars_of, find, join, matches_at, whitespace};

fn chars(text: &str) -> Vec<char> {
    text.chars().collect()
}

#[test]
fn find_first_occurrence() {
    assert_eq!(find(&chars("abcabc"), &chars("bc")), Some(1));
    assert_eq!(find(&chars("abcabc"), &chars("abc")), Some(0));
    assert_eq!(find(&chars("aab"), &chars("ab")), Some(1));
    assert_eq!(find(&chars("xxr="), &chars("r=")), Some(2));
}

#[test]
fn find_nothing() {
    assert_eq!(find(&chars("abc"), &chars("cb")), None);
    assert_eq!(find(&chars("ab"), &chars("abc")), None);
    assert_eq!(find(&chars(""), &chars("a")), None);
    assert_eq!(find(&chars("r"), &chars("r=")), None);
}

#[test]
fn find_empty_pattern_at_the_start() {
    assert_eq!(find(&chars("abc"), &chars("")), Some(0));
    assert_eq!(find(&chars(""), &chars("")), Some(0));
}

#[test]
fn find_whole_text_and_last_position() {
    assert_eq!(find(&chars("abc"), &chars("abc")), Some(0));
    assert_eq!(find(&chars("abc"), &chars("c")), Some(2));
}

#[test]
fn find_agrees_with_std_on_ascii() {
    for text in ["", "r=", "q=r=", "aaaa", "abababc", "r=abc&q=def"] {
        for pattern in ["r=", "q=", "a", "abc", "ab", "c&q"] {
            assert_eq!(find(&chars(text), &chars(pattern)), text.find(pattern));
        }
    }
}

#[test]
fn matches_at_position() {
    assert!(matches_at(&chars("abcabc"), &chars("bc"), 1));
    assert!(matches_at(&chars("abcabc"), &chars("bc"), 4));
    assert!(!matches_at(&chars("abcabc"), &chars("bc"), 0));
    assert!(matches_at(&chars("abc"), &chars(""), 3));
}

#[test]
fn chars_of_text() {
    assert_eq!(chars_of(""), Vec::<char>::new());
    assert_eq!(chars_of("r=\u{e9}\u{2603}"), vec!['r', '=', '\u{e9}', '\u{2603}']);
}

#[test]
fn whitespace_is_what_unicode_says() {
    for code in 0..=0x10FFFFu32 {
        if let Some(c) = char::from_u32(code) {
            assert_eq!(whitespace(c), c.is_whitespace(), "U+{:04X}", code);
        }
    }
}

#[test]
fn join_with_separator() {
    let parts = vec!["a".to_string(), "bc".to_string(), "".to_string(), "d".to_string()];
    assert_eq!(join(&parts, "&"), "a&bc&&d");
    assert_eq!(join(&parts, ", "), "a, bc, , d");
    assert_eq!(join(&parts, ""), "abcd");
}

#[test]
fn join_none_or_one() {
    assert_eq!(join(&Vec::new(), "&"), "");
    assert_eq!(join(&vec!["a".to_string()], "&"), "a");
    assert_eq!(join(&vec!["".to_string()], "&"), "");
    assert_eq!(join(&vec!["".to_string(), "".to_string()], "&"), "&");
}
