use blog_api::sql::like_pattern;
use blog_api::text::{chars_of, contains_chars, same_text, string_of};

fn contains(hay: &str, needle: &str) -> bool {
    contains_chars(&chars_of(hay), &chars_of(needle))
}

#[test]
fn contains_finds_a_part_anywhere() {
    assert!(contains("hello world", "hello"));
    assert!(contains("hello world", "o w"));
    assert!(contains("hello world", "world"));
    assert!(contains("hello world", "hello world"));
    assert!(!contains("hello world", "worlds"));
    assert!(!contains("hello world", "hello world!"));
    assert!(!contains("abc", "ac"));
}

#[test]
fn contains_finds_the_empty_text_everywhere() {
    assert!(contains("abc", ""));
    assert!(contains("", ""));
    assert!(!contains("", "a"));
}

#[test]
fn contains_compares_characters_exactly() {
    assert!(!contains("Hello", "hello"));
    assert!(contains("na\u{ef}ve caf\u{e9}", "\u{ef}ve c"));
    assert!(!contains("naive", "\u{ef}"));
    assert!(contains("aaab", "aab"));
}

#[test]
fn contains_agrees_with_the_standard_library() {
    let texts = ["", "a", "ab", "aab", "abab", "b\u{e9}b\u{e9}", "%_\\"];
    for hay in texts {
        for needle in texts {
            assert_eq!(contains(hay, needle), hay.contains(needle), "{:?} {:?}", hay, needle);
        }
    }
}

#[test]
fn chars_of_and_string_of_go_by_characters() {
    let chars = chars_of("h\u{e9}llo");
    assert_eq!(chars, vec!['h', '\u{e9}', 'l', 'l', 'o']);
    assert_eq!(string_of(&chars, 1, 3), "\u{e9}l");
    assert_eq!(string_of(&chars, 0, 5), "h\u{e9}llo");
    assert_eq!(string_of(&chars, 2, 2), "");
    assert_eq!(chars_of(""), Vec::<char>::new());
}

#[test]
fn same_text_compares_all_characters() {
    assert!(same_text("GET", "GET"));
    assert!(same_text("", ""));
    assert!(!same_text("GET", "get"));
    assert!(!same_text("GET", "GE"));
    assert!(!same_text("GE", "GET"));
    assert!(!same_text("/post", "/posts"));
}

#[test]
fn like_pattern_wraps_in_percent_signs() {
    assert_eq!(like_pattern(""), "%%");
    assert_eq!(like_pattern("rust"), "%rust%");
    assert_eq!(like_pattern("two words"), "%two words%");
}

#[test]
fn like_pattern_escapes_the_special_characters() {
    assert_eq!(like_pattern("50%"), "%50\\%%");
    assert_eq!(like_pattern("a_b"), "%a\\_b%");
    assert_eq!(like_pattern("c:\\dir"), "%c:\\\\dir%");
    assert_eq!(like_pattern("%_\\"), "%\\%\\_\\\\%");
}
