use ernest::text::{
    begins_with, blank, chars_of, contains, decimal_text, ends_with_char, find_from,
    first_word_of, is_whitespace, join2, join3, matches_at, same_text, skip_chars, slice_of,
    starts_with, string_from, strip_chars, trim, trim_bounds, trim_chars,
};

fn chars(s: &str) -> Vec<char> {
    s.chars().collect()
}

#[test]
fn whitespace_agrees_with_std_on_every_char() {
    let mut code: u32 = 0;
    while code <= 0x10FFFF {
        if let Some(c) = char::from_u32(code) {
            assert_eq!(is_whitespace(c), c.is_whitespace(), "U+{:04X}", code);
        }
        code += 1;
    }
}

#[test]
fn trim_removes_white_space_at_both_ends() {
    assert_eq!(trim("  a b \n"), "a b");
    assert_eq!(trim("\u{3000}x\u{00A0}"), "x");
    assert_eq!(trim("plain"), "plain");
    assert_eq!(trim(" \t\r\n"), "");
    assert_eq!(trim(""), "");
}

#[test]
fn trim_agrees_with_std() {
    let samples = [" a", "a ", "  é  ", "\u{2028}line\u{2029}", "a  b", "\u{200B}x"];
    for s in samples {
        assert_eq!(trim(s), s.trim());
    }
}

#[test]
fn trim_bounds_and_trim_chars() {
    let v = chars("  ab ");
    assert_eq!(trim_bounds(&v), (2, 4));
    assert_eq!(trim_chars(&v), chars("ab"));
    let all = chars("   ");
    let (a, b) = trim_bounds(&all);
    assert_eq!(a, b);
}

#[test]
fn blank_tells_empty_and_white_space() {
    assert!(blank(""));
    assert!(blank("  \t\n"));
    assert!(!blank(" x "));
}

#[test]
fn chars_and_strings_round_trip() {
    let v = chars_of("héllo");
    assert_eq!(v, vec!['h', 'é', 'l', 'l', 'o']);
    assert_eq!(string_from(&v, 1, 4), "éll");
    assert_eq!(string_from(&v, 2, 2), "");
    assert_eq!(slice_of(&v, 0, 2), vec!['h', 'é']);
}

#[test]
fn contains_finds_substrings() {
    assert!(contains("On branch main\nnothing to commit, working tree clean", "nothing to commit"));
    assert!(!contains("nothing to", "nothing to commit"));
    assert!(contains("abc", ""));
    assert!(contains("", ""));
    assert!(!contains("", "a"));
    assert!(contains("aab", "ab"));
}

#[test]
fn find_from_gives_the_first_index() {
    let s = chars("a](b)](c)");
    let pat = chars("](");
    assert_eq!(find_from(&s, &pat, 0), Some(1));
    assert_eq!(find_from(&s, &pat, 1), Some(1));
    assert_eq!(find_from(&s, &pat, 2), Some(5));
    assert_eq!(find_from(&s, &pat, 6), None);
    assert_eq!(find_from(&s, &pat, 100), None);
    let empty: Vec<char> = Vec::new();
    assert_eq!(find_from(&s, &empty, 9), Some(9));
    assert_eq!(find_from(&s, &empty, 10), None);
}

#[test]
fn matches_at_checks_one_place() {
    let s = chars("hello");
    assert!(matches_at(&s, &chars("ell"), 1));
    assert!(!matches_at(&s, &chars("ell"), 0));
    assert!(!matches_at(&s, &chars("lo!"), 3));
    assert!(!matches_at(&s, &chars("o"), 5));
    assert!(matches_at(&s, &chars(""), 5));
    assert!(!matches_at(&s, &chars(""), 6));
}

#[test]
fn prefixes_and_last_characters() {
    assert!(starts_with("git@github.com:a/b.git", "git@"));
    assert!(!starts_with("https://x", "git@"));
    assert!(!starts_with("gi", "git@"));
    assert!(begins_with(&chars("mailto:a@b"), "mailto:"));
    assert!(ends_with_char("/srv/www/", '/'));
    assert!(!ends_with_char("/srv/www", '/'));
    assert!(!ends_with_char("", '/'));
}

#[test]
fn same_text_compares_characters() {
    assert!(same_text("abc", "abc"));
    assert!(!same_text("abc", "abd"));
    assert!(!same_text("abc", "ab"));
    assert!(same_text("", ""));
}

#[test]
fn decimal_text_writes_numbers() {
    assert_eq!(decimal_text(0), "0");
    assert_eq!(decimal_text(7), "7");
    assert_eq!(decimal_text(10), "10");
    assert_eq!(decimal_text(4294967295), "4294967295");
    assert_eq!(decimal_text(u64::MAX), "18446744073709551615");
}

#[test]
fn joins_concatenate() {
    assert_eq!(join2("ab", "cd"), "abcd");
    assert_eq!(join2("", ""), "");
    assert_eq!(join3("a", "/", "b"), "a/b");
}

#[test]
fn strip_and_skip_remove_one_character() {
    assert_eq!(strip_chars(&chars("<<a<b>>"), '<'), chars("a<b>>"));
    assert_eq!(strip_chars(&chars("<<<"), '<'), chars(""));
    assert_eq!(strip_chars(&chars(">a>"), '>'), chars("a"));
    assert_eq!(skip_chars(&chars("//a/b/"), '/'), chars("a/b/"));
    assert_eq!(skip_chars(&chars("a"), '/'), chars("a"));
}

#[test]
fn first_word_stops_at_white_space() {
    assert_eq!(first_word_of(&chars("  img.png \"title\"")), chars("img.png"));
    assert_eq!(first_word_of(&chars("one")), chars("one"));
    assert_eq!(first_word_of(&chars("   ")), chars(""));
    assert_eq!(first_word_of(&chars("")), chars(""));
}
