use yanu::text::{
    chars_of, equals_at, find_after_last, find_first, find_line_with, find_trimmed_len,
    matches_at, search, CharClass,
};

fn cs(s: &str) -> Vec<char> {
    s.chars().collect()
}

#[test]
fn chars_of_gives_every_character_in_order() {
    assert_eq!(chars_of(""), Vec::<char>::new());
    assert_eq!(chars_of("abc"), vec!['a', 'b', 'c']);
    assert_eq!(chars_of("é日\n"), vec!['é', '日', '\n']);
}

#[test]
fn whitespace_is_what_the_standard_library_calls_whitespace() {
    let mut n: u32 = 0;
    while n <= 0x10ffff {
        if let Some(c) = char::from_u32(n) {
            assert_eq!(CharClass::Whitespace.contains(c), c.is_whitespace(), "U+{:04X}", n);
        }
        n += 1;
    }
}

#[test]
fn the_other_classes_hold_one_character_each() {
    let mut n: u32 = 0;
    while n <= 0x10ffff {
        if let Some(c) = char::from_u32(n) {
            assert_eq!(CharClass::Slash.contains(c), c == '/');
            assert_eq!(CharClass::Dot.contains(c), c == '.');
            assert_eq!(CharClass::LineFeed.contains(c), c == '\n');
        }
        n += 1;
    }
}

#[test]
fn find_first_stops_at_the_first_delimiter() {
    let s = cs("ab\ncd\n");
    assert_eq!(find_first(&s, 0, CharClass::LineFeed), 2);
    assert_eq!(find_first(&s, 2, CharClass::LineFeed), 2);
    assert_eq!(find_first(&s, 3, CharClass::LineFeed), 5);
    assert_eq!(find_first(&s, 6, CharClass::LineFeed), 6);
}

#[test]
fn find_first_gives_the_length_where_there_is_no_delimiter() {
    let s = cs("abcd");
    assert_eq!(find_first(&s, 0, CharClass::LineFeed), 4);
    assert_eq!(find_first(&s, 1, CharClass::Slash), 4);
    assert_eq!(find_first(&[], 0, CharClass::Dot), 0);
}

#[test]
fn find_after_last_stands_behind_the_last_delimiter() {
    let s = cs("a/b/cd");
    assert_eq!(find_after_last(&s, 0, 6, CharClass::Slash), 4);
    assert_eq!(find_after_last(&s, 0, 4, CharClass::Slash), 4);
    assert_eq!(find_after_last(&s, 0, 3, CharClass::Slash), 2);
    assert_eq!(find_after_last(&s, 0, 1, CharClass::Slash), 0);
    assert_eq!(find_after_last(&s, 0, 0, CharClass::Slash), 0);
}

#[test]
fn find_after_last_looks_no_further_back_than_the_window() {
    let s = cs("a/b/cd");
    assert_eq!(find_after_last(&s, 4, 6, CharClass::Slash), 4);
    assert_eq!(find_after_last(&s, 5, 6, CharClass::Slash), 5);
    assert_eq!(find_after_last(&s, 3, 3, CharClass::Slash), 3);
}

#[test]
fn find_trimmed_len_drops_the_delimiters_at_the_end() {
    let s = cs("ab \t\r");
    assert_eq!(find_trimmed_len(&s, 0, 5, CharClass::Whitespace), 2);
    assert_eq!(find_trimmed_len(&s, 0, 2, CharClass::Whitespace), 2);
    assert_eq!(find_trimmed_len(&s, 2, 5, CharClass::Whitespace), 2);
    assert_eq!(find_trimmed_len(&s, 3, 5, CharClass::Whitespace), 3);
    let blank = cs("   ");
    assert_eq!(find_trimmed_len(&blank, 0, 3, CharClass::Whitespace), 0);
}

#[test]
fn matches_at_compares_in_place() {
    let s = cs("Content Type: Meta");
    assert!(matches_at(&s, &cs("Content"), 0));
    assert!(matches_at(&s, &cs("Type:"), 8));
    assert!(matches_at(&s, &cs("Meta"), 14));
    assert!(matches_at(&s, &cs(""), 18));
    assert!(!matches_at(&s, &cs("Type:"), 7));
    assert!(!matches_at(&s, &cs("Meta"), 15));
    assert!(!matches_at(&s, &cs(""), 19));
    assert!(!matches_at(&s, &cs("Content Type: Meta!"), 0));
}

#[test]
fn equals_at_asks_for_the_same_length() {
    let s = cs("x.nsp");
    assert!(equals_at(&s, 2, 5, &cs("nsp")));
    assert!(!equals_at(&s, 2, 4, &cs("nsp")));
    assert!(!equals_at(&s, 2, 5, &cs("ns")));
    assert!(!equals_at(&s, 1, 5, &cs("nsp")));
    assert!(equals_at(&s, 3, 3, &cs("")));
}

#[test]
fn search_finds_a_pattern_inside_the_window_only() {
    let s = cs("abcabd");
    assert!(search(&s, 0, 6, &cs("abd")));
    assert!(search(&s, 3, 6, &cs("abd")));
    assert!(!search(&s, 0, 5, &cs("abd")));
    assert!(!search(&s, 4, 6, &cs("abd")));
    assert!(search(&s, 0, 6, &cs("")));
    assert!(search(&s, 6, 6, &cs("")));
    assert!(!search(&s, 0, 2, &cs("abc")));
    assert!(!search(&s, 0, 6, &cs("abcabda")));
}

#[test]
fn find_line_with_gives_the_first_line_that_holds_the_pattern() {
    let s = cs("one\ntwo x\nthree x\n");
    assert_eq!(find_line_with(&s, &cs("x")), Some((4, 9)));
    assert_eq!(find_line_with(&s, &cs("three")), Some((10, 17)));
    assert_eq!(find_line_with(&s, &cs("one")), Some((0, 3)));
    assert_eq!(find_line_with(&s, &cs("four")), None);
}

#[test]
fn find_line_with_finds_nothing_across_a_line_feed() {
    let s = cs("ab\ncd");
    assert_eq!(find_line_with(&s, &cs("b\nc")), None);
    assert_eq!(find_line_with(&s, &cs("bc")), None);
}

#[test]
fn find_line_with_reads_a_last_line_without_a_line_feed() {
    let s = cs("ab\ncd");
    assert_eq!(find_line_with(&s, &cs("d")), Some((3, 5)));
    assert_eq!(find_line_with(&cs(""), &cs("d")), None);
    assert_eq!(find_line_with(&cs(""), &cs("")), Some((0, 0)));
    assert_eq!(find_line_with(&cs("\n\nx"), &cs("x")), Some((2, 3)));
}
