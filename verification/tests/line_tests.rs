use ed::line::Line;

#[test]
fn from_display_round_trip_ascii() {
    let line = Line::from("hello world");
    assert_eq!(line.to_display_string(), "hello world");
}

#[test]
fn from_display_round_trip_accents() {
    let s = "h\u{e9}llo w\u{f6}rld";
    let line = Line::from(s);
    assert_eq!(line.to_display_string(), s);
}

#[test]
fn from_display_round_trip_combining_and_flags() {
    let s = "a\u{310}e\u{301}o\u{308}\u{332}\u{1f1fa}\u{1f1f8}";
    let line = Line::from(s);
    assert_eq!(line.to_display_string(), s);
}

#[test]
fn from_display_round_trip_empty() {
    let line = Line::from("");
    assert_eq!(line.to_display_string(), "");
    assert_eq!(line.grapheme_count(), 0);
}

#[test]
fn grapheme_count_clusters() {
    assert_eq!(Line::from("abc").grapheme_count(), 3);
    // A combining accent joins its base character in one cluster.
    assert_eq!(Line::from("e\u{301}").grapheme_count(), 1);
    // A regional-indicator pair forms one flag cluster.
    assert_eq!(Line::from("\u{1f1fa}\u{1f1f8}").grapheme_count(), 1);
}

#[test]
fn replacement_characters() {
    assert_eq!(Line::replacement_character("\t"), Some(' '));
    assert_eq!(Line::replacement_character(" "), None);
    assert_eq!(Line::replacement_character("\u{a0}"), Some('\u{2423}'));
    // The width tables give control characters one column, so a lone
    // control character is not substituted; zero-width clusters are.
    assert_eq!(Line::replacement_character("\u{7}"), None);
    assert_eq!(Line::replacement_character("\u{200b}"), Some('\u{00b7}'));
    assert_eq!(Line::replacement_character("a"), None);
    assert_eq!(Line::replacement_character("\u{6f22}"), None);
}

#[test]
fn sum_width_until_wide_chars() {
    // Each CJK ideograph renders two columns wide.
    let line = Line::from("\u{6f22}\u{5b57}");
    assert_eq!(line.sum_width_until(0), 0);
    assert_eq!(line.sum_width_until(1), 2);
    assert_eq!(line.sum_width_until(2), 4);
    // Past the end, every fragment counts.
    assert_eq!(line.sum_width_until(9), 4);

    let mixed = Line::from("a\u{6f22}b");
    assert_eq!(mixed.sum_width_until(2), 3);
    assert_eq!(mixed.width(), 4);
}

#[test]
fn get_substr_plain() {
    let line = Line::from("hello");
    assert_eq!(line.get_substr(0, 5), "hello");
    assert_eq!(line.get_substr(1, 3), "el");
    assert_eq!(line.get_substr(3, 3), "");
    assert_eq!(line.get_substr(4, 2), "");
}

#[test]
fn get_substr_replacements_shown() {
    let line = Line::from("a\tb");
    assert_eq!(line.get_substr(0, 3), "a b");
}

#[test]
fn get_substr_truncation_marker() {
    let line = Line::from("\u{6f22}\u{5b57}abc");
    // The second ideograph straddles the right edge of [0, 3).
    assert_eq!(line.get_substr(0, 3), "\u{6f22}\u{22ef}");
    // The first ideograph straddles the left edge of [1, 4).
    assert_eq!(line.get_substr(1, 4), "\u{22ef}");
}

#[test]
fn insert_char_middle_and_end() {
    let mut line = Line::from("ab");
    line.insert_char('x', 1);
    assert_eq!(line.to_display_string(), "axb");

    // An index at or past the grapheme count appends.
    let mut line = Line::from("ab");
    line.insert_char('c', 2);
    assert_eq!(line.to_display_string(), "abc");

    let mut line = Line::from("ab");
    line.insert_char('c', 99);
    assert_eq!(line.to_display_string(), "abc");
}

#[test]
fn insert_at_count_equals_append() {
    let mut inserted = Line::from("ab");
    inserted.insert_char('c', inserted.grapheme_count());
    let mut appended = Line::from("ab");
    appended.append(&Line::from("c"));
    assert_eq!(inserted.to_display_string(), appended.to_display_string());
    assert_eq!(inserted.grapheme_count(), appended.grapheme_count());
}

#[test]
fn delete_in_and_out_of_range() {
    let mut line = Line::from("abc");
    line.delete(1);
    assert_eq!(line.to_display_string(), "ac");
    line.delete(7);
    assert_eq!(line.to_display_string(), "ac");
    line.delete(0);
    line.delete(0);
    assert_eq!(line.to_display_string(), "");
}

#[test]
fn split_then_append_reconstructs() {
    let mut prefix = Line::from("one two three");
    let original = prefix.to_display_string();
    let original_count = prefix.grapheme_count();
    let suffix = prefix.split(4);
    assert_eq!(prefix.to_display_string(), "one ");
    assert_eq!(suffix.to_display_string(), "two three");
    prefix.append(&suffix);
    assert_eq!(prefix.to_display_string(), original);
    assert_eq!(prefix.grapheme_count(), original_count);
}

#[test]
fn split_past_end_leaves_line() {
    let mut line = Line::from("abc");
    let tail = line.split(4);
    assert_eq!(line.to_display_string(), "abc");
    assert_eq!(tail.grapheme_count(), 0);
    // Splitting exactly at the count leaves everything in the prefix.
    let tail2 = line.split(3);
    assert_eq!(line.to_display_string(), "abc");
    assert_eq!(tail2.grapheme_count(), 0);
}

#[test]
fn line_search_forward_and_backward() {
    let line = Line::from("abcabc");
    let query = Line::from("bc");
    assert_eq!(line.search_forward(0, &query), Some(1));
    assert_eq!(line.search_forward(2, &query), Some(4));
    assert_eq!(line.search_forward(5, &query), None);
    // Backward matches must end at or before the given index.
    assert_eq!(line.search_backward(6, &query), Some(4));
    assert_eq!(line.search_backward(4, &query), Some(1));
    assert_eq!(line.search_backward(2, &query), None);
}

#[test]
fn append_char_and_delete_last() {
    let mut line = Line::from("ab");
    line.append_char('c');
    assert_eq!(line.to_display_string(), "abc");
    line.delete_last();
    assert_eq!(line.to_display_string(), "ab");
    let mut empty = Line::from("");
    empty.delete_last();
    assert_eq!(empty.to_display_string(), "");
}
