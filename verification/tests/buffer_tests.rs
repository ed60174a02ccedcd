use ed::buffer::Buffer;
use ed::line::Line;
use ed::view::Location;

fn buffer_of(rows: &[&str]) -> Buffer {
    let owned: Vec<String> = rows.iter().map(|r| r.to_string()).collect();
    Buffer::load_rows("test.txt".to_string(), &owned)
}

fn rows_of(buffer: &Buffer) -> Vec<String> {
    buffer.to_rows()
}

#[test]
fn load_rows_round_trip() {
    let buffer = buffer_of(&["ab", "", "cd"]);
    assert_eq!(buffer.number_of_lines(), 3);
    assert!(!buffer.is_empty());
    // A freshly loaded document is unmodified.
    assert!(!buffer.dirty);
    assert_eq!(buffer.file_name.as_deref(), Some("test.txt"));
    assert_eq!(rows_of(&buffer), vec!["ab", "", "cd"]);
}

#[test]
fn default_buffer_is_empty() {
    let buffer = Buffer::default();
    assert!(buffer.is_empty());
    assert_eq!(buffer.number_of_lines(), 0);
    assert!(!buffer.dirty);
    assert!(buffer.file_name.is_none());
}

#[test]
fn insert_char_within_line() {
    let mut buffer = buffer_of(&["ab"]);
    buffer.insert_char('x', &Location { line_index: 0, grapheme_index: 1 });
    assert_eq!(rows_of(&buffer), vec!["axb"]);
    assert!(buffer.dirty);
}

#[test]
fn insert_char_on_virtual_line_appends() {
    let mut buffer = buffer_of(&["ab"]);
    buffer.insert_char('x', &Location { line_index: 1, grapheme_index: 0 });
    assert_eq!(rows_of(&buffer), vec!["ab", "x"]);
}

#[test]
fn insert_char_far_out_of_range_is_noop() {
    let mut buffer = buffer_of(&["ab"]);
    buffer.insert_char('x', &Location { line_index: 5, grapheme_index: 0 });
    assert_eq!(rows_of(&buffer), vec!["ab"]);
}

#[test]
fn delete_within_line() {
    let mut buffer = buffer_of(&["abc"]);
    buffer.delete(&Location { line_index: 0, grapheme_index: 1 });
    assert_eq!(rows_of(&buffer), vec!["ac"]);
}

#[test]
fn delete_at_line_end_joins_next_line() {
    let mut buffer = buffer_of(&["ab", "cd"]);
    buffer.delete(&Location { line_index: 0, grapheme_index: 2 });
    assert_eq!(rows_of(&buffer), vec!["abcd"]);
    assert!(buffer.dirty);
}

#[test]
fn delete_at_end_of_final_line_is_noop() {
    let mut buffer = buffer_of(&["ab", "cd"]);
    let before = rows_of(&buffer);
    buffer.delete(&Location { line_index: 1, grapheme_index: 2 });
    assert_eq!(rows_of(&buffer), before);
}

#[test]
fn delete_line_in_and_out_of_range() {
    let mut buffer = buffer_of(&["ab", "cd", "ef"]);
    buffer.delete_line(1);
    assert_eq!(rows_of(&buffer), vec!["ab", "ef"]);
    buffer.delete_line(9);
    assert_eq!(rows_of(&buffer), vec!["ab", "ef"]);
}

#[test]
fn insert_newline_splits_line() {
    let mut buffer = buffer_of(&["abcd"]);
    buffer.insert_newline(&Location { line_index: 0, grapheme_index: 2 });
    assert_eq!(rows_of(&buffer), vec!["ab", "cd"]);
}

#[test]
fn insert_newline_at_virtual_line_appends_empty() {
    let mut buffer = buffer_of(&["ab"]);
    buffer.insert_newline(&Location { line_index: 1, grapheme_index: 0 });
    assert_eq!(rows_of(&buffer), vec!["ab", ""]);
}

#[test]
fn insert_newline_past_line_end_inserts_empty_after() {
    let mut buffer = buffer_of(&["ab", "cd"]);
    buffer.insert_newline(&Location { line_index: 0, grapheme_index: 9 });
    assert_eq!(rows_of(&buffer), vec!["ab", "", "cd"]);
}

#[test]
fn mark_saved_clears_dirty_and_rebinds() {
    let mut buffer = buffer_of(&["ab"]);
    buffer.mark_saved(None);
    assert!(!buffer.dirty);
    assert_eq!(buffer.file_name.as_deref(), Some("test.txt"));
    buffer.mark_saved(Some("other.txt".to_string()));
    assert_eq!(buffer.file_name.as_deref(), Some("other.txt"));
}

#[test]
fn search_forward_from_cursor() {
    let buffer = buffer_of(&["abcabc", "xbc"]);
    let query = Line::from("bc");
    let hit = buffer
        .search_forward(Location { line_index: 0, grapheme_index: 0 }, &query)
        .unwrap();
    assert_eq!((hit.line_index, hit.grapheme_index), (0, 1));
    let hit = buffer
        .search_forward(Location { line_index: 0, grapheme_index: 2 }, &query)
        .unwrap();
    assert_eq!((hit.line_index, hit.grapheme_index), (0, 4));
    let hit = buffer
        .search_forward(Location { line_index: 0, grapheme_index: 5 }, &query)
        .unwrap();
    assert_eq!((hit.line_index, hit.grapheme_index), (1, 1));
}

#[test]
fn search_forward_wraps_to_start() {
    let buffer = buffer_of(&["cd", "ab"]);
    let query = Line::from("cd");
    let hit = buffer
        .search_forward(Location { line_index: 1, grapheme_index: 0 }, &query)
        .unwrap();
    assert_eq!((hit.line_index, hit.grapheme_index), (0, 0));
}

#[test]
fn search_forward_absent_returns_none() {
    let buffer = buffer_of(&["ab", "cd", "ef"]);
    let query = Line::from("zz");
    assert!(buffer
        .search_forward(Location { line_index: 1, grapheme_index: 1 }, &query)
        .is_none());
}

#[test]
fn search_empty_query_returns_none() {
    let buffer = buffer_of(&["ab"]);
    let query = Line::from("");
    assert!(buffer
        .search_forward(Location { line_index: 0, grapheme_index: 0 }, &query)
        .is_none());
    assert!(buffer
        .search_backwards(Location { line_index: 0, grapheme_index: 0 }, &query)
        .is_none());
}

#[test]
fn search_backwards_finds_previous_hit() {
    let buffer = buffer_of(&["abcabc", "bcd"]);
    let query = Line::from("bc");
    let hit = buffer
        .search_backwards(Location { line_index: 1, grapheme_index: 0 }, &query)
        .unwrap();
    assert_eq!((hit.line_index, hit.grapheme_index), (0, 4));
    let hit = buffer
        .search_backwards(Location { line_index: 0, grapheme_index: 4 }, &query)
        .unwrap();
    assert_eq!((hit.line_index, hit.grapheme_index), (0, 1));
}

#[test]
fn search_backwards_wraps_to_end() {
    let buffer = buffer_of(&["ab", "cd"]);
    let query = Line::from("cd");
    let hit = buffer
        .search_backwards(Location { line_index: 0, grapheme_index: 0 }, &query)
        .unwrap();
    assert_eq!((hit.line_index, hit.grapheme_index), (1, 0));
}
