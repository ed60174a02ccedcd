use ed::editor_commands::{Edit, Move};
use ed::size::Size;
use ed::view::EditorView;

fn view_of(rows: &[&str], width: usize, height: usize) -> EditorView {
    let owned: Vec<String> = rows.iter().map(|r| r.to_string()).collect();
    let mut view = EditorView::default();
    view.load("test.txt".to_string(), &owned);
    view.resize(Size { width, height });
    view
}

fn cursor(view: &EditorView) -> (usize, usize) {
    (view.text_location.line_index, view.text_location.grapheme_index)
}

#[test]
fn enter_splits_line_and_moves_cursor() {
    // Loading "ab", "", "cd", moving to (0,2) and pressing Enter yields
    // four lines with the cursor at the start of the new empty line.
    let mut view = view_of(&["ab", "", "cd"], 80, 24);
    view.handle_move_command(Move::Right);
    view.handle_move_command(Move::Right);
    assert_eq!(cursor(&view), (0, 2));
    view.handle_edit_command(Edit::Enter);
    assert_eq!(view.buffer.to_rows(), vec!["ab", "", "", "cd"]);
    assert_eq!(cursor(&view), (1, 0));
}

#[test]
fn viewport_slices_are_whole_glyphs() {
    // A width-5 viewport over "héllo wörld" paints five columns, and
    // scrolling right by three paints the next five with no glyph cut.
    let mut view = view_of(&["h\u{e9}llo w\u{f6}rld"], 5, 3);
    assert_eq!(view.visible_row_text(0), "h\u{e9}llo");
    for _ in 0..7 {
        view.handle_move_command(Move::Right);
    }
    assert_eq!(view.scroll_offset.col, 3);
    assert_eq!(view.visible_row_text(0), "lo w\u{f6}");
}

#[test]
fn wide_glyph_at_slice_edge_becomes_marker() {
    let mut view = view_of(&["\u{6f22}\u{5b57}abc"], 3, 3);
    assert_eq!(view.visible_row_text(0), "\u{6f22}\u{22ef}");
    view.handle_move_command(Move::End);
    assert_eq!(view.scroll_offset.col, 5);
    assert_eq!(view.visible_row_text(0), "bc");
}

#[test]
fn basic_movement_and_snapping() {
    let mut view = view_of(&["hello", "hi"], 80, 24);
    view.handle_move_command(Move::End);
    assert_eq!(cursor(&view), (0, 5));
    // Moving down snaps the grapheme index to the shorter line.
    view.handle_move_command(Move::Down);
    assert_eq!(cursor(&view), (1, 2));
    view.handle_move_command(Move::Home);
    assert_eq!(cursor(&view), (1, 0));
    // Left from column zero wraps to the previous line's end.
    view.handle_move_command(Move::Left);
    assert_eq!(cursor(&view), (0, 5));
    // Right from the line's end wraps to the next line's start.
    view.handle_move_command(Move::Right);
    assert_eq!(cursor(&view), (1, 0));
}

#[test]
fn down_stops_at_virtual_line() {
    let mut view = view_of(&["a", "b"], 80, 24);
    for _ in 0..5 {
        view.handle_move_command(Move::Down);
    }
    assert_eq!(cursor(&view), (2, 0));
    view.handle_move_command(Move::Up);
    assert_eq!(cursor(&view), (1, 0));
}

#[test]
fn word_jump_right_then_left_returns_to_word_start() {
    let mut view = view_of(&["foo bar baz"], 80, 24);
    // From inside "bar" the jump right lands on "baz", and the jump left
    // comes back to the start of "bar".
    view.handle_move_command(Move::Right);
    view.handle_move_command(Move::Right);
    view.handle_move_command(Move::Right);
    view.handle_move_command(Move::Right);
    view.handle_move_command(Move::Right);
    assert_eq!(cursor(&view), (0, 5));
    view.handle_move_command(Move::WordJumpRight);
    assert_eq!(cursor(&view), (0, 8));
    view.handle_move_command(Move::WordJumpLeft);
    assert_eq!(cursor(&view), (0, 4));
}

#[test]
fn word_jump_right_crosses_line_end() {
    let mut view = view_of(&["foo", "bar"], 80, 24);
    view.handle_move_command(Move::WordJumpRight);
    assert_eq!(cursor(&view), (1, 0));
}

#[test]
fn backspace_at_column_zero_joins_lines() {
    let mut view = view_of(&["ab", "cd"], 80, 24);
    view.handle_move_command(Move::Down);
    assert_eq!(cursor(&view), (1, 0));
    view.handle_edit_command(Edit::Backspace);
    assert_eq!(view.buffer.to_rows(), vec!["abcd"]);
    assert_eq!(cursor(&view), (0, 2));
}

#[test]
fn backspace_at_document_start_is_noop() {
    let mut view = view_of(&["ab"], 80, 24);
    view.handle_edit_command(Edit::Backspace);
    assert_eq!(view.buffer.to_rows(), vec!["ab"]);
    assert_eq!(cursor(&view), (0, 0));
}

#[test]
fn insert_advances_cursor() {
    let mut view = view_of(&["b"], 80, 24);
    view.handle_edit_command(Edit::Insert('a'));
    assert_eq!(view.buffer.to_rows(), vec!["ab"]);
    assert_eq!(cursor(&view), (0, 1));
}

#[test]
fn remove_line_moves_cursor_up() {
    let mut view = view_of(&["ab", "cd", "ef"], 80, 24);
    view.handle_move_command(Move::Down);
    view.handle_edit_command(Edit::RemoveLine);
    assert_eq!(view.buffer.to_rows(), vec!["ab", "ef"]);
    assert_eq!(cursor(&view), (0, 0));
}

#[test]
fn vertical_scroll_follows_cursor() {
    let mut view = view_of(&["0", "1", "2", "3", "4", "5"], 10, 3);
    for _ in 0..4 {
        view.handle_move_command(Move::Down);
    }
    assert_eq!(view.scroll_offset.row, 2);
    assert_eq!(view.visible_row_text(0), "2");
    view.handle_move_command(Move::PageUp);
    assert_eq!(cursor(&view), (2, 0));
}

#[test]
fn caret_position_subtracts_scroll() {
    let mut view = view_of(&["abcdefgh"], 4, 3);
    for _ in 0..6 {
        view.handle_move_command(Move::Right);
    }
    assert_eq!(view.scroll_offset.col, 3);
    let caret = view.get_caret_position();
    assert_eq!((caret.row, caret.col), (0, 3));
}

#[test]
fn welcome_banner_on_empty_document() {
    let mut view = EditorView::default();
    view.resize(Size { width: 40, height: 9 });
    let banner_row = view.visible_row_text(3);
    assert!(banner_row.starts_with('~'));
    assert!(banner_row.contains("ed editor -- version 0.1.0"));
    assert_eq!(view.visible_row_text(1), "~");
}

#[test]
fn line_numbers_margin() {
    let mut view = view_of(&["hello"], 20, 5);
    view.toggle_line_numbers();
    assert_eq!(view.visible_row_text(0), "   1  hello");
    assert_eq!(view.visible_row_text(2), "      ~");
    let caret = view.get_caret_position();
    assert_eq!(caret.col, 6);
}

#[test]
fn search_moves_cursor_and_dismiss_restores_it() {
    let mut view = view_of(&["ab", "cd", "cdx"], 80, 24);
    view.enter_search();
    view.search("cd");
    assert_eq!(cursor(&view), (1, 0));
    view.search_next();
    assert_eq!(cursor(&view), (2, 0));
    view.search_prev();
    assert_eq!(cursor(&view), (1, 0));
    view.dimiss_search();
    assert_eq!(cursor(&view), (0, 0));
    assert!(view.search_info.is_none());
}

#[test]
fn search_missing_query_moves_nothing() {
    let mut view = view_of(&["ab"], 80, 24);
    view.enter_search();
    view.search("zz");
    assert_eq!(cursor(&view), (0, 0));
    view.search("");
    assert_eq!(cursor(&view), (0, 0));
    view.exit_search();
    assert!(view.search_info.is_none());
}

#[test]
fn status_reports_document_facts() {
    let view = view_of(&["ab", "cd"], 80, 24);
    let status = view.get_status();
    assert_eq!(status.file_name, "test.txt");
    assert_eq!(status.number_of_lines, 2);
    assert_eq!(status.line_number, 0);
    assert!(!status.modified);
    assert!(view.is_file_loaded());
    assert!(!EditorView::default().is_file_loaded());
}

#[test]
fn word_jump_treats_tab_and_nbsp_as_whitespace() {
    // A tab is rendered as a space and counts as whitespace for word
    // navigation; so does a cluster whose text trims to nothing.
    let mut view = view_of(&["a\tb"], 80, 24);
    view.handle_move_command(Move::WordJumpRight);
    assert_eq!(cursor(&view), (0, 2));
    let mut view = view_of(&["a\u{a0}b"], 80, 24);
    view.handle_move_command(Move::WordJumpRight);
    assert_eq!(cursor(&view), (0, 2));
}

#[test]
fn word_jump_left_lands_on_column_zero_word_start() {
    // A word that starts at column zero of a later line is a valid landing
    // spot: jumping right into the next word and back returns to it.
    let mut view = view_of(&["x", "foo bar"], 80, 24);
    view.handle_move_command(Move::Down);
    view.handle_move_command(Move::Right);
    assert_eq!(cursor(&view), (1, 1));
    view.handle_move_command(Move::WordJumpRight);
    assert_eq!(cursor(&view), (1, 4));
    view.handle_move_command(Move::WordJumpLeft);
    assert_eq!(cursor(&view), (1, 0));
}

#[test]
fn delete_line_scrolls_cursor_into_view() {
    let mut view = view_of(&["0", "1", "2", "3", "4", "5"], 10, 3);
    for _ in 0..5 {
        view.handle_move_command(Move::Down);
    }
    view.handle_move_command(Move::Up);
    view.handle_move_command(Move::Up);
    assert_eq!(cursor(&view), (3, 0));
    assert_eq!(view.scroll_offset.row, 3);
    // Removing the top visible line moves the cursor up and the window
    // follows it.
    view.handle_edit_command(Edit::RemoveLine);
    assert_eq!(cursor(&view), (2, 0));
    assert_eq!(view.scroll_offset.row, 2);
}
