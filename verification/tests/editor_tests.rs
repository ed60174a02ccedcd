use ed::args::{Args, Command as ArgsCommand};
use ed::document_status::DocumentStatus;
use ed::editor::{Editor, EditorAction, PromptType};
use ed::editor_commands::{Command, Edit, Move, System};
use ed::multi_editor::MultiEditor;
use ed::size::Size;

const T0: u64 = 1000;

fn term() -> Size {
    Size { width: 80, height: 24 }
}

fn editor_with(rows: &[&str]) -> Editor {
    let owned: Vec<String> = rows.iter().map(|r| r.to_string()).collect();
    let mut editor = Editor::new(term(), T0);
    editor.load("test.txt", Some(&owned), T0);
    editor
}

#[test]
fn save_with_bound_path_is_requested_at_once() {
    let mut editor = editor_with(&["ab"]);
    editor.process_command(Command::Edit(Edit::Insert('x')), T0);
    assert!(editor.view.buffer.dirty);
    let action = editor.process_command(Command::System(System::Save), T0);
    assert_eq!(action, EditorAction::Save(None));
    editor.finish_save(None, true, T0);
    assert!(!editor.view.buffer.dirty);
}

#[test]
fn save_without_path_prompts_for_a_name() {
    let mut editor = Editor::new(term(), T0);
    editor.process_command(Command::Edit(Edit::Insert('x')), T0);
    let action = editor.process_command(Command::System(System::Save), T0);
    assert_eq!(action, EditorAction::Nothing);
    assert_eq!(editor.prompt_type, PromptType::Save);
    editor.process_command(Command::Edit(Edit::Insert('a')), T0);
    editor.process_command(Command::Edit(Edit::Insert('b')), T0);
    let action = editor.process_command(Command::Edit(Edit::Enter), T0);
    assert_eq!(action, EditorAction::Save(Some("ab".to_string())));
    assert_eq!(editor.prompt_type, PromptType::NoPrompt);
    editor.finish_save(Some("ab".to_string()), true, T0);
    assert_eq!(editor.view.buffer.file_name.as_deref(), Some("ab"));
    assert!(!editor.view.buffer.dirty);
}

#[test]
fn failed_save_keeps_buffer_dirty() {
    let mut editor = editor_with(&["ab"]);
    editor.process_command(Command::Edit(Edit::Insert('x')), T0);
    editor.finish_save(None, false, T0);
    assert!(editor.view.buffer.dirty);
    assert_eq!(
        editor.message_bar.message.text,
        "Failed to save file"
    );
}

#[test]
fn dismiss_aborts_the_save_prompt() {
    let mut editor = Editor::new(term(), T0);
    editor.process_command(Command::System(System::Save), T0);
    assert_eq!(editor.prompt_type, PromptType::Save);
    let action = editor.process_command(Command::System(System::Dismiss), T0);
    assert_eq!(action, EditorAction::Nothing);
    assert_eq!(editor.prompt_type, PromptType::NoPrompt);
    assert_eq!(editor.message_bar.message.text, "Save aborted!");
}

#[test]
fn quit_needs_two_presses_on_dirty_buffer() {
    let mut editor = editor_with(&["ab"]);
    editor.process_command(Command::Edit(Edit::Insert('x')), T0);
    editor.process_command(Command::System(System::Quit), T0);
    assert!(!editor.should_quit);
    editor.process_command(Command::System(System::Quit), T0);
    assert!(editor.should_quit);
}

#[test]
fn quit_is_immediate_on_clean_buffer() {
    // A freshly loaded document counts as unmodified.
    let mut editor = editor_with(&["ab"]);
    editor.process_command(Command::System(System::Quit), T0);
    assert!(editor.should_quit);
}

#[test]
fn other_commands_reset_the_quit_count() {
    let mut editor = editor_with(&["ab"]);
    editor.process_command(Command::Edit(Edit::Insert('x')), T0);
    editor.process_command(Command::System(System::Quit), T0);
    assert!(!editor.should_quit);
    editor.process_command(Command::Move(Move::Right), T0);
    editor.process_command(Command::System(System::Quit), T0);
    assert!(!editor.should_quit);
    editor.process_command(Command::System(System::Quit), T0);
    assert!(editor.should_quit);
}

#[test]
fn search_prompt_jumps_and_dismiss_restores() {
    let mut editor = editor_with(&["ab", "cd"]);
    editor.process_command(Command::System(System::Search), T0);
    assert_eq!(editor.prompt_type, PromptType::Search);
    editor.process_command(Command::Edit(Edit::Insert('c')), T0);
    editor.process_command(Command::Edit(Edit::Insert('d')), T0);
    assert_eq!(editor.view.text_location.line_index, 1);
    editor.process_command(Command::System(System::Dismiss), T0);
    assert_eq!(editor.prompt_type, PromptType::NoPrompt);
    assert_eq!(editor.view.text_location.line_index, 0);
}

#[test]
fn search_enter_keeps_the_found_position() {
    let mut editor = editor_with(&["ab", "cd"]);
    editor.process_command(Command::System(System::Search), T0);
    editor.process_command(Command::Edit(Edit::Insert('c')), T0);
    editor.process_command(Command::Edit(Edit::Insert('d')), T0);
    editor.process_command(Command::Edit(Edit::Enter), T0);
    assert_eq!(editor.prompt_type, PromptType::NoPrompt);
    assert_eq!(editor.view.text_location.line_index, 1);
}

#[test]
fn resize_reaches_view_and_bars() {
    let mut editor = editor_with(&["ab"]);
    editor.process_command(
        Command::System(System::Resize(Size { width: 40, height: 12 })),
        T0,
    );
    assert_eq!(editor.terminal_size, Size { width: 40, height: 12 });
    assert_eq!(editor.view.size, Size { width: 40, height: 10 });
    assert_eq!(editor.command_bar.size, Size { width: 40, height: 1 });
}

#[test]
fn load_failure_posts_an_error_message() {
    let mut editor = Editor::new(term(), T0);
    editor.load("missing.txt", None, T0);
    assert_eq!(
        editor.message_bar.message.text,
        "ERROR: Failed to read file missing.txt"
    );
    assert!(editor.view.buffer.file_name.is_none());
}

#[test]
fn refresh_status_builds_the_title() {
    let mut editor = editor_with(&["ab"]);
    editor.refresh_status();
    assert_eq!(editor.title, "test.txt - ed");
    assert_eq!(editor.status_bar.status.file_name, "test.txt");
    let mut unnamed = Editor::new(term(), T0);
    unnamed.refresh_status();
    assert_eq!(unnamed.title, "[No Name] - ed");
}

#[test]
fn message_expires_after_its_lifetime() {
    let mut editor = Editor::new(term(), T0);
    editor.update_message("hello", T0);
    assert_eq!(editor.message_bar.draw_text(T0 + 1000), "hello");
    assert_eq!(editor.message_bar.draw_text(T0 + 3001), "");
    assert!(editor.message_bar.message_cleared);
}

#[test]
fn status_line_formats() {
    let status = DocumentStatus {
        file_name: "f.txt".to_string(),
        number_of_lines: 3,
        line_number: 0,
        modified: true,
    };
    assert_eq!(status.line_count_to_string(), "3 lines");
    assert_eq!(status.modified_indicator_to_string(), "(modified)");
    assert_eq!(status.position_indicator_to_string(), "1/3");
    let clean = DocumentStatus {
        file_name: "f.txt".to_string(),
        number_of_lines: 0,
        line_number: 41,
        modified: false,
    };
    assert_eq!(clean.modified_indicator_to_string(), "");
    assert_eq!(clean.position_indicator_to_string(), "42/0");
}

#[test]
fn status_bar_text_is_fitted() {
    let mut editor = editor_with(&["ab", "cd"]);
    editor.process_command(Command::Edit(Edit::Insert('x')), T0);
    editor.refresh_status();
    let text = editor.status_bar.draw_text();
    assert_eq!(text.chars().count(), 80);
    assert!(text.starts_with("test.txt - 2 lines (modified)"));
    assert!(text.ends_with("1/2"));
}

#[test]
fn command_bar_caret_and_text() {
    let mut editor = Editor::new(term(), T0);
    editor.process_command(Command::System(System::Save), T0);
    editor.process_command(Command::Edit(Edit::Insert('h')), T0);
    editor.process_command(Command::Edit(Edit::Insert('i')), T0);
    assert_eq!(editor.command_bar.value(), "hi");
    assert_eq!(editor.command_bar.caret_position_col(), "Save as: hi".len());
    let text = editor.command_bar.draw_text();
    assert_eq!(text, "Save as: hi");
    editor.process_command(Command::Edit(Edit::Backspace), T0);
    assert_eq!(editor.command_bar.value(), "h");
}

#[test]
fn multi_editor_opens_one_window_per_file() {
    let mut session = MultiEditor::new(term(), T0);
    let files = vec![
        ("a.txt".to_string(), Some(vec!["aa".to_string()])),
        ("b.txt".to_string(), Some(vec!["bb".to_string()])),
    ];
    session.load(&files, T0);
    assert_eq!(session.editors.len(), 2);
    assert_eq!(session.active_editor, 1);
    assert_eq!(
        session.editors[0].view.buffer.file_name.as_deref(),
        Some("a.txt")
    );
    assert_eq!(
        session.editors[1].view.buffer.file_name.as_deref(),
        Some("b.txt")
    );
}

#[test]
fn multi_editor_switch_and_close() {
    let mut session = MultiEditor::new(term(), T0);
    let files = vec![
        ("a.txt".to_string(), Some(vec!["aa".to_string()])),
        ("b.txt".to_string(), Some(vec!["bb".to_string()])),
    ];
    session.load(&files, T0);
    assert!(session.switch_editor(0, T0));
    assert_eq!(session.active_editor, 0);
    assert!(!session.switch_editor(5, T0));
    // Freshly loaded windows are clean, so one press closes the active
    // window; the session stays alive while another remains.
    let (action, cleared) = session.process_command(Command::System(System::Quit), T0);
    assert_eq!(action, EditorAction::Nothing);
    assert!(cleared);
    assert_eq!(session.editors.len(), 1);
    assert!(!session.should_quit);
    // Closing the last window ends the session.
    session.process_command(Command::System(System::Quit), T0);
    assert!(session.should_quit);
}

#[test]
fn parse_args_trims_file_names() {
    let args = Args {
        command: ArgsCommand::Open {
            file_names: vec!["  a.txt ".to_string(), "b.txt".to_string()],
        },
    };
    assert_eq!(ed::args::parse_args(args), vec!["a.txt", "b.txt"]);
}

#[test]
fn decimal_rendering_of_large_counts() {
    let status = DocumentStatus {
        file_name: "x".to_string(),
        number_of_lines: 1234567890,
        line_number: 98764,
        modified: false,
    };
    assert_eq!(status.line_count_to_string(), "1234567890 lines");
    assert_eq!(status.position_indicator_to_string(), "98765/1234567890");
}
