//! One editor window: a view over a buffer plus its status bar, message
//! bar and command bar, driven by abstract commands. File reading and
//! writing, terminal painting and the clock live outside; they hand in
//! plain values (rows of text, sizes, times) and perform the save this
//! editor requests through [`EditorAction`].

use crate::command_bar::CommandBar;
use crate::editor_commands::{Command, Edit, Move, System};
use crate::message_bar::MessageBar;
use crate::position::Position;
use crate::size::Size;
use crate::status_bar::StatusBar;
use crate::view::EditorView;
use vstd::prelude::*;

verus! {

/// How many times quit must be pressed to discard unsaved changes.
pub const TIMES_FOR_QUIT: u8 = 2;

/// Which prompt, if any, the bottom bar is running.
#[derive(Clone, Copy, PartialEq, Eq, Structural, Debug)]
pub enum PromptType {
    Search,
    Save,
    NoPrompt,
}

impl PromptType {
    pub fn is_none(&self) -> (b: bool)
        ensures
            b == (*self == PromptType::NoPrompt),
    {
        match self {
            PromptType::NoPrompt => true,
            _ => false,
        }
    }
}

/// What the surrounding session must do after a command has been
/// processed: nothing, or write the buffer's rows out — to the bound path,
/// or to the newly chosen one — and report back through `finish_save`.
#[derive(PartialEq, Eq, Debug)]
pub enum EditorAction {
    Nothing,
    Save(Option<String>),
}

/// One editor window.
pub struct Editor {
    pub should_quit: bool,
    pub view: EditorView,
    pub title: String,
    pub terminal_size: Size,
    pub status_bar: StatusBar,
    pub message_bar: MessageBar,
    pub command_bar: CommandBar,
    pub prompt_type: PromptType,
    pub quit_times: u8,
}

impl Editor {
    /// The view and command bar are well formed, search state exists only
    /// while the search prompt runs, and the quit counter stays under its
    /// threshold.
    pub open spec fn wf(self) -> bool {
        &&& self.view.wf()
        &&& self.command_bar.wf()
        &&& (self.prompt_type != PromptType::Search ==> self.view.search_info is None)
        &&& self.quit_times < TIMES_FOR_QUIT
    }

    pub fn default() -> (e: Editor)
        ensures
            e.wf(),
            !e.should_quit,
            e.prompt_type == PromptType::NoPrompt,
            e.quit_times == 0,
            e.view.buffer.lines@.len() == 0,
            e.view.buffer.file_name is None,
            !e.view.buffer.dirty,
    {
        Editor {
            should_quit: false,
            view: EditorView::default(),
            title: String::new(),
            terminal_size: Size::default(),
            status_bar: StatusBar::default(),
            message_bar: MessageBar::default(),
            command_bar: CommandBar::default(),
            prompt_type: PromptType::NoPrompt,
            quit_times: 0,
        }
    }

    /// A fresh editor sized to the terminal, with the key-binding hint
    /// posted at time `now_ms`.
    pub fn new(size: Size, now_ms: u64) -> (e: Editor)
        ensures
            e.wf(),
            !e.should_quit,
            e.prompt_type == PromptType::NoPrompt,
            e.view.buffer.lines@.len() == 0,
            e.view.buffer.file_name is None,
            !e.view.buffer.dirty,
            e.terminal_size == size,
    {
        let mut editor = Self::default();
        editor.handle_resize_command(size);
        editor.refresh_status();
        editor.message_bar.update_message(
            "help: ^S - save | ^Q - quit | ^F find (see help page for more)",
            now_ms,
        );
        editor
    }

    pub fn in_prompt(&self) -> (b: bool)
        ensures
            b == (self.prompt_type != PromptType::NoPrompt),
    {
        !self.prompt_type.is_none()
    }

    pub fn set_needs_redraw(&mut self, val: bool)
        ensures
            final(self).view.needs_redraw == val,
            final(self).message_bar.needs_redraw == val,
            final(self).status_bar.needs_redraw == val,
            final(self).wf() == old(self).wf(),
            final(self).view.buffer == old(self).view.buffer,
            final(self).prompt_type == old(self).prompt_type,
    {
        self.view.mark_redraw(val);
        self.message_bar.mark_redraw(val);
        self.status_bar.mark_redraw(val);
    }

    /// Read access to the message bar; messages are posted through
    /// `update_message`.
    pub fn get_message_bar(&self) -> (m: &MessageBar)
        ensures
            m == &self.message_bar,
    {
        &self.message_bar
    }

    /// Posts a message to the message bar at time `now_ms`.
    pub fn update_message(&mut self, message: &str, now_ms: u64)
        ensures
            final(self).message_bar.message.text@ == message@,
            final(self).message_bar.message.time_ms == now_ms,
            final(self).wf() == old(self).wf(),
            final(self).view == old(self).view,
            final(self).prompt_type == old(self).prompt_type,
            final(self).should_quit == old(self).should_quit,
    {
        self.message_bar.update_message(message, now_ms);
    }

    /// Refreshes the status bar from the view and rebuilds the window
    /// title as the file's display name and the editor's name.
    pub fn refresh_status(&mut self)
        requires
            old(self).view.buffer.wf(),
        ensures
            final(self).wf() == old(self).wf(),
            final(self).view == old(self).view,
            final(self).status_bar.status.file_name@ == (match old(self).view.buffer.file_name {
                Some(n) => n@,
                None => "[No Name]"@,
            }),
            final(self).status_bar.status.number_of_lines == old(self).view.buffer.lines@.len(),
            final(self).status_bar.status.modified == old(self).view.buffer.dirty,
            final(self).title@ == (match old(self).view.buffer.file_name {
                Some(n) => n@,
                None => "[No Name]"@,
            }) + " - ed"@,
            final(self).prompt_type == old(self).prompt_type,
            final(self).should_quit == old(self).should_quit,
            final(self).terminal_size == old(self).terminal_size,
            final(self).message_bar == old(self).message_bar,
            final(self).command_bar == old(self).command_bar,
            final(self).quit_times == old(self).quit_times,
    {
        proof {
            reveal_strlit(" - ed");
        }
        let status = self.view.get_status();
        let mut title = status.file_name.clone();
        title.append(" - ed");
        self.status_bar.update_status(status);
        self.title = title;
    }

    /// Loads rows read from `file_name` into the view, or posts an error
    /// message when the read failed (`rows` is `None`).
    pub fn load(&mut self, file_name: &str, rows: Option<&Vec<String>>, now_ms: u64)
        requires
            old(self).wf(),
            old(self).prompt_type == PromptType::NoPrompt,
        ensures
            final(self).wf(),
            final(self).prompt_type == PromptType::NoPrompt,
            rows matches Some(r) ==> {
                &&& final(self).view.buffer.file_name matches Some(n) && n@ == file_name@
                &&& final(self).view.buffer.lines@.len() == r@.len()
                &&& forall|i: int|
                    0 <= i < r@.len() ==> (#[trigger] final(self).view.buffer.lines@[i])@
                        == r@[i]@
            },
            rows is None ==> final(self).view == old(self).view,
    {
        proof {
            reveal_strlit("ERROR: Failed to read file ");
        }
        match rows {
            Some(r) => {
                self.view.load(file_name.to_owned(), r);
                self.refresh_status();
            },
            None => {
                let mut msg = String::from_str("ERROR: Failed to read file ");
                msg.append(file_name);
                self.message_bar.update_message(msg.as_str(), now_ms);
            },
        }
    }

    fn process_command_no_prompt(&mut self, command: Command, now_ms: u64) -> (r: EditorAction)
        requires
            old(self).wf(),
            old(self).prompt_type == PromptType::NoPrompt,
        ensures
            final(self).wf(),
            r matches EditorAction::Save(n) ==> n is None && command == Command::System(
                System::Save,
            ) && old(self).view.buffer.file_name is Some,
            command == Command::System(System::Save) && old(self).view.buffer.file_name is Some
                ==> r == EditorAction::Save(None::<String>),
            command == Command::System(System::Search) ==> final(self).prompt_type
                == PromptType::Search,
            command == Command::System(System::Save) && old(self).view.buffer.file_name is None
                ==> final(self).prompt_type == PromptType::Save,
            command == Command::System(System::Quit) ==> final(self).view == old(self).view && (
            !old(self).view.buffer.dirty || old(self).quit_times + 1 == TIMES_FOR_QUIT ==> final(self).should_quit) && (old(self).view.buffer.dirty && old(self).quit_times + 1
                < TIMES_FOR_QUIT ==> final(self).quit_times == old(self).quit_times + 1 && final(self).should_quit == old(self).should_quit),
            command matches Command::Move(m) ==> crate::view::spec_move_applied(
                old(self).view,
                final(self).view,
                m,
            ),
            command matches Command::Edit(e) ==> crate::view::spec_edit_applied(
                old(self).view,
                final(self).view,
                e,
            ),
    {
        if command == Command::System(System::Quit) {
            self.handle_quit(now_ms);
            return EditorAction::Nothing;
        }
        self.reset_quit_times();
        match command {
            Command::System(System::Quit) => EditorAction::Nothing,
            Command::System(System::Resize(_)) => EditorAction::Nothing,
            Command::System(System::Dismiss) => EditorAction::Nothing,
            Command::System(System::Search) => {
                self.set_prompt(PromptType::Search);
                EditorAction::Nothing
            },
            Command::System(System::Save) => self.handle_save_command(),
            Command::System(System::ShowLineNumbers) => {
                self.toggle_line_numbers();
                EditorAction::Nothing
            },
            Command::Edit(edit_command) => {
                self.view.handle_edit_command(edit_command);
                EditorAction::Nothing
            },
            Command::Move(move_command) => {
                self.view.handle_move_command(move_command);
                EditorAction::Nothing
            },
        }
    }

    fn process_command_during_save(&mut self, command: Command, now_ms: u64) -> (r: EditorAction)
        requires
            old(self).wf(),
            old(self).prompt_type == PromptType::Save,
        ensures
            final(self).wf(),
            r matches EditorAction::Save(n) ==> command == Command::Edit(Edit::Enter) && (
            n matches Some(name) && name@ == old(self).command_bar.value@),
            command == Command::Edit(Edit::Enter) ==> (r matches EditorAction::Save(n) && (
            n matches Some(name) && name@ == old(self).command_bar.value@)) && final(self).prompt_type == PromptType::NoPrompt,
            command == Command::System(System::Dismiss) ==> final(self).prompt_type
                == PromptType::NoPrompt,
            final(self).view == old(self).view,
            final(self).should_quit == old(self).should_quit,
    {
        match command {
            Command::System(System::Dismiss) => {
                self.set_prompt(PromptType::NoPrompt);
                self.message_bar.update_message("Save aborted!", now_ms);
                EditorAction::Nothing
            },
            Command::Edit(Edit::Enter) => {
                let file_name = self.command_bar.value();
                self.set_prompt(PromptType::NoPrompt);
                EditorAction::Save(Some(file_name))
            },
            Command::Edit(edit_command) => {
                self.command_bar.handle_edit_command(edit_command);
                EditorAction::Nothing
            },
            _ => EditorAction::Nothing,
        }
    }

    fn process_command_during_search(&mut self, command: Command, now_ms: u64) -> (r:
        EditorAction)
        requires
            old(self).wf(),
            old(self).prompt_type == PromptType::Search,
        ensures
            final(self).wf(),
            r == EditorAction::Nothing,
            command == Command::System(System::Dismiss) || command == Command::Edit(Edit::Enter)
                ==> final(self).prompt_type == PromptType::NoPrompt && final(self).view.search_info is None,
            final(self).view.buffer == old(self).view.buffer,
            final(self).should_quit == old(self).should_quit,
    {
        match command {
            Command::System(System::Dismiss) => {
                self.view.dimiss_search();
                self.set_prompt(PromptType::NoPrompt);
                EditorAction::Nothing
            },
            Command::Edit(Edit::Enter) => {
                self.view.exit_search();
                self.set_prompt(PromptType::NoPrompt);
                EditorAction::Nothing
            },
            Command::Edit(edit_command) => {
                self.command_bar.handle_edit_command(edit_command);
                let query = self.command_bar.value();
                self.view.search(query.as_str());
                EditorAction::Nothing
            },
            Command::Move(Move::Down) => {
                self.view.search_next();
                EditorAction::Nothing
            },
            Command::Move(Move::Up) => {
                self.view.search_prev();
                EditorAction::Nothing
            },
            _ => EditorAction::Nothing,
        }
    }

    /// Processes one command as an atomic state transition and says what
    /// outside work, if any, it asks for. Resizing applies in any prompt
    /// state; other commands go to the active prompt or to the document.
    pub fn process_command(&mut self, command: Command, now_ms: u64) -> (r: EditorAction)
        requires
            old(self).wf(),
        ensures
            final(self).wf(),
            r matches EditorAction::Save(n) ==> (old(self).prompt_type == PromptType::NoPrompt
                && n is None && command == Command::System(System::Save) && old(
                self,
            ).view.buffer.file_name is Some) || (old(self).prompt_type == PromptType::Save
                && command == Command::Edit(Edit::Enter) && (n matches Some(name) && name@ == old(
                self,
            ).command_bar.value@)),
            old(self).prompt_type == PromptType::NoPrompt ==> (command matches Command::Move(m)
                ==> crate::view::spec_move_applied(old(self).view, final(self).view, m)),
            old(self).prompt_type == PromptType::NoPrompt ==> (command matches Command::Edit(e)
                ==> crate::view::spec_edit_applied(old(self).view, final(self).view, e)),
            command matches Command::System(System::Resize(sz)) ==> final(self).terminal_size
                == sz && final(self).prompt_type == old(self).prompt_type && final(self).view.buffer == old(self).view.buffer && final(self).should_quit == old(
                self,
            ).should_quit,
            old(self).prompt_type == PromptType::Save && !(command matches Command::System(
                System::Resize(_),
            )) ==> final(self).view == old(self).view,
            old(self).prompt_type == PromptType::Search && !(command matches Command::System(
                System::Resize(_),
            )) ==> final(self).view.buffer == old(self).view.buffer,
            old(self).prompt_type == PromptType::NoPrompt && command == Command::System(
                System::Search,
            ) ==> final(self).prompt_type == PromptType::Search,
            old(self).prompt_type == PromptType::Save && (command == Command::System(
                System::Dismiss,
            ) || command == Command::Edit(Edit::Enter)) ==> final(self).prompt_type
                == PromptType::NoPrompt,
            old(self).prompt_type == PromptType::Search && (command == Command::System(
                System::Dismiss,
            ) || command == Command::Edit(Edit::Enter)) ==> final(self).prompt_type
                == PromptType::NoPrompt && final(self).view.search_info is None,
            old(self).prompt_type == PromptType::NoPrompt && command == Command::System(
                System::Quit,
            ) ==> ((!old(self).view.buffer.dirty || old(self).quit_times + 1 == TIMES_FOR_QUIT
                ==> final(self).should_quit) && (old(self).view.buffer.dirty && old(
                self,
            ).quit_times + 1 < TIMES_FOR_QUIT ==> final(self).quit_times == old(self).quit_times
                + 1 && final(self).should_quit == old(self).should_quit)),
    {
        match command {
            Command::System(System::Resize(size)) => {
                self.handle_resize_command(size);
                EditorAction::Nothing
            },
            _ => {
                match self.prompt_type {
                    PromptType::NoPrompt => self.process_command_no_prompt(command, now_ms),
                    PromptType::Save => self.process_command_during_save(command, now_ms),
                    PromptType::Search => self.process_command_during_search(command, now_ms),
                }
            },
        }
    }

    /// Gives the view all but the two bottom rows and each bar one row.
    pub fn handle_resize_command(&mut self, size: Size)
        requires
            old(self).wf(),
        ensures
            final(self).wf(),
            final(self).terminal_size == size,
            final(self).view.size == (Size {
                height: crate::view::sat_sub(size.height as int, 2) as usize,
                width: size.width,
            }),
            final(self).message_bar.size == (Size { height: 1, width: size.width }),
            final(self).status_bar.size == (Size { height: 1, width: size.width }),
            final(self).command_bar.size == (Size { height: 1, width: size.width }),
            final(self).view.buffer == old(self).view.buffer,
            final(self).prompt_type == old(self).prompt_type,
            final(self).should_quit == old(self).should_quit,
    {
        self.terminal_size = size;
        self.view.resize(Size { height: size.height.saturating_sub(2), width: size.width });
        let bar_size = Size { height: 1, width: size.width };
        self.message_bar.resize(bar_size);
        self.status_bar.resize(bar_size);
        self.command_bar.resize(bar_size);
    }

    /// Quit on a clean document, or on the last of the repeated presses;
    /// otherwise warn and count the press.
    pub fn handle_quit(&mut self, now_ms: u64)
        requires
            old(self).wf(),
        ensures
            final(self).wf(),
            !old(self).view.buffer.dirty || old(self).quit_times + 1 == TIMES_FOR_QUIT ==> final(self).should_quit,
            old(self).view.buffer.dirty && old(self).quit_times + 1 < TIMES_FOR_QUIT ==> final(self).quit_times == old(self).quit_times + 1 && final(self).should_quit == old(self).should_quit,
            final(self).view == old(self).view,
            final(self).prompt_type == old(self).prompt_type,
    {
        proof {
            reveal_strlit("WARNING: File has unsaved changes. Press ^Q ");
            reveal_strlit(" more times to exit");
        }
        let modified = self.view.buffer.dirty;
        if !modified || self.quit_times + 1 == TIMES_FOR_QUIT {
            self.should_quit = true;
        } else {
            let remaining = (TIMES_FOR_QUIT - self.quit_times - 1) as usize;
            let mut msg = String::from_str("WARNING: File has unsaved changes. Press ^Q ");
            let digits = crate::decimal::usize_to_string(remaining);
            msg.append(digits.as_str());
            msg.append(" more times to exit");
            self.message_bar.update_message(msg.as_str(), now_ms);
            self.quit_times = self.quit_times + 1;
        }
    }

    /// Records the outcome of the save the session performed: on success
    /// the buffer is marked clean (rebound when a new name was chosen) and
    /// the status refreshed; either way the user is told.
    pub fn finish_save(&mut self, file_name: Option<String>, ok: bool, now_ms: u64)
        requires
            old(self).wf(),
        ensures
            final(self).wf(),
            ok ==> !final(self).view.buffer.dirty && final(self).view.buffer.file_name == (
            if file_name is Some {
                file_name
            } else {
                old(self).view.buffer.file_name
            }),
            !ok ==> final(self).view.buffer == old(self).view.buffer,
            final(self).prompt_type == old(self).prompt_type,
            final(self).should_quit == old(self).should_quit,
    {
        if ok {
            self.view.buffer.mark_saved(file_name);
            self.message_bar.update_message("File saved successfully", now_ms);
            self.refresh_status();
        } else {
            self.message_bar.update_message("Failed to save file", now_ms);
        }
    }

    /// Save at once when a path is bound; otherwise open the save-as
    /// prompt.
    fn handle_save_command(&mut self) -> (r: EditorAction)
        requires
            old(self).wf(),
            old(self).prompt_type == PromptType::NoPrompt,
        ensures
            final(self).wf(),
            old(self).view.buffer.file_name is Some ==> r == EditorAction::Save(None::<String>)
                && final(self).prompt_type == PromptType::NoPrompt,
            old(self).view.buffer.file_name is None ==> r == EditorAction::Nothing && final(self).prompt_type == PromptType::Save,
            final(self).view.buffer == old(self).view.buffer,
    {
        if self.view.is_file_loaded() {
            EditorAction::Save(None)
        } else {
            self.set_prompt(PromptType::Save);
            EditorAction::Nothing
        }
    }

    /// Where the terminal caret belongs: at the typing point of the bottom
    /// bar while a prompt runs, else at the cursor's place in the view.
    pub fn cursor_screen_position(&self) -> (p: Position)
        requires
            self.view.buffer.wf(),
        ensures
            self.prompt_type != PromptType::NoPrompt ==> p.row as int == crate::view::sat_sub(
                self.terminal_size.height as int,
                1,
            ) && p.col as int == {
                let want = crate::view::sat_add_usize(
                    self.command_bar.prompt@.len() as int,
                    self.command_bar.value.fragments@.len() as int,
                );
                if want <= self.command_bar.size.width as int {
                    want
                } else {
                    self.command_bar.size.width as int
                }
            },
            self.prompt_type == PromptType::NoPrompt ==> {
                &&& p.row as int == crate::view::sat_sub(
                    self.view.text_location.line_index as int,
                    self.view.scroll_offset.row as int,
                )
                &&& p.col as int == {
                    let c = crate::view::sat_sub(
                        crate::view::spec_cursor_col(
                            self.view.buffer.lines@,
                            self.view.text_location,
                        ),
                        self.view.scroll_offset.col as int,
                    );
                    if self.view.show_line_numbers {
                        crate::view::sat_add_usize(c, 6)
                    } else {
                        c
                    }
                }
            },
    {
        if self.in_prompt() {
            Position {
                row: self.terminal_size.height.saturating_sub(1),
                col: self.command_bar.caret_position_col(),
            }
        } else {
            self.view.get_caret_position()
        }
    }

    pub fn toggle_line_numbers(&mut self)
        requires
            old(self).wf(),
        ensures
            final(self).wf(),
            final(self).view.show_line_numbers == !old(self).view.show_line_numbers,
            final(self).view.buffer == old(self).view.buffer,
            final(self).prompt_type == old(self).prompt_type,
    {
        self.view.toggle_line_numbers();
    }

    fn reset_quit_times(&mut self)
        ensures
            *final(self) == (Editor { quit_times: 0, ..*old(self) }),
    {
        self.quit_times = 0;
    }

    /// Switches the bottom bar: the search prompt remembers where the
    /// cursor was, the save prompt asks for a name, and leaving a prompt
    /// repaints the message bar. The prompt's typed value starts empty.
    fn set_prompt(&mut self, prompt_type: PromptType)
        requires
            old(self).wf(),
            prompt_type == PromptType::Search ==> old(self).view.search_info is None || old(
                self,
            ).prompt_type == PromptType::Search,
            prompt_type != PromptType::Search ==> old(self).view.search_info is None,
        ensures
            final(self).wf(),
            final(self).prompt_type == prompt_type,
            final(self).view.buffer == old(self).view.buffer,
            final(self).should_quit == old(self).should_quit,
            prompt_type != PromptType::Search ==> final(self).view == old(self).view,
            final(self).command_bar.value.fragments@.len() == 0,
    {
        match prompt_type {
            PromptType::NoPrompt => self.message_bar.set_needs_redraw(true),
            PromptType::Save => self.command_bar.set_prompt("Save as: "),
            PromptType::Search => {
                self.view.enter_search();
                self.command_bar.set_prompt("Find: ");
            },
        }
        self.command_bar.clear_value();
        self.prompt_type = prompt_type;
    }
}

} // verus!
