//! Several editor windows over one terminal: one is active, commands go to
//! it, and quitting closes windows one at a time. The event loop, key
//! decoding and terminal control live outside; they hand in commands,
//! sizes and times as plain values.

use crate::decimal::usize_to_string;
use crate::editor::{Editor, EditorAction};
use crate::editor_commands::{Command, System};
use crate::size::Size;
use vstd::prelude::*;

verus! {

/// The window shows the named file: bound to its name, one buffer line
/// per row read. A file whose rows could not be read makes no claim here;
/// the window then shows an error message instead.
pub open spec fn window_holds(e: Editor, file: (String, Option<Vec<String>>)) -> bool {
    match file.1 {
        Some(rows) => {
            &&& e.view.buffer.file_name matches Some(n) && n@ == file.0@
            &&& e.view.buffer.lines@.len() == rows@.len()
            &&& (forall|i: int|
                0 <= i < rows@.len() ==> (#[trigger] e.view.buffer.lines@[i])@ == rows@[i]@)
        },
        None => true,
    }
}

/// The open editor windows, the index of the active one, the terminal
/// size, and whether the whole session should end.
pub struct MultiEditor {
    pub editors: Vec<Editor>,
    pub active_editor: usize,
    pub terminal_size: Size,
    pub should_quit: bool,
}

impl MultiEditor {
    /// At least one window is open, the active index points at one of
    /// them, and every window is well formed.
    pub open spec fn wf(self) -> bool {
        &&& self.editors@.len() > 0
        &&& self.active_editor < self.editors@.len()
        &&& forall|i: int| 0 <= i < self.editors@.len() ==> (#[trigger] self.editors@[i]).wf()
    }

    /// A session with one fresh window, sized to the terminal.
    pub fn new(size: Size, now_ms: u64) -> (m: MultiEditor)
        ensures
            m.wf(),
            m.editors@.len() == 1,
            m.active_editor == 0,
            m.terminal_size == size,
            !m.should_quit,
    {
        let mut editors: Vec<Editor> = Vec::new();
        editors.push(Editor::new(size, now_ms));
        MultiEditor { editors, active_editor: 0, terminal_size: size, should_quit: false }
    }

    /// Resizes every window to the new terminal size.
    pub fn resize(&mut self, size: Size)
        requires
            old(self).wf(),
        ensures
            final(self).wf(),
            final(self).terminal_size == size,
            final(self).editors@.len() == old(self).editors@.len(),
            final(self).active_editor == old(self).active_editor,
            final(self).should_quit == old(self).should_quit,
            forall|i: int|
                0 <= i < final(self).editors@.len() ==> (#[trigger] final(self).editors@[i]).terminal_size == size && final(self).editors@[i].view.buffer == old(
                    self,
                ).editors@[i].view.buffer,
    {
        self.terminal_size = size;
        let mut i: usize = 0;
        while i < self.editors.len()
            invariant
                i <= self.editors@.len(),
                self.editors@.len() == old(self).editors@.len(),
                self.active_editor == old(self).active_editor,
                self.should_quit == old(self).should_quit,
                self.terminal_size == size,
                forall|j: int|
                    0 <= j < i ==> (#[trigger] self.editors@[j]).wf()
                        && self.editors@[j].terminal_size == size
                        && self.editors@[j].view.buffer == old(self).editors@[j].view.buffer,
                forall|j: int|
                    i <= j < self.editors@.len() ==> (#[trigger] self.editors@[j]) == old(
                        self,
                    ).editors@[j],
                old(self).wf(),
            decreases self.editors@.len() - i,
        {
            let mut e = self.editors.remove(i);
            e.handle_resize_command(size);
            self.editors.insert(i, e);
            i = i + 1;
        }
    }

    /// The window commands are routed to.
    pub fn active_editor(&self) -> (e: &Editor)
        requires
            self.wf(),
        ensures
            e == &self.editors@[self.active_editor as int],
    {
        &self.editors[self.active_editor]
    }

    /// Posts a message in the active window.
    pub fn change_editor_message(&mut self, message: &str, now_ms: u64)
        requires
            old(self).wf(),
        ensures
            final(self).wf(),
            final(self).editors@.len() == old(self).editors@.len(),
            final(self).active_editor == old(self).active_editor,
            final(self).should_quit == old(self).should_quit,
            final(self).terminal_size == old(self).terminal_size,
            forall|i: int|
                0 <= i < old(self).editors@.len() && i != old(self).active_editor ==> (
                #[trigger] final(self).editors@[i]) == old(self).editors@[i],
            final(self).editors@[old(self).active_editor as int].view == old(self).editors@[old(
                self,
            ).active_editor as int].view,
            final(self).editors@[old(self).active_editor as int].prompt_type == old(
                self,
            ).editors@[old(self).active_editor as int].prompt_type,
    {
        let idx = self.active_editor;
        let mut e = self.editors.remove(idx);
        e.update_message(message, now_ms);
        self.editors.insert(idx, e);
    }

    /// Loads one file per window: the first into the active window, each
    /// further file into a new window that becomes active. A file whose
    /// rows are `None` could not be read; its window shows an error
    /// message instead.
    pub fn load(&mut self, files: &Vec<(String, Option<Vec<String>>)>, now_ms: u64)
        requires
            old(self).wf(),
            forall|i: int|
                0 <= i < old(self).editors@.len() ==> (#[trigger] old(
                    self,
                ).editors@[i]).prompt_type == crate::editor::PromptType::NoPrompt,
            old(self).editors@.len() + files@.len() <= usize::MAX,
        ensures
            final(self).wf(),
            files@.len() == 0 ==> *final(self) == *old(self),
            files@.len() > 0 ==> {
                &&& final(self).editors@.len() == old(self).editors@.len() + files@.len() - 1
                &&& final(self).active_editor as int == (if files@.len() == 1 {
                    old(self).active_editor as int
                } else {
                    old(self).editors@.len() + files@.len() - 2
                })
                &&& window_holds(
                    final(self).editors@[old(self).active_editor as int],
                    files@[0],
                )
                &&& (files@[0].1 is None ==> final(self).editors@[old(
                    self,
                ).active_editor as int].view.buffer == old(self).editors@[old(
                    self,
                ).active_editor as int].view.buffer)
                &&& (forall|k: int|
                    1 <= k < files@.len() ==> window_holds(
                        #[trigger] final(self).editors@[old(self).editors@.len() + k - 1],
                        files@[k],
                    ))
                &&& (forall|k: int|
                    1 <= k < files@.len() && files@[k].1 is None ==> (#[trigger] final(self).editors@[old(self).editors@.len() + k - 1]).view.buffer.file_name is None
                        && final(self).editors@[old(self).editors@.len() + k
                        - 1].view.buffer.lines@.len() == 0)
            },
            forall|j: int|
                0 <= j < old(self).editors@.len() && j != old(self).active_editor ==> (
                #[trigger] final(self).editors@[j]).view.buffer == old(
                    self,
                ).editors@[j].view.buffer,
            final(self).should_quit == old(self).should_quit,
    {
        if files.len() == 0 {
            return ;
        }
        let ghost old_len = old(self).editors@.len() as int;
        let ghost old_active = old(self).active_editor as int;
        let mut i: usize = 0;
        while i < files.len()
            invariant
                self.wf(),
                old(self).wf(),
                0 < files@.len(),
                i <= files@.len(),
                i == 0 ==> self.editors@.len() == old_len && self.active_editor as int
                    == old_active && *self == *old(self),
                i > 0 ==> self.editors@.len() == old_len + i - 1,
                i >= 1 ==> window_holds(self.editors@[old_active], files@[0]),
                i >= 1 && files@[0].1 is None ==> self.editors@[old_active].view.buffer == old(
                    self,
                ).editors@[old_active].view.buffer,
                i >= 1 ==> self.active_editor as int == (if i == 1 {
                    old_active
                } else {
                    old_len + i - 2
                }),
                forall|k: int|
                    1 <= k < i ==> window_holds(
                        #[trigger] self.editors@[old_len + k - 1],
                        files@[k],
                    ),
                forall|k: int|
                    1 <= k < i && files@[k].1 is None ==> (#[trigger] self.editors@[old_len + k
                        - 1]).view.buffer.file_name is None && self.editors@[old_len + k
                        - 1].view.buffer.lines@.len() == 0,
                forall|j: int|
                    0 <= j < old_len && j != old_active ==> (#[trigger] self.editors@[j]).view.buffer == old(self).editors@[j].view.buffer,
                old_len == old(self).editors@.len(),
                old_active == old(self).active_editor as int,
                self.should_quit == old(self).should_quit,
                old(self).editors@.len() + files@.len() <= usize::MAX,
                self.editors@[self.active_editor as int].prompt_type
                    == crate::editor::PromptType::NoPrompt,
            decreases files@.len() - i,
        {
            if i > 0 {
                self.create_new_editor(now_ms);
                self.active_editor = self.editors.len() - 1;
            }
            let idx = self.active_editor;
            let mut e = self.editors.remove(idx);
            match &files[i].1 {
                Some(rows) => e.load(files[i].0.as_str(), Some(rows), now_ms),
                None => e.load(files[i].0.as_str(), None, now_ms),
            }
            self.editors.insert(idx, e);
            i = i + 1;
        }
    }

    /// Switches to the window at `editor_index` when it exists, marking it
    /// for a full repaint and posting a note there; reports whether the
    /// switch happened (the screen must then be cleared).
    pub fn switch_editor(&mut self, editor_index: usize, now_ms: u64) -> (switched: bool)
        requires
            old(self).wf(),
        ensures
            final(self).wf(),
            switched == (editor_index < old(self).editors@.len()),
            switched ==> final(self).active_editor == editor_index,
            !switched ==> *final(self) == *old(self),
            final(self).editors@.len() == old(self).editors@.len(),
            final(self).should_quit == old(self).should_quit,
    {
        proof {
            reveal_strlit("Switched to editor window ");
        }
        if editor_index < self.editors.len() {
            self.active_editor = editor_index;
            let mut e = self.editors.remove(editor_index);
            e.set_needs_redraw(true);
            self.editors.insert(editor_index, e);
            let mut msg = String::from_str("Switched to editor window ");
            let digits = usize_to_string(editor_index);
            msg.append(digits.as_str());
            self.change_editor_message(msg.as_str(), now_ms);
            true
        } else {
            false
        }
    }

    /// Opens a fresh window (which does not become active) and posts how
    /// many are now open.
    pub fn create_new_editor(&mut self, now_ms: u64)
        requires
            old(self).wf(),
            old(self).editors@.len() < usize::MAX,
        ensures
            final(self).wf(),
            final(self).editors@.len() == old(self).editors@.len() + 1,
            final(self).active_editor == old(self).active_editor,
            final(self).should_quit == old(self).should_quit,
            forall|i: int|
                0 <= i < old(self).editors@.len() ==> (#[trigger] final(self).editors@[i]).view.buffer == old(self).editors@[i].view.buffer && final(self).editors@[i].prompt_type == old(self).editors@[i].prompt_type,
            final(self).editors@.last().view.buffer.lines@.len() == 0,
            final(self).editors@.last().view.buffer.file_name is None,
            !final(self).editors@.last().view.buffer.dirty,
            final(self).editors@.last().prompt_type == crate::editor::PromptType::NoPrompt,
    {
        proof {
            reveal_strlit("New editor created, ");
            reveal_strlit(" editors are open");
        }
        self.editors.push(Editor::new(self.terminal_size, now_ms));
        let mut msg = String::from_str("New editor created, ");
        let digits = usize_to_string(self.editors.len());
        msg.append(digits.as_str());
        msg.append(" editors are open");
        self.change_editor_message(msg.as_str(), now_ms);
    }

    /// Routes one command: quitting closes the active window (the session
    /// ends with the last one), resizing reaches every window, anything
    /// else goes to the active window. Returns the save work the active
    /// window asked for, and whether the screen must be cleared because a
    /// window was closed.
    pub fn process_command(&mut self, command: Command, now_ms: u64) -> (r: (
        EditorAction,
        bool,
    ))
        requires
            old(self).wf(),
        ensures
            final(self).wf(),
            command == Command::System(System::Quit) ==> r.0 == EditorAction::Nothing,
            command == Command::System(System::Quit) && r.1 ==> final(self).editors@.len() == old(
                self,
            ).editors@.len() - 1 && final(self).should_quit == old(self).should_quit,
            command == Command::System(System::Quit) && !r.1 ==> final(self).editors@.len() == old(
                self,
            ).editors@.len(),
            command == Command::System(System::Quit) && old(self).editors@.len() > 1 ==> final(self).should_quit == old(self).should_quit,
            command != Command::System(System::Quit) ==> final(self).editors@.len() == old(
                self,
            ).editors@.len() && final(self).should_quit == old(self).should_quit && !r.1,
    {
        match command {
            Command::System(System::Quit) => {
                let idx = self.active_editor;
                let mut e = self.editors.remove(idx);
                let action = e.process_command(command, now_ms);
                let quitting = e.should_quit;
                self.editors.insert(idx, e);
                let mut cleared = false;
                if quitting {
                    if self.editors.len() <= 1 {
                        self.should_quit = true;
                    } else {
                        self.editors.remove(self.active_editor);
                        if self.active_editor >= self.editors.len() {
                            self.active_editor = self.editors.len() - 1;
                        }
                        let idx2 = self.active_editor;
                        let mut e2 = self.editors.remove(idx2);
                        e2.set_needs_redraw(true);
                        self.editors.insert(idx2, e2);
                        cleared = true;
                    }
                }
                (action, cleared)
            },
            Command::System(System::Resize(size)) => {
                self.resize(size);
                (EditorAction::Nothing, false)
            },
            _ => {
                let idx = self.active_editor;
                let mut e = self.editors.remove(idx);
                let action = e.process_command(command, now_ms);
                self.editors.insert(idx, e);
                (action, false)
            },
        }
    }

    /// Reports the outcome of a requested save to the active window.
    pub fn finish_save(&mut self, file_name: Option<String>, ok: bool, now_ms: u64)
        requires
            old(self).wf(),
        ensures
            final(self).wf(),
            final(self).editors@.len() == old(self).editors@.len(),
            final(self).active_editor == old(self).active_editor,
            final(self).should_quit == old(self).should_quit,
    {
        let idx = self.active_editor;
        let mut e = self.editors.remove(idx);
        e.finish_save(file_name, ok, now_ms);
        self.editors.insert(idx, e);
    }
}

} // verus!
