//! The one-line prompt at the bottom of the screen, used for save-as and
//! search input.

use crate::editor_commands::Edit;
use crate::line::{frag_texts, seq_width, Line};
use crate::size::Size;
use vstd::prelude::*;

verus! {

/// A prompt label and the value typed so far, with the redraw flag and the
/// bar's size.
pub struct CommandBar {
    pub prompt: String,
    pub value: Line,
    pub needs_redraw: bool,
    pub size: Size,
}

impl CommandBar {
    /// The typed value can always be measured.
    pub open spec fn wf(self) -> bool {
        self.value.wf()
    }

    pub fn default() -> (c: CommandBar)
        ensures
            c.wf(),
            c.prompt@ == Seq::<char>::empty(),
            c.value.fragments@.len() == 0,
            !c.needs_redraw,
            c.size.width == 0 && c.size.height == 0,
    {
        CommandBar {
            prompt: String::new(),
            value: Line::default(),
            needs_redraw: false,
            size: Size::default(),
        }
    }

    pub fn mark_redraw(&mut self, val: bool)
        ensures
            *final(self) == (CommandBar { needs_redraw: val, ..*old(self) }),
    {
        self.needs_redraw = val;
    }

    pub fn needs_redraw(&self) -> (b: bool)
        ensures
            b == self.needs_redraw,
    {
        self.needs_redraw
    }

    pub fn set_size(&mut self, size: Size)
        ensures
            *final(self) == (CommandBar { size, ..*old(self) }),
    {
        self.size = size;
    }

    pub fn resize(&mut self, size: Size)
        ensures
            *final(self) == (CommandBar { size, needs_redraw: true, ..*old(self) }),
    {
        self.set_size(size);
        self.mark_redraw(true);
    }

    /// Typing appends one character to the value; backspace removes the
    /// last one; the other edit commands do nothing here.
    pub fn handle_edit_command(&mut self, command: Edit)
        requires
            old(self).wf(),
        ensures
            final(self).wf(),
            final(self).prompt == old(self).prompt,
            final(self).size == old(self).size,
            command matches Edit::Insert(c) ==> final(self).value@ == old(self).value@ + seq![c]
                && final(self).needs_redraw,
            command == Edit::Backspace && old(self).value.fragments@.len() > 0 ==> final(self).value@ == frag_texts(
                old(self).value.fragments@.take(old(self).value.fragments@.len() - 1),
            ).flatten() && final(self).needs_redraw,
            command == Edit::Backspace && old(self).value.fragments@.len() == 0 ==> final(self).value@ == old(self).value@ && final(self).needs_redraw,
            command == Edit::Delete || command == Edit::Enter || command == Edit::RemoveLine
                ==> *final(self) == *old(self),
    {
        match command {
            Edit::Insert(c) => {
                self.value.append_char(c);
                self.mark_redraw(true);
            },
            Edit::Backspace => {
                self.value.delete_last();
                self.mark_redraw(true);
            },
            Edit::Delete | Edit::Enter | Edit::RemoveLine => {},
        }
    }

    /// The caret's screen column: just past the prompt and the typed
    /// graphemes, capped at the bar's width.
    pub fn caret_position_col(&self) -> (col: usize)
        ensures
            col as int == {
                let want = crate::view::sat_add_usize(
                    self.prompt@.len() as int,
                    self.value.fragments@.len() as int,
                );
                if want <= self.size.width as int {
                    want
                } else {
                    self.size.width as int
                }
            },
    {
        let max_width = self.prompt.unicode_len().saturating_add(self.value.grapheme_count());
        if max_width < self.size.width {
            max_width
        } else {
            self.size.width
        }
    }

    /// The value typed so far, as raw text.
    pub fn value(&self) -> (s: String)
        ensures
            s@ == self.value@,
    {
        self.value.to_display_string()
    }

    pub fn set_prompt(&mut self, new_prompt: &str)
        ensures
            final(self).prompt@ == new_prompt@,
            final(self).value == old(self).value,
            final(self).size == old(self).size,
            final(self).needs_redraw,
    {
        self.prompt = new_prompt.to_owned();
        self.mark_redraw(true);
    }

    pub fn clear_value(&mut self)
        ensures
            final(self).value.fragments@.len() == 0,
            final(self).value.wf(),
            final(self).prompt == old(self).prompt,
            final(self).size == old(self).size,
            final(self).needs_redraw,
    {
        self.value = Line::default();
        self.mark_redraw(true);
    }

    /// The text the bar paints: the prompt followed by the tail of the
    /// typed value that fits beside it, or nothing when even that
    /// overflows the bar. Marks the bar repainted.
    pub fn draw_text(&mut self) -> (s: String)
        requires
            old(self).wf(),
        ensures
            final(self).wf(),
            *final(self) == (CommandBar { needs_redraw: false, ..*old(self) }),
            ({
                let value_area = crate::view::sat_sub(
                    old(self).size.width as int,
                    old(self).prompt@.len() as int,
                );
                let value_end = seq_width(old(self).value.fragments@) as int;
                let value_start = crate::view::sat_sub(value_end, value_area);
                let shown = if value_start >= value_end {
                    Seq::<char>::empty()
                } else {
                    crate::line::spec_substr(
                        old(self).value.fragments@,
                        0,
                        value_start as nat,
                        value_end as nat,
                    )
                };
                s@ == (if old(self).prompt@.len() + shown.len() <= old(self).size.width as int {
                    old(self).prompt@ + shown
                } else {
                    Seq::<char>::empty()
                })
            }),
    {
        let value_area = self.size.width.saturating_sub(self.prompt.unicode_len());
        let value_end = self.value.width();
        let value_start = value_end.saturating_sub(value_area);
        let shown = self.value.get_substr(value_start, value_end);
        let mut message = self.prompt.clone();
        message.append(shown.as_str());
        let to_print = if message.unicode_len() <= self.size.width {
            message
        } else {
            String::new()
        };
        self.mark_redraw(false);
        to_print
    }
}

} // verus!
