//! The status line: file name, line count, modified marker on the left,
//! cursor position on the right.

use crate::decimal::spec_decimal;
use crate::document_status::DocumentStatus;
use crate::size::Size;
use crate::view::{sat_sub, spaces};
use vstd::prelude::*;

verus! {

/// The left-hand portion of the status line.
pub open spec fn spec_status_beginning(status: DocumentStatus) -> Seq<char> {
    status.file_name@ + " - "@ + spec_decimal(status.number_of_lines as int) + " lines"@ + " "@
        + (if status.modified {
        "(modified)"@
    } else {
        Seq::<char>::empty()
    })
}

/// The right-hand portion: one-based cursor line over line count.
pub open spec fn spec_status_position(status: DocumentStatus) -> Seq<char> {
    spec_decimal(
        if status.line_number < usize::MAX {
            status.line_number + 1
        } else {
            usize::MAX as int
        },
    ) + "/"@ + spec_decimal(status.number_of_lines as int)
}

/// The whole status line fitted to `width` columns: the left portion, then
/// the position indicator right-aligned in the remaining columns; an empty
/// line when the text cannot fit.
pub open spec fn spec_status_line(status: DocumentStatus, width: int) -> Seq<char> {
    let beginning = spec_status_beginning(status);
    let position = spec_status_position(status);
    let remainder = sat_sub(width, beginning.len() as int);
    let full = beginning + spaces(remainder - position.len()) + position;
    if full.len() <= width {
        full
    } else {
        Seq::<char>::empty()
    }
}

/// The status bar: the last status shown, the redraw flag and the bar's
/// size.
pub struct StatusBar {
    pub status: DocumentStatus,
    pub needs_redraw: bool,
    pub size: Size,
}

impl StatusBar {
    pub fn default() -> (s: StatusBar)
        ensures
            s.status.file_name@ == Seq::<char>::empty(),
            s.status.number_of_lines == 0,
            s.status.line_number == 0,
            !s.status.modified,
            !s.needs_redraw,
            s.size.width == 0 && s.size.height == 0,
    {
        StatusBar { status: DocumentStatus::default(), needs_redraw: false, size: Size::default() }
    }

    pub fn mark_redraw(&mut self, val: bool)
        ensures
            *final(self) == (StatusBar { needs_redraw: val, ..*old(self) }),
    {
        self.needs_redraw = val;
    }

    pub fn needs_redraw(&self) -> (b: bool)
        ensures
            b == self.needs_redraw,
    {
        self.needs_redraw
    }

    pub fn set_size(&mut self, size: Size)
        ensures
            *final(self) == (StatusBar { size, ..*old(self) }),
    {
        self.size = size;
    }

    pub fn resize(&mut self, size: Size)
        ensures
            *final(self) == (StatusBar { size, needs_redraw: true, ..*old(self) }),
    {
        self.set_size(size);
        self.mark_redraw(true);
    }

    /// Replaces the shown status and marks a repaint when it differs from
    /// the one on screen.
    pub fn update_status(&mut self, new_status: DocumentStatus)
        ensures
            final(self).size == old(self).size,
            ({
                let same = {
                    &&& old(self).status.file_name@ == new_status.file_name@
                    &&& old(self).status.number_of_lines == new_status.number_of_lines
                    &&& old(self).status.line_number == new_status.line_number
                    &&& old(self).status.modified == new_status.modified
                };
                if same {
                    final(self).status == old(self).status && final(self).needs_redraw == old(
                        self,
                    ).needs_redraw
                } else {
                    final(self).status == new_status && final(self).needs_redraw
                }
            }),
    {
        if !(self.status == new_status) {
            self.status = new_status;
            self.mark_redraw(true);
        }
    }

    /// The text the bar paints, fitted to its width. Marks the bar
    /// repainted.
    pub fn draw_text(&mut self) -> (s: String)
        ensures
            *final(self) == (StatusBar { needs_redraw: false, ..*old(self) }),
            s@ == spec_status_line(old(self).status, old(self).size.width as int),
    {
        proof {
            reveal_strlit(" - ");
            reveal_strlit(" ");
            reveal_strlit("/");
        }
        let line_count = self.status.line_count_to_string();
        let modified_indicator = self.status.modified_indicator_to_string();
        let mut beginning = self.status.file_name.clone();
        beginning.append(" - ");
        beginning.append(line_count.as_str());
        beginning.append(" ");
        beginning.append(modified_indicator.as_str());
        let position_indicator = self.status.position_indicator_to_string();
        let remainder_len = self.size.width.saturating_sub(beginning.unicode_len());
        let pos_len = position_indicator.unicode_len();
        let mut status = beginning;
        let pad = if remainder_len > pos_len {
            remainder_len - pos_len
        } else {
            0
        };
        crate::view::push_spaces(&mut status, pad);
        status.append(position_indicator.as_str());
        let to_print = if status.unicode_len() <= self.size.width {
            status
        } else {
            String::new()
        };
        self.mark_redraw(false);
        proof {
            assert(to_print@ =~= spec_status_line(old(self).status, old(self).size.width as int));
        }
        to_print
    }
}

} // verus!
