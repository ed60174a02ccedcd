//! The viewport/cursor controller: a text cursor in logical document
//! coordinates, a scroll offset in physical coordinates, and the translation
//! between the two, including word-boundary navigation and the renderable
//! slice of each visible row.

use crate::buffer::Buffer;
use crate::line::{Fragment, Line};
use crate::position::Position;
use crate::search_info::SearchInfo;
use crate::document_status::DocumentStatus;
use crate::editor_commands::{Edit, Move};
use crate::size::Size;
use crate::decimal::usize_to_string;
use crate::unicode::{push_char, str_trim, trim_of};
use vstd::prelude::*;

verus! {

/// A logical document position: a pair of line index and grapheme index,
/// denoting a spot strictly between grapheme clusters. The grapheme index
/// may equal the line's grapheme count, meaning "after the last cluster".
#[derive(Clone, Copy, PartialEq, Eq, Structural, Debug)]
pub struct Location {
    pub line_index: usize,
    pub grapheme_index: usize,
}

impl Default for Location {
    fn default() -> (loc: Location)
        ensures
            loc.line_index == 0,
            loc.grapheme_index == 0,
    {
        Location { line_index: 0, grapheme_index: 0 }
    }
}

/// The grapheme count of the line at `li`, counting a line index outside
/// the document as an empty virtual line.
pub open spec fn count_at(lines: Seq<Line>, li: int) -> int {
    if 0 <= li < lines.len() {
        lines[li].fragments@.len() as int
    } else {
        0
    }
}

/// A fragment that reads as whitespace for word navigation: its raw text
/// trims to nothing, or it is rendered as a space or the open-box glyph.
pub open spec fn is_ws_frag(f: Fragment) -> bool {
    trim_of(f.grapheme@).len() == 0 || f.replacement == Some(' ') || f.replacement == Some(
        '\u{2423}',
    )
}

/// The grapheme index snapped into the addressed line: clamped to the
/// line's grapheme count, or zero on a line index outside the document.
pub open spec fn spec_snap_grapheme(lines: Seq<Line>, loc: Location) -> Location {
    Location {
        line_index: loc.line_index,
        grapheme_index: if loc.grapheme_index <= count_at(lines, loc.line_index as int) {
            loc.grapheme_index
        } else {
            count_at(lines, loc.line_index as int) as usize
        },
    }
}

/// Cursor after moving up `step` rows: the line index saturates at zero and
/// the grapheme index snaps to the destination line.
pub open spec fn spec_move_up(lines: Seq<Line>, loc: Location, step: int) -> Location {
    let li2: usize = if loc.line_index >= step {
        (loc.line_index - step) as usize
    } else {
        0
    };
    spec_snap_grapheme(
        lines,
        Location { line_index: li2, grapheme_index: loc.grapheme_index },
    )
}

/// Cursor after moving down `step` rows: the line index saturates, the
/// grapheme index snaps, and the line index is then clamped to at most the
/// line count (the virtual past-the-end line).
pub open spec fn spec_move_down(lines: Seq<Line>, loc: Location, step: int) -> Location {
    let li2: usize = if loc.line_index + step <= usize::MAX {
        (loc.line_index + step) as usize
    } else {
        usize::MAX
    };
    let snapped = spec_snap_grapheme(
        lines,
        Location { line_index: li2, grapheme_index: loc.grapheme_index },
    );
    Location {
        line_index: if snapped.line_index <= lines.len() {
            snapped.line_index
        } else {
            lines.len() as usize
        },
        grapheme_index: snapped.grapheme_index,
    }
}

/// Cursor after one step left: back one grapheme, or to the end of the
/// previous line from column zero, or unchanged at the document start.
pub open spec fn spec_move_left(lines: Seq<Line>, loc: Location) -> Location {
    if loc.grapheme_index > 0 {
        Location { line_index: loc.line_index, grapheme_index: (loc.grapheme_index - 1) as usize }
    } else if loc.line_index > 0 {
        Location {
            line_index: (loc.line_index - 1) as usize,
            grapheme_index: count_at(lines, loc.line_index - 1) as usize,
        }
    } else {
        loc
    }
}

/// Cursor after one step right: forward one grapheme, or to the start of
/// the next line (possibly the virtual past-the-end position) from the end
/// of a line.
pub open spec fn spec_move_right(lines: Seq<Line>, loc: Location) -> Location {
    if loc.grapheme_index < count_at(lines, loc.line_index as int) {
        Location { line_index: loc.line_index, grapheme_index: (loc.grapheme_index + 1) as usize }
    } else {
        spec_move_down(lines, Location { line_index: loc.line_index, grapheme_index: 0 }, 1)
    }
}

/// The first index at or after `i` that is whitespace or the end of the
/// fragment sequence.
pub open spec fn skip_non_ws(frags: Seq<Fragment>, i: int) -> int
    decreases frags.len() - i,
    when 0 <= i <= frags.len()
{
    if i == frags.len() || is_ws_frag(frags[i]) {
        i
    } else {
        skip_non_ws(frags, i + 1)
    }
}

/// The first index at or after `i` that is not whitespace, or the end of
/// the fragment sequence.
pub open spec fn skip_ws(frags: Seq<Fragment>, i: int) -> int
    decreases frags.len() - i,
    when 0 <= i <= frags.len()
{
    if i == frags.len() || !is_ws_frag(frags[i]) {
        i
    } else {
        skip_ws(frags, i + 1)
    }
}

/// The first index at or below `i` that is not whitespace, stopping at zero.
pub open spec fn back_skip_ws(frags: Seq<Fragment>, i: int) -> int
    decreases i,
    when 0 <= i < frags.len()
{
    if i <= 0 || !is_ws_frag(frags[i]) {
        i
    } else {
        back_skip_ws(frags, i - 1)
    }
}

/// The start of the word containing position `i`: walks left while the
/// previous fragment is not whitespace, stopping at zero.
pub open spec fn back_to_word_start(frags: Seq<Fragment>, i: int) -> int
    decreases i,
    when 0 <= i <= frags.len()
{
    if i <= 0 || is_ws_frag(frags[i - 1]) {
        i
    } else {
        back_to_word_start(frags, i - 1)
    }
}

/// Cursor after a word jump right: skip the rest of the current word, then
/// the following whitespace; when the line runs out, the start of the next
/// line. On the virtual past-the-end line nothing moves.
pub open spec fn spec_jump_word_right(lines: Seq<Line>, loc: Location) -> Location {
    if loc.line_index >= lines.len() {
        loc
    } else {
        let frags = lines[loc.line_index as int].fragments@;
        if loc.grapheme_index >= frags.len() {
            spec_move_down(lines, Location { line_index: loc.line_index, grapheme_index: 0 }, 1)
        } else {
            let c2 = skip_ws(frags, skip_non_ws(frags, loc.grapheme_index as int));
            if c2 >= frags.len() {
                spec_move_down(
                    lines,
                    Location { line_index: loc.line_index, grapheme_index: 0 },
                    1,
                )
            } else {
                Location { line_index: loc.line_index, grapheme_index: c2 as usize }
            }
        }
    }
}

/// Cursor after a word jump left: one step left, then back over
/// whitespace, then back to the start of that word — column zero included.
/// From column zero itself, the end of the previous line. On the virtual
/// past-the-end line and at the document start nothing moves.
pub open spec fn spec_jump_word_left(lines: Seq<Line>, loc: Location) -> Location {
    if loc.line_index == 0 && loc.grapheme_index == 0 {
        loc
    } else if loc.line_index >= lines.len() {
        loc
    } else {
        let frags = lines[loc.line_index as int].fragments@;
        if loc.grapheme_index == 0 {
            Location {
                line_index: (loc.line_index - 1) as usize,
                grapheme_index: count_at(lines, loc.line_index - 1) as usize,
            }
        } else {
            let c1 = back_skip_ws(frags, loc.grapheme_index - 1);
            let c2 = back_to_word_start(frags, c1);
            Location { line_index: loc.line_index, grapheme_index: c2 as usize }
        }
    }
}

/// One scroll axis brought up to a target coordinate: the offset decreases
/// to the target when the target lies before the window, increases to
/// `target - extent + 1` when it lies at or past the window's far edge, and
/// stays put when the target is already visible.
pub open spec fn spec_scroll_edge(offset: int, extent: int) -> int {
    if offset + extent <= usize::MAX {
        offset + extent
    } else {
        usize::MAX as int
    }
}

/// Whether the target coordinate lies outside the window starting at
/// `offset`, so that scrolling moves the offset.
pub open spec fn spec_scroll_moves(offset: int, extent: int, target: int) -> bool {
    target < offset || target >= spec_scroll_edge(offset, extent)
}

pub open spec fn spec_scroll_axis(offset: int, extent: int, target: int) -> int {
    if target < offset {
        target
    } else if target >= spec_scroll_edge(offset, extent) {
        let lo = if target >= extent {
            target - extent
        } else {
            0
        };
        if lo + 1 <= usize::MAX {
            lo + 1
        } else {
            usize::MAX as int
        }
    } else {
        offset
    }
}

/// The viewport/cursor controller: the buffer under edit, the cursor in
/// logical coordinates, the scroll offset in physical coordinates, the
/// visible size, and the interactive-search state.
pub struct EditorView {
    pub buffer: Buffer,
    pub needs_redraw: bool,
    pub size: Size,
    pub text_location: Location,
    pub scroll_offset: Position,
    pub show_line_numbers: bool,
    pub search_info: Option<SearchInfo>,
}

/// The same view with only the cursor moved.
pub open spec fn with_location(v: EditorView, loc: Location) -> EditorView {
    EditorView { text_location: loc, ..v }
}

/// The same view with only the redraw flag changed.
pub open spec fn with_redraw(v: EditorView, b: bool) -> EditorView {
    EditorView { needs_redraw: b, ..v }
}

impl EditorView {
    /// The buffer's lines can be measured and the cursor sits at a valid
    /// grapheme boundary of a line no further than one past the document's
    /// end.
    pub open spec fn cursor_ok(self) -> bool {
        &&& self.buffer.wf()
        &&& self.text_location.line_index <= self.buffer.lines@.len()
        &&& self.text_location.grapheme_index <= count_at(
            self.buffer.lines@,
            self.text_location.line_index as int,
        )
    }

    /// `cursor_ok`, and any remembered search position is equally valid.
    pub open spec fn wf(self) -> bool {
        &&& self.cursor_ok()
        &&& match self.search_info {
            Some(si) => {
                &&& si.prev_location.line_index <= self.buffer.lines@.len()
                &&& si.prev_location.grapheme_index <= count_at(
                    self.buffer.lines@,
                    si.prev_location.line_index as int,
                )
            },
            None => true,
        }
    }

    pub fn default() -> (v: EditorView)
        ensures
            v.wf(),
            v.buffer.lines@.len() == 0,
            v.buffer.file_name is None,
            !v.buffer.dirty,
            !v.needs_redraw,
            v.size.width == 0 && v.size.height == 0,
            v.text_location.line_index == 0 && v.text_location.grapheme_index == 0,
            v.scroll_offset.row == 0 && v.scroll_offset.col == 0,
            !v.show_line_numbers,
            v.search_info is None,
    {
        EditorView {
            buffer: Buffer::default(),
            needs_redraw: false,
            size: Size::default(),
            text_location: Location::default(),
            scroll_offset: Position::default(),
            show_line_numbers: false,
            search_info: None,
        }
    }

    pub fn mark_redraw(&mut self, val: bool)
        ensures
            *final(self) == with_redraw(*old(self), val),
    {
        self.needs_redraw = val;
    }

    pub fn needs_redraw(&self) -> (b: bool)
        ensures
            b == self.needs_redraw,
    {
        self.needs_redraw
    }

    /// Whether a whitespace fragment for word navigation.
    fn frag_is_whitespace(f: &Fragment) -> (b: bool)
        ensures
            b == is_ws_frag(*f),
    {
        if str_trim(f.grapheme.as_str()).is_empty() {
            return true;
        }
        match f.replacement {
            Some(c) => c == ' ' || c == '\u{2423}',
            None => false,
        }
    }

    // === Movement ===

    /// Moves the cursor up `step` rows, snapping the grapheme index to the
    /// destination line.
    pub fn move_up(&mut self, step: usize)
        ensures
            old(self).buffer.wf() && old(self).text_location.line_index <= old(
                self,
            ).buffer.lines@.len() + step ==> final(self).cursor_ok(),
            *final(self) == with_location(*old(self), spec_move_up(
                    old(self).buffer.lines@,
                    old(self).text_location,
                    step as int,
                )),
    {
        self.text_location.line_index = self.text_location.line_index.saturating_sub(step);
        self.snap_to_valid_grapheme();
    }

    /// Moves the cursor down `step` rows, snapping the grapheme index and
    /// clamping the line index to at most the line count.
    pub fn move_down(&mut self, step: usize)
        ensures
            old(self).buffer.wf() ==> final(self).cursor_ok(),
            *final(self) == with_location(*old(self), spec_move_down(
                    old(self).buffer.lines@,
                    old(self).text_location,
                    step as int,
                )),
    {
        self.text_location.line_index = self.text_location.line_index.saturating_add(step);
        self.snap_to_valid_grapheme();
        self.snap_to_valid_line();
    }

    /// Moves the cursor one grapheme left, wrapping to the end of the
    /// previous line at column zero.
    pub fn move_left(&mut self)
        requires
            old(self).cursor_ok(),
        ensures
            final(self).cursor_ok(),
            *final(self) == with_location(*old(self), spec_move_left(old(self).buffer.lines@, old(self).text_location)),
    {
        if self.text_location.grapheme_index > 0 {
            self.text_location.grapheme_index = self.text_location.grapheme_index - 1;
        } else if self.text_location.line_index > 0 {
            self.move_up(1);
            self.move_to_end_of_line();
        }
    }

    /// Moves the cursor one grapheme right, wrapping to the start of the
    /// next line (possibly the virtual past-the-end position) at a line's
    /// end.
    pub fn move_right(&mut self)
        ensures
            old(self).buffer.wf() ==> final(self).cursor_ok(),
            *final(self) == with_location(*old(self), spec_move_right(old(self).buffer.lines@, old(self).text_location)),
    {
        let line_width = if self.text_location.line_index < self.buffer.lines.len() {
            self.buffer.lines[self.text_location.line_index].grapheme_count()
        } else {
            0
        };
        if self.text_location.grapheme_index < line_width {
            self.text_location.grapheme_index = self.text_location.grapheme_index + 1;
        } else {
            self.move_to_beggining_of_line();
            self.move_down(1);
        }
    }

    /// Places the cursor after the last grapheme of its line.
    pub fn move_to_end_of_line(&mut self)
        ensures
            old(self).buffer.wf() && old(self).text_location.line_index <= old(
                self,
            ).buffer.lines@.len() ==> final(self).cursor_ok(),
            *final(self) == with_location(*old(self), Location {
                    line_index: old(self).text_location.line_index,
                    grapheme_index: count_at(
                        old(self).buffer.lines@,
                        old(self).text_location.line_index as int,
                    ) as usize,
                }),
    {
        self.text_location.grapheme_index = if self.text_location.line_index
            < self.buffer.lines.len() {
            self.buffer.lines[self.text_location.line_index].grapheme_count()
        } else {
            0
        };
    }

    /// Places the cursor at column zero of its line.
    pub fn move_to_beggining_of_line(&mut self)
        ensures
            *final(self) == with_location(*old(self), Location {
                    line_index: old(self).text_location.line_index,
                    grapheme_index: 0,
                }),
    {
        self.text_location.grapheme_index = 0;
    }

    /// Clamps the grapheme index to the cursor's line.
    fn snap_to_valid_grapheme(&mut self)
        ensures
            *final(self) == with_location(*old(self), spec_snap_grapheme(
                    old(self).buffer.lines@,
                    old(self).text_location,
                )),
    {
        let li = self.text_location.line_index;
        let count = if li < self.buffer.lines.len() {
            self.buffer.lines[li].grapheme_count()
        } else {
            0
        };
        if self.text_location.grapheme_index > count {
            self.text_location.grapheme_index = count;
        }
    }

    /// Clamps the line index to at most the line count.
    fn snap_to_valid_line(&mut self)
        ensures
            *final(self) == with_location(*old(self), Location {
                    line_index: if old(self).text_location.line_index <= old(
                        self,
                    ).buffer.lines@.len() {
                        old(self).text_location.line_index
                    } else {
                        old(self).buffer.lines@.len() as usize
                    },
                    grapheme_index: old(self).text_location.grapheme_index,
                }),
    {
        let n = self.buffer.lines.len();
        if self.text_location.line_index > n {
            self.text_location.line_index = n;
        }
    }

    /// Word jump right: leaves the current word, skips the whitespace after
    /// it, and lands on the next word's first grapheme; at the end of a
    /// line, moves to the start of the next line.
    pub fn jump_word_right(&mut self)
        requires
            old(self).cursor_ok(),
        ensures
            final(self).cursor_ok(),
            *final(self) == with_location(*old(self), spec_jump_word_right(
                    old(self).buffer.lines@,
                    old(self).text_location,
                )),
    {
        let li = self.text_location.line_index;
        if li >= self.buffer.lines.len() {
            return ;
        }
        let grapheme_count = self.buffer.lines[li].grapheme_count();
        if self.text_location.grapheme_index >= grapheme_count {
            self.move_to_beggining_of_line();
            self.move_down(1);
            return ;
        }
        let ghost frags = self.buffer.lines@[li as int].fragments@;
        let mut curr_index = self.text_location.grapheme_index;
        while curr_index < grapheme_count && !Self::frag_is_whitespace(
            &self.buffer.lines[li].fragments[curr_index],
        )
            invariant
                old(self).text_location.grapheme_index <= curr_index <= grapheme_count,
                *self == *old(self),
                li == old(self).text_location.line_index,
                li < self.buffer.lines@.len(),
                frags == self.buffer.lines@[li as int].fragments@,
                grapheme_count == frags.len(),
                skip_non_ws(frags, old(self).text_location.grapheme_index as int) == skip_non_ws(
                    frags,
                    curr_index as int,
                ),
            decreases grapheme_count - curr_index,
        {
            curr_index = curr_index + 1;
        }
        proof {
            assert(skip_non_ws(frags, curr_index as int) == curr_index as int);
        }
        while curr_index < grapheme_count && Self::frag_is_whitespace(
            &self.buffer.lines[li].fragments[curr_index],
        )
            invariant
                curr_index <= grapheme_count,
                *self == *old(self),
                li == old(self).text_location.line_index,
                li < self.buffer.lines@.len(),
                frags == self.buffer.lines@[li as int].fragments@,
                grapheme_count == frags.len(),
                skip_ws(frags, skip_non_ws(frags, old(self).text_location.grapheme_index as int))
                    == skip_ws(frags, curr_index as int),
            decreases grapheme_count - curr_index,
        {
            curr_index = curr_index + 1;
        }
        proof {
            assert(skip_ws(frags, curr_index as int) == curr_index as int);
        }
        if curr_index >= grapheme_count {
            self.move_to_beggining_of_line();
            self.move_down(1);
            return ;
        }
        self.text_location.grapheme_index = curr_index;
    }

    /// Word jump left: one step left, back over whitespace, then back to
    /// the start of that word, column zero included; from column zero
    /// itself, the end of the previous line.
    pub fn jump_word_left(&mut self)
        requires
            old(self).cursor_ok(),
        ensures
            final(self).cursor_ok(),
            *final(self) == with_location(*old(self), spec_jump_word_left(
                    old(self).buffer.lines@,
                    old(self).text_location,
                )),
    {
        if self.text_location.line_index == 0 && self.text_location.grapheme_index == 0 {
            return ;
        }
        let li = self.text_location.line_index;
        if li >= self.buffer.lines.len() {
            return ;
        }
        if self.text_location.grapheme_index == 0 {
            self.move_up(1);
            self.move_to_end_of_line();
            return ;
        }
        let ghost frags = self.buffer.lines@[li as int].fragments@;
        let grapheme_count = self.buffer.lines[li].grapheme_count();
        let mut curr_index = self.text_location.grapheme_index - 1;
        while curr_index > 0 && Self::frag_is_whitespace(
            &self.buffer.lines[li].fragments[curr_index],
        )
            invariant
                curr_index < grapheme_count,
                *self == *old(self),
                li == old(self).text_location.line_index,
                li < self.buffer.lines@.len(),
                frags == self.buffer.lines@[li as int].fragments@,
                grapheme_count == frags.len(),
                old(self).text_location.grapheme_index >= 1,
                back_skip_ws(frags, old(self).text_location.grapheme_index - 1) == back_skip_ws(
                    frags,
                    curr_index as int,
                ),
            decreases curr_index,
        {
            curr_index = curr_index - 1;
        }
        proof {
            assert(back_skip_ws(frags, curr_index as int) == curr_index as int);
        }
        let ghost c1 = curr_index as int;
        while curr_index > 0 && !Self::frag_is_whitespace(
            &self.buffer.lines[li].fragments[curr_index - 1],
        )
            invariant
                curr_index <= c1 < grapheme_count,
                *self == *old(self),
                li == old(self).text_location.line_index,
                li < self.buffer.lines@.len(),
                frags == self.buffer.lines@[li as int].fragments@,
                grapheme_count == frags.len(),
                back_to_word_start(frags, c1) == back_to_word_start(frags, curr_index as int),
            decreases curr_index,
        {
            curr_index = curr_index - 1;
        }
        proof {
            assert(back_to_word_start(frags, curr_index as int) == curr_index as int);
        }
        self.text_location.grapheme_index = curr_index;
    }

    // === Scrolling ===

    /// Brings the horizontal scroll offset up to the target column.
    fn scroll_horizontally(&mut self, to: usize)
        ensures
            final(self).scroll_offset.col as int == spec_scroll_axis(
                old(self).scroll_offset.col as int,
                old(self).size.width as int,
                to as int,
            ),
            final(self).scroll_offset.row == old(self).scroll_offset.row,
            final(self).buffer == old(self).buffer,
            final(self).size == old(self).size,
            final(self).text_location == old(self).text_location,
            final(self).show_line_numbers == old(self).show_line_numbers,
            final(self).search_info == old(self).search_info,
            final(self).needs_redraw == (old(self).needs_redraw || spec_scroll_moves(
                old(self).scroll_offset.col as int,
                old(self).size.width as int,
                to as int,
            )),
    {
        let width = self.size.width;
        let offset_changed = if to < self.scroll_offset.col {
            self.scroll_offset.col = to;
            true
        } else if to >= self.scroll_offset.col.saturating_add(width) {
            self.scroll_offset.col = to.saturating_sub(width).saturating_add(1);
            true
        } else {
            false
        };
        if offset_changed {
            self.mark_redraw(true);
        }
    }

    /// Brings the vertical scroll offset up to the target row.
    fn scroll_vertically(&mut self, to: usize)
        ensures
            final(self).scroll_offset.row as int == spec_scroll_axis(
                old(self).scroll_offset.row as int,
                old(self).size.height as int,
                to as int,
            ),
            final(self).scroll_offset.col == old(self).scroll_offset.col,
            final(self).buffer == old(self).buffer,
            final(self).size == old(self).size,
            final(self).text_location == old(self).text_location,
            final(self).show_line_numbers == old(self).show_line_numbers,
            final(self).search_info == old(self).search_info,
            final(self).needs_redraw == (old(self).needs_redraw || spec_scroll_moves(
                old(self).scroll_offset.row as int,
                old(self).size.height as int,
                to as int,
            )),
    {
        let height = self.size.height;
        let offset_changed = if to < self.scroll_offset.row {
            self.scroll_offset.row = to;
            true
        } else if to >= self.scroll_offset.row.saturating_add(height) {
            self.scroll_offset.row = to.saturating_sub(height).saturating_add(1);
            true
        } else {
            false
        };
        if offset_changed {
            self.mark_redraw(true);
        }
    }

    /// The physical position of the cursor in document space: its line
    /// index as the row, and the rendered width of the graphemes before it
    /// as the column.
    pub fn text_location_to_position(&self) -> (p: Position)
        requires
            self.buffer.wf(),
        ensures
            p.row == self.text_location.line_index,
            p.col as int == spec_cursor_col(self.buffer.lines@, self.text_location),
    {
        let row = self.text_location.line_index;
        let col = if row < self.buffer.lines.len() {
            self.buffer.lines[row].sum_width_until(self.text_location.grapheme_index)
        } else {
            0
        };
        Position { row, col }
    }

    /// Moves the scroll offset the least amount that brings the cursor's
    /// rendered position inside the visible rectangle.
    pub fn scroll_text_location_into_view(&mut self)
        requires
            old(self).buffer.wf(),
        ensures
            final(self).scroll_offset.row as int == spec_scroll_axis(
                old(self).scroll_offset.row as int,
                old(self).size.height as int,
                old(self).text_location.line_index as int,
            ),
            final(self).scroll_offset.col as int == spec_scroll_axis(
                old(self).scroll_offset.col as int,
                old(self).size.width as int,
                spec_cursor_col(old(self).buffer.lines@, old(self).text_location),
            ),
            final(self).buffer == old(self).buffer,
            final(self).size == old(self).size,
            final(self).text_location == old(self).text_location,
            final(self).show_line_numbers == old(self).show_line_numbers,
            final(self).search_info == old(self).search_info,
            final(self).needs_redraw == (old(self).needs_redraw || spec_scroll_moves(
                old(self).scroll_offset.row as int,
                old(self).size.height as int,
                old(self).text_location.line_index as int,
            ) || spec_scroll_moves(
                old(self).scroll_offset.col as int,
                old(self).size.width as int,
                spec_cursor_col(old(self).buffer.lines@, old(self).text_location),
            )),
            old(self).size.height >= 1 ==> final(self).scroll_offset.row
                <= old(self).text_location.line_index < final(self).scroll_offset.row + old(
                self,
            ).size.height,
            old(self).size.width >= 1 ==> final(self).scroll_offset.col <= spec_cursor_col(
                old(self).buffer.lines@,
                old(self).text_location,
            ) < final(self).scroll_offset.col + old(self).size.width,
    {
        let position = self.text_location_to_position();
        proof {
            if self.size.height >= 1 {
                lemma_scroll_axis_in_view(
                    self.scroll_offset.row as int,
                    self.size.height as int,
                    self.text_location.line_index as int,
                );
            }
            if self.size.width >= 1 {
                lemma_scroll_axis_in_view(
                    self.scroll_offset.col as int,
                    self.size.width as int,
                    spec_cursor_col(self.buffer.lines@, self.text_location),
                );
            }
        }
        self.scroll_vertically(position.row);
        self.scroll_horizontally(position.col);
    }

    /// The cursor's position on screen: its document position shifted by
    /// the scroll offset, clamped at the viewport's corner, pushed right
    /// past the line-number margin when that is shown.
    pub fn get_caret_position(&self) -> (p: Position)
        requires
            self.buffer.wf(),
        ensures
            p.row as int == sat_sub(
                self.text_location.line_index as int,
                self.scroll_offset.row as int,
            ),
            p.col as int == {
                let c = sat_sub(
                    spec_cursor_col(self.buffer.lines@, self.text_location),
                    self.scroll_offset.col as int,
                );
                if self.show_line_numbers {
                    sat_add_usize(c, 6)
                } else {
                    c
                }
            },
    {
        let mut position = self.text_location_to_position().saturating_sub(self.scroll_offset);
        if self.show_line_numbers {
            position.col = position.col.saturating_add(6);
        }
        position
    }

    pub fn set_size(&mut self, size: Size)
        requires
            old(self).buffer.wf(),
        ensures
            final(self).size == size,
            final(self).buffer == old(self).buffer,
            final(self).text_location == old(self).text_location,
            final(self).show_line_numbers == old(self).show_line_numbers,
            final(self).search_info == old(self).search_info,
            final(self).scroll_offset.row as int == spec_scroll_axis(
                old(self).scroll_offset.row as int,
                size.height as int,
                old(self).text_location.line_index as int,
            ),
            final(self).scroll_offset.col as int == spec_scroll_axis(
                old(self).scroll_offset.col as int,
                size.width as int,
                spec_cursor_col(old(self).buffer.lines@, old(self).text_location),
            ),
    {
        self.size = size;
        self.scroll_text_location_into_view();
    }

    /// Resizing repaints everything.
    pub fn resize(&mut self, size: Size)
        requires
            old(self).buffer.wf(),
        ensures
            final(self).size == size,
            final(self).needs_redraw,
            final(self).buffer == old(self).buffer,
            final(self).text_location == old(self).text_location,
            final(self).show_line_numbers == old(self).show_line_numbers,
            final(self).search_info == old(self).search_info,
    {
        self.set_size(size);
        self.mark_redraw(true);
    }

    pub fn toggle_line_numbers(&mut self)
        ensures
            final(self).show_line_numbers == !old(self).show_line_numbers,
            final(self).needs_redraw,
            final(self).buffer == old(self).buffer,
            final(self).size == old(self).size,
            final(self).text_location == old(self).text_location,
            final(self).scroll_offset == old(self).scroll_offset,
            final(self).search_info == old(self).search_info,
    {
        let show = self.show_line_numbers;
        self.show_line_numbers = !show;
        self.mark_redraw(true);
    }

    /// Whether the buffer is bound to a file path.
    pub fn is_file_loaded(&self) -> (b: bool)
        ensures
            b == (self.buffer.file_name is Some),
    {
        match &self.buffer.file_name {
            Some(_) => true,
            None => false,
        }
    }

    /// The status-bar snapshot: the bound file name or a placeholder, the
    /// line count, the cursor line and the modified flag.
    pub fn get_status(&self) -> (s: DocumentStatus)
        ensures
            s.file_name@ == (match self.buffer.file_name {
                Some(n) => n@,
                None => "[No Name]"@,
            }),
            s.number_of_lines == self.buffer.lines@.len(),
            s.line_number == self.text_location.line_index,
            s.modified == self.buffer.dirty,
    {
        let file_name = match &self.buffer.file_name {
            Some(n) => n.clone(),
            None => String::from_str("[No Name]"),
        };
        DocumentStatus {
            file_name,
            number_of_lines: self.buffer.lines.len(),
            line_number: self.text_location.line_index,
            modified: self.buffer.dirty,
        }
    }

    /// Applies one movement command and then brings the cursor back into
    /// the visible window.
    pub fn handle_move_command(&mut self, command: Move)
        requires
            old(self).wf(),
        ensures
            final(self).wf(),
            spec_move_applied(*old(self), *final(self), command),
    {
        let height = self.size.height;
        match command {
            Move::Up => self.move_up(1),
            Move::Down => self.move_down(1),
            Move::Left => self.move_left(),
            Move::Right => self.move_right(),
            Move::PageUp => self.move_up(height.saturating_sub(1)),
            Move::PageDown => self.move_down(height.saturating_sub(1)),
            Move::Home => self.move_to_beggining_of_line(),
            Move::End => self.move_to_end_of_line(),
            Move::WordJumpLeft => self.jump_word_left(),
            Move::WordJumpRight => self.jump_word_right(),
        }
        self.scroll_text_location_into_view();
    }
}

impl EditorView {
    // === Editing ===

    /// Inserts one character at the cursor; when the line's grapheme count
    /// grew, the cursor advances right so that it follows the inserted
    /// character, and either way the view scrolls the cursor back into the
    /// visible rectangle.
    pub fn insert_character(&mut self, c: char)
        requires
            old(self).wf(),
        ensures
            crate::buffer::insert_char_rel(
                old(self).buffer,
                final(self).buffer,
                c,
                old(self).text_location,
            ),
            final(self).needs_redraw,
            final(self).size == old(self).size,
            final(self).show_line_numbers == old(self).show_line_numbers,
            final(self).search_info == old(self).search_info,
            count_grew(old(self).buffer, final(self).buffer, old(self).text_location) ==> final(self).text_location == spec_move_right(final(self).buffer.lines@, old(self).text_location),
            !count_grew(old(self).buffer, final(self).buffer, old(self).text_location) ==> final(self).text_location == spec_snap_grapheme(
                final(self).buffer.lines@,
                old(self).text_location,
            ),
            final(self).scroll_offset.row as int == spec_scroll_axis(
                old(self).scroll_offset.row as int,
                old(self).size.height as int,
                final(self).text_location.line_index as int,
            ),
            final(self).scroll_offset.col as int == spec_scroll_axis(
                old(self).scroll_offset.col as int,
                old(self).size.width as int,
                spec_cursor_col(final(self).buffer.lines@, final(self).text_location),
            ),
            old(self).size.height >= 1 ==> (final(self).scroll_offset.row as int) <= (final(self).text_location.line_index as int) < final(self).scroll_offset.row + old(
                self,
            ).size.height,
            old(self).size.width >= 1 ==> (final(self).scroll_offset.col as int) <= spec_cursor_col(
                final(self).buffer.lines@,
                final(self).text_location,
            ) < final(self).scroll_offset.col + old(self).size.width,
            old(self).search_info is None ==> final(self).wf(),
    {
        let li = self.text_location.line_index;
        let old_grapheme_len = if li < self.buffer.lines.len() {
            self.buffer.lines[li].grapheme_count()
        } else {
            0
        };
        let at = self.text_location;
        self.buffer.insert_char(c, &at);
        let new_grapheme_len = if li < self.buffer.lines.len() {
            self.buffer.lines[li].grapheme_count()
        } else {
            0
        };
        if new_grapheme_len > old_grapheme_len {
            self.move_right();
        } else {
            self.snap_to_valid_grapheme();
        }
        self.scroll_text_location_into_view();
        self.mark_redraw(true);
    }

    /// Breaks the line at the cursor and advances the cursor right, onto
    /// the start of the new line.
    pub fn insert_newline(&mut self)
        requires
            old(self).wf(),
        ensures
            crate::buffer::insert_newline_rel(
                old(self).buffer,
                final(self).buffer,
                old(self).text_location,
            ),
            final(self).needs_redraw,
            final(self).size == old(self).size,
            final(self).show_line_numbers == old(self).show_line_numbers,
            final(self).search_info == old(self).search_info,
            final(self).text_location == spec_move_right(
                final(self).buffer.lines@,
                old(self).text_location,
            ),
            final(self).scroll_offset.row as int == spec_scroll_axis(
                old(self).scroll_offset.row as int,
                old(self).size.height as int,
                final(self).text_location.line_index as int,
            ),
            final(self).scroll_offset.col as int == spec_scroll_axis(
                old(self).scroll_offset.col as int,
                old(self).size.width as int,
                spec_cursor_col(final(self).buffer.lines@, final(self).text_location),
            ),
            old(self).size.height >= 1 ==> (final(self).scroll_offset.row as int) <= (final(self).text_location.line_index as int) < final(self).scroll_offset.row + old(
                self,
            ).size.height,
            old(self).size.width >= 1 ==> (final(self).scroll_offset.col as int) <= spec_cursor_col(
                final(self).buffer.lines@,
                final(self).text_location,
            ) < final(self).scroll_offset.col + old(self).size.width,
            old(self).search_info is None ==> final(self).wf(),
    {
        let at = self.text_location;
        self.buffer.insert_newline(&at);
        self.move_right();
        self.scroll_text_location_into_view();
        self.mark_redraw(true);
    }

    /// Deletes at the cursor: within the line one grapheme is removed; at
    /// the line's end the next line is joined on. The view then scrolls the
    /// cursor back into the visible rectangle.
    pub fn delete(&mut self)
        requires
            old(self).wf(),
        ensures
            crate::buffer::delete_rel(
                old(self).buffer,
                final(self).buffer,
                old(self).text_location,
            ),
            final(self).needs_redraw,
            final(self).size == old(self).size,
            final(self).show_line_numbers == old(self).show_line_numbers,
            final(self).search_info == old(self).search_info,
            final(self).text_location == spec_snap_grapheme(
                final(self).buffer.lines@,
                old(self).text_location,
            ),
            final(self).scroll_offset.row as int == spec_scroll_axis(
                old(self).scroll_offset.row as int,
                old(self).size.height as int,
                final(self).text_location.line_index as int,
            ),
            final(self).scroll_offset.col as int == spec_scroll_axis(
                old(self).scroll_offset.col as int,
                old(self).size.width as int,
                spec_cursor_col(final(self).buffer.lines@, final(self).text_location),
            ),
            old(self).size.height >= 1 ==> (final(self).scroll_offset.row as int) <= (final(self).text_location.line_index as int) < final(self).scroll_offset.row + old(
                self,
            ).size.height,
            old(self).size.width >= 1 ==> (final(self).scroll_offset.col as int) <= spec_cursor_col(
                final(self).buffer.lines@,
                final(self).text_location,
            ) < final(self).scroll_offset.col + old(self).size.width,
            old(self).search_info is None ==> final(self).wf(),
    {
        let at = self.text_location;
        self.buffer.delete(&at);
        self.snap_to_valid_grapheme();
        self.scroll_text_location_into_view();
        self.mark_redraw(true);
    }

    /// Backspace: a step left followed by a delete, so that at column zero
    /// it joins the line with the previous one; the view then scrolls the
    /// cursor back into the visible rectangle. At the document start it
    /// does nothing.
    pub fn backspace(&mut self)
        requires
            old(self).wf(),
        ensures
            old(self).text_location.grapheme_index == 0 && old(self).text_location.line_index == 0
                ==> *final(self) == *old(self),
            !(old(self).text_location.grapheme_index == 0 && old(self).text_location.line_index
                == 0) ==> {
                &&& crate::buffer::delete_rel(
                    old(self).buffer,
                    final(self).buffer,
                    spec_move_left(old(self).buffer.lines@, old(self).text_location),
                )
                &&& final(self).text_location == spec_snap_grapheme(
                    final(self).buffer.lines@,
                    spec_move_left(old(self).buffer.lines@, old(self).text_location),
                )
                &&& final(self).needs_redraw
                &&& final(self).size == old(self).size
                &&& final(self).show_line_numbers == old(self).show_line_numbers
                &&& final(self).search_info == old(self).search_info
                &&& final(self).scroll_offset.row as int == spec_scroll_axis(
                    old(self).scroll_offset.row as int,
                    old(self).size.height as int,
                    final(self).text_location.line_index as int,
                )
                &&& final(self).scroll_offset.col as int == spec_scroll_axis(
                    old(self).scroll_offset.col as int,
                    old(self).size.width as int,
                    spec_cursor_col(final(self).buffer.lines@, final(self).text_location),
                )
                &&& (old(self).size.height >= 1 ==> (final(self).scroll_offset.row as int) <= (final(self).text_location.line_index as int) < final(self).scroll_offset.row + old(
                    self,
                ).size.height)
                &&& (old(self).size.width >= 1 ==> (final(self).scroll_offset.col as int)
                    <= spec_cursor_col(final(self).buffer.lines@, final(self).text_location)
                    < final(self).scroll_offset.col + old(self).size.width)
            },
            old(self).search_info is None ==> final(self).wf(),
    {
        if self.text_location.grapheme_index == 0 && self.text_location.line_index == 0 {
            return ;
        }
        self.move_left();
        self.delete();
    }

    /// Removes the cursor's whole line, moves the cursor up one row, and
    /// scrolls it back into the visible rectangle.
    pub fn delete_line(&mut self)
        requires
            old(self).wf(),
        ensures
            crate::buffer::delete_line_rel(
                old(self).buffer,
                final(self).buffer,
                old(self).text_location.line_index as int,
            ),
            final(self).needs_redraw,
            final(self).size == old(self).size,
            final(self).show_line_numbers == old(self).show_line_numbers,
            final(self).search_info == old(self).search_info,
            final(self).text_location == spec_move_up(
                final(self).buffer.lines@,
                old(self).text_location,
                1,
            ),
            final(self).scroll_offset.row as int == spec_scroll_axis(
                old(self).scroll_offset.row as int,
                old(self).size.height as int,
                final(self).text_location.line_index as int,
            ),
            final(self).scroll_offset.col as int == spec_scroll_axis(
                old(self).scroll_offset.col as int,
                old(self).size.width as int,
                spec_cursor_col(final(self).buffer.lines@, final(self).text_location),
            ),
            old(self).size.height >= 1 ==> (final(self).scroll_offset.row as int) <= (final(self).text_location.line_index as int) < final(self).scroll_offset.row + old(
                self,
            ).size.height,
            old(self).size.width >= 1 ==> (final(self).scroll_offset.col as int) <= spec_cursor_col(
                final(self).buffer.lines@,
                final(self).text_location,
            ) < final(self).scroll_offset.col + old(self).size.width,
            old(self).search_info is None ==> final(self).wf(),
    {
        let li = self.text_location.line_index;
        self.buffer.delete_line(li);
        self.move_up(1);
        self.scroll_text_location_into_view();
        self.mark_redraw(true);
    }

    /// Dispatches one text mutation command; afterwards the cursor's
    /// rendered position lies inside the visible rectangle.
    pub fn handle_edit_command(&mut self, command: Edit)
        requires
            old(self).wf(),
        ensures
            spec_edit_applied(*old(self), *final(self), command),
            old(self).search_info is None ==> final(self).wf(),
            !(command == Edit::Backspace && old(self).text_location.grapheme_index == 0 && old(
                self,
            ).text_location.line_index == 0) ==> {
                &&& (old(self).size.height >= 1 ==> (final(self).scroll_offset.row as int) <= (
                final(self).text_location.line_index as int) < final(self).scroll_offset.row
                    + old(self).size.height)
                &&& (old(self).size.width >= 1 ==> (final(self).scroll_offset.col as int)
                    <= spec_cursor_col(final(self).buffer.lines@, final(self).text_location)
                    < final(self).scroll_offset.col + old(self).size.width)
            },
    {
        match command {
            Edit::Insert(c) => self.insert_character(c),
            Edit::Backspace => self.backspace(),
            Edit::Delete => self.delete(),
            Edit::Enter => self.insert_newline(),
            Edit::RemoveLine => self.delete_line(),
        }
    }

    // === Loading ===

    /// Replaces the buffer with the rows of a file just read, bound to the
    /// file name, and repaints. A freshly loaded document is unmodified.
    /// The cursor is snapped onto a valid position of the new document;
    /// the scroll offset is left as it was.
    pub fn load(&mut self, file_name: String, rows: &Vec<String>)
        ensures
            final(self).buffer.file_name == Some(file_name),
            !final(self).buffer.dirty,
            final(self).buffer.lines@.len() == rows@.len(),
            forall|i: int|
                0 <= i < rows@.len() ==> (#[trigger] final(self).buffer.lines@[i])@ == rows@[i]@
                    && final(self).buffer.lines@[i].is_canonical(),
            final(self).buffer.wf(),
            final(self).needs_redraw,
            final(self).text_location == spec_snap_grapheme(
                final(self).buffer.lines@,
                Location {
                    line_index: (if old(self).text_location.line_index <= rows@.len() {
                        old(self).text_location.line_index as int
                    } else {
                        rows@.len() as int
                    }) as usize,
                    grapheme_index: old(self).text_location.grapheme_index,
                },
            ),
            final(self).scroll_offset == old(self).scroll_offset,
            final(self).size == old(self).size,
            final(self).show_line_numbers == old(self).show_line_numbers,
            final(self).search_info == old(self).search_info,
            old(self).search_info is None ==> final(self).wf(),
    {
        self.buffer = Buffer::load_rows(file_name, rows);
        self.snap_to_valid_line();
        self.snap_to_valid_grapheme();
        self.mark_redraw(true);
    }

    // === Search ===

    /// Remembers the cursor and scroll positions so that dismissing the
    /// search can restore them.
    pub fn enter_search(&mut self)
        requires
            old(self).wf(),
        ensures
            final(self).wf(),
            final(self).search_info matches Some(si) && si.prev_location == old(
                self,
            ).text_location && si.prev_scroll_offset == old(self).scroll_offset
                && si.query.fragments@.len() == 0,
            final(self).buffer == old(self).buffer,
            final(self).text_location == old(self).text_location,
            final(self).scroll_offset == old(self).scroll_offset,
            final(self).size == old(self).size,
            final(self).needs_redraw == old(self).needs_redraw,
            final(self).show_line_numbers == old(self).show_line_numbers,
    {
        self.search_info = Some(
            SearchInfo {
                prev_location: self.text_location,
                prev_scroll_offset: self.scroll_offset,
                query: Line::default(),
            },
        );
    }

    /// Forgets the search state, leaving the cursor where the search put
    /// it.
    pub fn exit_search(&mut self)
        requires
            old(self).wf(),
        ensures
            final(self).wf(),
            final(self).search_info is None,
            final(self).buffer == old(self).buffer,
            final(self).text_location == old(self).text_location,
            final(self).scroll_offset == old(self).scroll_offset,
            final(self).size == old(self).size,
            final(self).needs_redraw == old(self).needs_redraw,
            final(self).show_line_numbers == old(self).show_line_numbers,
    {
        self.search_info = None;
    }

    /// Abandons the search: the cursor returns to where the search began,
    /// the view scrolls back to it, and the search state is forgotten.
    pub fn dimiss_search(&mut self)
        requires
            old(self).wf(),
        ensures
            final(self).wf(),
            final(self).search_info is None,
            final(self).buffer == old(self).buffer,
            final(self).text_location == (match old(self).search_info {
                Some(si) => si.prev_location,
                None => old(self).text_location,
            }),
            final(self).size == old(self).size,
            final(self).show_line_numbers == old(self).show_line_numbers,
            final(self).scroll_offset.row as int == spec_scroll_axis(
                old(self).scroll_offset.row as int,
                old(self).size.height as int,
                final(self).text_location.line_index as int,
            ),
            final(self).scroll_offset.col as int == spec_scroll_axis(
                old(self).scroll_offset.col as int,
                old(self).size.width as int,
                spec_cursor_col(old(self).buffer.lines@, final(self).text_location),
            ),
            old(self).size.height >= 1 ==> (final(self).scroll_offset.row as int) <= (final(self).text_location.line_index as int) < final(self).scroll_offset.row + old(self).size.height,
            old(self).size.width >= 1 ==> (final(self).scroll_offset.col as int) <= spec_cursor_col(
                old(self).buffer.lines@,
                final(self).text_location,
            ) < final(self).scroll_offset.col + old(self).size.width,
    {
        match &self.search_info {
            Some(search_info) => {
                self.text_location = search_info.prev_location;
            },
            None => {},
        }
        self.search_info = None;
        self.scroll_text_location_into_view();
    }

    /// Searches forward from where the search began (or from the cursor
    /// when no search is active) and moves the cursor to the first hit,
    /// scrolling it into view; an empty query or a missing hit moves
    /// nothing. The query is remembered for the jump commands.
    pub fn search(&mut self, query: &str)
        requires
            old(self).wf(),
        ensures
            final(self).wf(),
            final(self).buffer == old(self).buffer,
            final(self).size == old(self).size,
            final(self).show_line_numbers == old(self).show_line_numbers,
            query@.len() == 0 ==> *final(self) == *old(self),
            query@.len() > 0 && old(self).buffer.lines@.len() > 0 ==> (exists|q: Seq<Fragment>|
                {
                    &&& #[trigger] crate::line::is_fragmentation_of(q, query@)
                    &&& (match crate::buffer::spec_scan_forward(
                        old(self).buffer.lines@,
                        q,
                        ((match old(self).search_info {
                            Some(si) => si.prev_location.line_index as int,
                            None => old(self).text_location.line_index as int,
                        }) % (old(self).buffer.lines@.len() as int)),
                        (match old(self).search_info {
                            Some(si) => si.prev_location.grapheme_index as int,
                            None => old(self).text_location.grapheme_index as int,
                        }),
                        old(self).buffer.lines@.len() as int + 1,
                    ) {
                        Some(loc) => final(self).text_location == loc && final(self).scroll_offset.row as int == spec_scroll_axis(
                            old(self).scroll_offset.row as int,
                            old(self).size.height as int,
                            loc.line_index as int,
                        ) && final(self).scroll_offset.col as int == spec_scroll_axis(
                            old(self).scroll_offset.col as int,
                            old(self).size.width as int,
                            spec_cursor_col(old(self).buffer.lines@, loc),
                        ),
                        None => final(self).text_location == old(self).text_location && final(self).scroll_offset == old(self).scroll_offset,
                    })
                }),
            query@.len() > 0 && old(self).buffer.lines@.len() == 0 ==> final(self).text_location
                == old(self).text_location && final(self).scroll_offset == old(
                self,
            ).scroll_offset,
    {
        if query.is_empty() {
            return ;
        }
        let q = Line::from(query);
        let from = match &self.search_info {
            Some(si) => si.prev_location,
            None => self.text_location,
        };
        let found = self.buffer.search_forward(from, &q);
        match found {
            Some(location) => {
                proof {
                    assert(self.buffer.lines.len() == self.buffer.lines@.len());
                    lemma_scan_hit_valid(
                        self.buffer.lines@,
                        q.fragments@,
                        (from.line_index as int) % (self.buffer.lines@.len() as int),
                        from.grapheme_index as int,
                        self.buffer.lines@.len() as int + 1,
                    );
                }
                self.text_location = location;
                self.scroll_text_location_into_view();
            },
            None => {},
        }
        match &mut self.search_info {
            Some(si) => {
                si.query = q;
            },
            None => {},
        }
    }

    /// Jumps to the next hit of the remembered query, just after the
    /// cursor, wrapping around the end of the document.
    pub fn search_next(&mut self)
        requires
            old(self).wf(),
        ensures
            final(self).wf(),
            final(self).buffer == old(self).buffer,
            final(self).size == old(self).size,
            final(self).show_line_numbers == old(self).show_line_numbers,
            final(self).search_info == old(self).search_info,
            old(self).search_info is None ==> *final(self) == *old(self),
            (old(self).search_info matches Some(si) && si.query.fragments@.len() > 0 && old(
                self,
            ).buffer.lines@.len() > 0) ==> (match crate::buffer::spec_scan_forward(
                old(self).buffer.lines@,
                (old(self).search_info)->Some_0.query.fragments@,
                (old(self).text_location.line_index as int) % (old(self).buffer.lines@.len() as int),
                sat_add_usize(old(self).text_location.grapheme_index as int, 1),
                old(self).buffer.lines@.len() as int + 1,
            ) {
                Some(loc) => final(self).text_location == loc && final(self).scroll_offset.row as int == spec_scroll_axis(
                    old(self).scroll_offset.row as int,
                    old(self).size.height as int,
                    loc.line_index as int,
                ) && final(self).scroll_offset.col as int == spec_scroll_axis(
                    old(self).scroll_offset.col as int,
                    old(self).size.width as int,
                    spec_cursor_col(old(self).buffer.lines@, loc),
                ),
                None => final(self).text_location == old(self).text_location && final(self).scroll_offset == old(self).scroll_offset,
            }),
            (old(self).search_info matches Some(si) && (si.query.fragments@.len() == 0 || old(
                self,
            ).buffer.lines@.len() == 0)) ==> final(self).text_location == old(self).text_location
                && final(self).scroll_offset == old(self).scroll_offset,
    {
        let q = match &self.search_info {
            Some(si) => si.query.clone(),
            None => {
                return ;
            },
        };
        let from = Location {
            line_index: self.text_location.line_index,
            grapheme_index: self.text_location.grapheme_index.saturating_add(1),
        };
        let found = self.buffer.search_forward(from, &q);
        match found {
            Some(location) => {
                proof {
                    assert(self.buffer.lines.len() == self.buffer.lines@.len());
                    lemma_scan_hit_valid(
                        self.buffer.lines@,
                        q.fragments@,
                        (from.line_index as int) % (self.buffer.lines@.len() as int),
                        from.grapheme_index as int,
                        self.buffer.lines@.len() as int + 1,
                    );
                }
                self.text_location = location;
                self.scroll_text_location_into_view();
            },
            None => {},
        }
    }

    /// Jumps to the previous hit of the remembered query, ending before the
    /// cursor, wrapping around the start of the document.
    pub fn search_prev(&mut self)
        requires
            old(self).wf(),
        ensures
            final(self).wf(),
            final(self).buffer == old(self).buffer,
            final(self).size == old(self).size,
            final(self).show_line_numbers == old(self).show_line_numbers,
            final(self).search_info == old(self).search_info,
            old(self).search_info is None ==> *final(self) == *old(self),
            (old(self).search_info matches Some(si) && si.query.fragments@.len() > 0 && old(
                self,
            ).buffer.lines@.len() > 0) ==> (match crate::buffer::spec_scan_backward(
                old(self).buffer.lines@,
                (old(self).search_info)->Some_0.query.fragments@,
                (if old(self).text_location.line_index < old(self).buffer.lines@.len() {
                    old(self).text_location.line_index as int
                } else {
                    old(self).buffer.lines@.len() - 1
                }),
                old(self).text_location.grapheme_index as int,
                old(self).buffer.lines@.len() as int + 1,
            ) {
                Some(loc) => final(self).text_location == loc && final(self).scroll_offset.row as int == spec_scroll_axis(
                    old(self).scroll_offset.row as int,
                    old(self).size.height as int,
                    loc.line_index as int,
                ) && final(self).scroll_offset.col as int == spec_scroll_axis(
                    old(self).scroll_offset.col as int,
                    old(self).size.width as int,
                    spec_cursor_col(old(self).buffer.lines@, loc),
                ),
                None => final(self).text_location == old(self).text_location && final(self).scroll_offset == old(self).scroll_offset,
            }),
            (old(self).search_info matches Some(si) && (si.query.fragments@.len() == 0 || old(
                self,
            ).buffer.lines@.len() == 0)) ==> final(self).text_location == old(self).text_location
                && final(self).scroll_offset == old(self).scroll_offset,
    {
        let q = match &self.search_info {
            Some(si) => si.query.clone(),
            None => {
                return ;
            },
        };
        let from = self.text_location;
        let found = self.buffer.search_backwards(from, &q);
        match found {
            Some(location) => {
                proof {
                    assert(self.buffer.lines.len() == self.buffer.lines@.len());
                    lemma_scan_back_hit_valid(
                        self.buffer.lines@,
                        q.fragments@,
                        (if from.line_index < self.buffer.lines@.len() {
                            from.line_index as int
                        } else {
                            self.buffer.lines@.len() - 1
                        }),
                        from.grapheme_index as int,
                        self.buffer.lines@.len() as int + 1,
                    );
                }
                self.text_location = location;
                self.scroll_text_location_into_view();
            },
            None => {},
        }
    }
}

/// Whether an insertion at `at` grew that line's grapheme count.
pub open spec fn count_grew(pre: Buffer, post: Buffer, at: Location) -> bool {
    count_at(post.lines@, at.line_index as int) > count_at(pre.lines@, at.line_index as int)
}

/// A hit returned by the forward ring scan is a real document position: its
/// line is in range and its grapheme index is at a match, hence within the
/// line.
pub proof fn lemma_scan_hit_valid(
    lines: Seq<Line>,
    q: Seq<Fragment>,
    idx: int,
    lo: int,
    steps: int,
)
    requires
        0 <= lo,
        0 <= steps,
        q.len() > 0,
        lines.len() <= usize::MAX,
    ensures
        match crate::buffer::spec_scan_forward(lines, q, idx, lo, steps) {
            Some(loc) => loc.line_index < lines.len() && loc.grapheme_index + q.len() <= count_at(
                lines,
                loc.line_index as int,
            ),
            None => true,
        },
    decreases steps,
{
    if steps <= 0 || lines.len() == 0 || !(0 <= idx < lines.len()) {
    } else {
        assert(lines[idx].fragments.len() == lines[idx].fragments@.len());
        lemma_line_first_match_bounds(lines[idx].fragments@, q, lo);
        let idx2 = if idx + 1 == lines.len() {
            0
        } else {
            idx + 1
        };
        lemma_scan_hit_valid(lines, q, idx2, 0, steps - 1);
    }
}

/// A hit returned by the backward ring scan is a real document position.
pub proof fn lemma_scan_back_hit_valid(
    lines: Seq<Line>,
    q: Seq<Fragment>,
    idx: int,
    hi: int,
    steps: int,
)
    requires
        0 <= steps,
        q.len() > 0,
        lines.len() <= usize::MAX,
    ensures
        match crate::buffer::spec_scan_backward(lines, q, idx, hi, steps) {
            Some(loc) => loc.line_index < lines.len() && loc.grapheme_index + q.len() <= count_at(
                lines,
                loc.line_index as int,
            ),
            None => true,
        },
    decreases steps,
{
    if steps <= 0 || lines.len() == 0 || !(0 <= idx < lines.len()) {
    } else {
        assert(lines[idx].fragments.len() == lines[idx].fragments@.len());
        lemma_last_match_upto_bounds(lines[idx].fragments@, q, hi - q.len());
        let idx2 = if idx == 0 {
            lines.len() - 1
        } else {
            idx - 1
        };
        lemma_scan_back_hit_valid(
            lines,
            q,
            idx2,
            lines[idx2].fragments@.len() as int,
            steps - 1,
        );
    }
}

/// A first match lies at a real match position.
proof fn lemma_line_first_match_bounds(frags: Seq<Fragment>, q: Seq<Fragment>, lo: int)
    requires
        0 <= lo,
    ensures
        match crate::buffer::line_first_match(frags, q, lo) {
            Some(j) => 0 <= j && j + q.len() <= frags.len(),
            None => true,
        },
    decreases frags.len() + 1 - lo,
{
    if lo + q.len() > frags.len() {
    } else if crate::line::match_at(frags, q, lo) {
    } else {
        lemma_line_first_match_bounds(frags, q, lo + 1);
    }
}

/// A last match lies at a real match position.
proof fn lemma_last_match_upto_bounds(frags: Seq<Fragment>, q: Seq<Fragment>, j: int)
    ensures
        match crate::buffer::last_match_upto(frags, q, j) {
            Some(j1) => 0 <= j1 && j1 + q.len() <= frags.len(),
            None => true,
        },
    decreases (if j < 0 {
        0
    } else {
        j + 1
    }),
{
    if j < 0 {
    } else if crate::line::match_at(frags, q, j) {
    } else {
        lemma_last_match_upto_bounds(frags, q, j - 1);
    }
}

/// `n` spaces (none for a non-positive `n`).
pub open spec fn spaces(n: int) -> Seq<char>
    decreases n,
{
    if n <= 0 {
        Seq::<char>::empty()
    } else {
        spaces(n - 1).push(' ')
    }
}

/// The text of the banner shown on an empty document: a tilde margin and
/// the editor's name and version centered in the rest of the width; a bare
/// tilde when the width cannot hold the banner, nothing at width zero.
pub open spec fn spec_welcome(width: int) -> Seq<char> {
    let msg = "ed editor -- version 0.1.0"@;
    if width == 0 {
        Seq::<char>::empty()
    } else if width - 1 < msg.len() {
        "~"@
    } else {
        "~"@ + spaces((width - 1 - msg.len()) / 2) + msg + spaces(
            width - 1 - msg.len() - (width - 1 - msg.len()) / 2,
        )
    }
}

/// The six-column line-number margin for a document row: the one-based
/// line number right-aligned in four columns, then two spaces.
pub open spec fn spec_line_number_prefix(line_idx: int) -> Seq<char> {
    let d = crate::decimal::spec_decimal(sat_add_usize(line_idx, 1));
    spaces(4 - d.len()) + d + "  "@
}

/// The text painted for the viewport row `row_offset` rows below the top:
/// the line-number margin (when shown) followed by the visible slice of
/// the document line scrolled to that row; the welcome banner at a third
/// of the viewport height when the document is empty; a tilde for rows
/// past the document's end.
pub open spec fn spec_row_text(v: EditorView, row_offset: int) -> Seq<char> {
    let line_idx = sat_add_usize(v.scroll_offset.row as int, row_offset);
    let content_width = if v.show_line_numbers {
        sat_sub(v.size.width as int, 6)
    } else {
        v.size.width as int
    };
    let left = v.scroll_offset.col as int;
    let right = sat_add_usize(left, content_width);
    if line_idx < v.buffer.lines@.len() {
        let content = if left >= right {
            Seq::<char>::empty()
        } else {
            crate::line::spec_substr(
                v.buffer.lines@[line_idx].fragments@,
                0,
                left as nat,
                right as nat,
            )
        };
        (if v.show_line_numbers {
            spec_line_number_prefix(line_idx)
        } else {
            Seq::<char>::empty()
        }) + content
    } else if v.buffer.lines@.len() == 0 && row_offset == v.size.height as int / 3 {
        (if v.show_line_numbers {
            spaces(6)
        } else {
            Seq::<char>::empty()
        }) + spec_welcome(content_width)
    } else {
        (if v.show_line_numbers {
            spaces(6)
        } else {
            Seq::<char>::empty()
        }) + "~"@
    }
}

/// Appends `n` spaces to the string.
pub fn push_spaces(out: &mut String, n: usize)
    ensures
        final(out)@ == old(out)@ + spaces(n as int),
{
    let mut i: usize = 0;
    while i < n
        invariant
            i <= n,
            out@ == old(out)@ + spaces(i as int),
        decreases n - i,
    {
        push_char(out, ' ');
        i = i + 1;
    }
}

impl EditorView {
    /// The welcome banner fitted to `width` columns.
    pub fn build_welcome_message(width: usize) -> (s: String)
        ensures
            s@ == spec_welcome(width as int),
    {
        proof {
            reveal_strlit("ed editor -- version 0.1.0");
            reveal_strlit("~");
        }
        if width == 0 {
            return String::new();
        }
        let msg = "ed editor -- version 0.1.0";
        let len = msg.unicode_len();
        let remaining_width = width - 1;
        if remaining_width < len {
            return String::from_str("~");
        }
        let mut s = String::from_str("~");
        let pad = (remaining_width - len) / 2;
        push_spaces(&mut s, pad);
        s.append(msg);
        push_spaces(&mut s, remaining_width - len - pad);
        s
    }

    /// The text for the viewport row `row_offset` rows below the top.
    pub fn visible_row_text(&self, row_offset: usize) -> (s: String)
        requires
            self.buffer.wf(),
        ensures
            s@ == spec_row_text(*self, row_offset as int),
    {
        proof {
            reveal_strlit("~");
            reveal_strlit("  ");
        }
        let line_idx = self.scroll_offset.row.saturating_add(row_offset);
        let content_width = if self.show_line_numbers {
            self.size.width.saturating_sub(6)
        } else {
            self.size.width
        };
        let left = self.scroll_offset.col;
        let right = left.saturating_add(content_width);
        let mut s = String::new();
        if line_idx < self.buffer.lines.len() {
            if self.show_line_numbers {
                let digits = usize_to_string(line_idx.saturating_add(1));
                let dlen = digits.unicode_len();
                push_spaces(&mut s, if dlen < 4 {
                    4 - dlen
                } else {
                    0
                });
                s.append(digits.as_str());
                s.append("  ");
            }
            let content = self.buffer.lines[line_idx].get_substr(left, right);
            s.append(content.as_str());
            proof {
                assert(s@ =~= spec_row_text(*self, row_offset as int));
            }
        } else if self.buffer.is_empty() && row_offset == self.size.height / 3 {
            if self.show_line_numbers {
                push_spaces(&mut s, 6);
            }
            let banner = Self::build_welcome_message(content_width);
            s.append(banner.as_str());
            proof {
                assert(s@ =~= spec_row_text(*self, row_offset as int));
            }
        } else {
            if self.show_line_numbers {
                push_spaces(&mut s, 6);
            }
            s.append("~");
            proof {
                assert(s@ =~= spec_row_text(*self, row_offset as int));
            }
        }
        s
    }
}

/// Exactly what one movement command does to the view: only the cursor
/// and the scroll offset change, as the command and the scroll rule say.
pub open spec fn spec_move_applied(pre: EditorView, post: EditorView, command: Move) -> bool {
    &&& post.buffer == pre.buffer
    &&& post.size == pre.size
    &&& post.show_line_numbers == pre.show_line_numbers
    &&& post.search_info == pre.search_info
    &&& post.text_location == spec_move_command(
        pre.buffer.lines@,
        pre.text_location,
        command,
        pre.size.height as int,
    )
    &&& post.scroll_offset.row as int == spec_scroll_axis(
        pre.scroll_offset.row as int,
        pre.size.height as int,
        post.text_location.line_index as int,
    )
    &&& post.scroll_offset.col as int == spec_scroll_axis(
        pre.scroll_offset.col as int,
        pre.size.width as int,
        spec_cursor_col(pre.buffer.lines@, post.text_location),
    )
}

/// Exactly what one edit command does to the view's buffer, cursor and
/// scroll offset: after every edit (except the backspace no-op at the
/// document start) the view scrolls the cursor back into the visible
/// rectangle.
pub open spec fn spec_edit_applied(pre: EditorView, post: EditorView, command: Edit) -> bool {
    &&& post.size == pre.size
    &&& post.show_line_numbers == pre.show_line_numbers
    &&& post.search_info == pre.search_info
    &&& (!(command == Edit::Backspace && pre.text_location.grapheme_index == 0
        && pre.text_location.line_index == 0) ==> {
        &&& post.scroll_offset.row as int == spec_scroll_axis(
            pre.scroll_offset.row as int,
            pre.size.height as int,
            post.text_location.line_index as int,
        )
        &&& post.scroll_offset.col as int == spec_scroll_axis(
            pre.scroll_offset.col as int,
            pre.size.width as int,
            spec_cursor_col(post.buffer.lines@, post.text_location),
        )
    })
    &&& (command matches Edit::Insert(c) ==> crate::buffer::insert_char_rel(
        pre.buffer,
        post.buffer,
        c,
        pre.text_location,
    ))
    &&& (command == Edit::Enter ==> crate::buffer::insert_newline_rel(
        pre.buffer,
        post.buffer,
        pre.text_location,
    ) && post.text_location == spec_move_right(post.buffer.lines@, pre.text_location))
    &&& (command == Edit::Delete ==> crate::buffer::delete_rel(
        pre.buffer,
        post.buffer,
        pre.text_location,
    ) && post.text_location == spec_snap_grapheme(post.buffer.lines@, pre.text_location))
    &&& (command == Edit::RemoveLine ==> crate::buffer::delete_line_rel(
        pre.buffer,
        post.buffer,
        pre.text_location.line_index as int,
    ) && post.text_location == spec_move_up(post.buffer.lines@, pre.text_location, 1))
    &&& (command == Edit::Backspace && pre.text_location.grapheme_index == 0
        && pre.text_location.line_index == 0 ==> post == pre)
    &&& (command == Edit::Backspace && !(pre.text_location.grapheme_index == 0
        && pre.text_location.line_index == 0) ==> crate::buffer::delete_rel(
        pre.buffer,
        post.buffer,
        spec_move_left(pre.buffer.lines@, pre.text_location),
    ) && post.text_location == spec_snap_grapheme(
        post.buffer.lines@,
        spec_move_left(pre.buffer.lines@, pre.text_location),
    ))
}

/// The forward word scan stops at the first whitespace fragment.
proof fn lemma_skip_non_ws_charact(frags: Seq<Fragment>, i: int)
    requires
        0 <= i <= frags.len(),
    ensures
        i <= skip_non_ws(frags, i) <= frags.len(),
        forall|k: int| i <= k < skip_non_ws(frags, i) ==> !is_ws_frag(#[trigger] frags[k]),
        skip_non_ws(frags, i) < frags.len() ==> is_ws_frag(frags[skip_non_ws(frags, i)]),
    decreases frags.len() - i,
{
    if i == frags.len() || is_ws_frag(frags[i]) {
    } else {
        lemma_skip_non_ws_charact(frags, i + 1);
    }
}

/// The forward whitespace scan stops at the first word fragment.
proof fn lemma_skip_ws_charact(frags: Seq<Fragment>, i: int)
    requires
        0 <= i <= frags.len(),
    ensures
        i <= skip_ws(frags, i) <= frags.len(),
        forall|k: int| i <= k < skip_ws(frags, i) ==> is_ws_frag(#[trigger] frags[k]),
        skip_ws(frags, i) < frags.len() ==> !is_ws_frag(frags[skip_ws(frags, i)]),
    decreases frags.len() - i,
{
    if i == frags.len() || !is_ws_frag(frags[i]) {
    } else {
        lemma_skip_ws_charact(frags, i + 1);
    }
}

/// Walking back over whitespace lands at the same place wherever in the
/// whitespace run it starts.
proof fn lemma_back_skip_ws_run(frags: Seq<Fragment>, a: int, b: int)
    requires
        0 <= a <= b < frags.len(),
        forall|k: int| a < k <= b ==> is_ws_frag(#[trigger] frags[k]),
    ensures
        back_skip_ws(frags, b) == back_skip_ws(frags, a),
    decreases b - a,
{
    if b > a {
        lemma_back_skip_ws_run(frags, a, b - 1);
    }
}

/// Walking back to a word's start lands at the same place wherever inside
/// the word it starts.
proof fn lemma_word_start_run(frags: Seq<Fragment>, a: int, b: int)
    requires
        0 <= a <= b <= frags.len(),
        forall|k: int| a <= k < b ==> !is_ws_frag(#[trigger] frags[k]),
    ensures
        back_to_word_start(frags, b) == back_to_word_start(frags, a),
    decreases b - a,
{
    if b > a {
        lemma_word_start_run(frags, a, b - 1);
    }
}

/// A word jump right followed immediately by a word jump left returns the
/// cursor to the start of the word it left. This holds when the cursor
/// starts on a word fragment and the jump right lands on a next word on
/// the same line.
pub proof fn lemma_word_jump_round_trip(lines: Seq<Line>, loc: Location)
    requires
        loc.line_index < lines.len(),
        0 <= loc.grapheme_index < count_at(lines, loc.line_index as int),
        !is_ws_frag(lines[loc.line_index as int].fragments@[loc.grapheme_index as int]),
        spec_jump_word_right(lines, loc).line_index == loc.line_index,
        lines.len() <= usize::MAX,
    ensures
        spec_jump_word_left(lines, spec_jump_word_right(lines, loc)) == (Location {
            line_index: loc.line_index,
            grapheme_index: back_to_word_start(
                lines[loc.line_index as int].fragments@,
                loc.grapheme_index as int,
            ) as usize,
        }),
{
    let li = loc.line_index as int;
    let gi = loc.grapheme_index as int;
    let frags = lines[li].fragments@;
    let len = frags.len() as int;
    assert(lines[li].fragments.len() == frags.len());
    lemma_skip_non_ws_charact(frags, gi);
    let e1 = skip_non_ws(frags, gi);
    lemma_skip_ws_charact(frags, e1);
    let c2 = skip_ws(frags, e1);
    // The jump right stayed on this line, so it landed on a word start
    // strictly inside the line.
    assert(c2 < len) by {
        if c2 >= len {
            let moved = spec_jump_word_right(lines, loc);
            assert(moved == spec_move_down(
                lines,
                Location { line_index: loc.line_index, grapheme_index: 0 },
                1,
            ));
            assert(moved.line_index as int == li + 1 || moved.line_index as int == lines.len());
        }
    }
    assert(spec_jump_word_right(lines, loc) == (Location {
        line_index: loc.line_index,
        grapheme_index: c2 as usize,
    }));
    // The scan crossed the word's end: there is whitespace between the old
    // word and the new one.
    assert(e1 > gi);
    assert(e1 < len && is_ws_frag(frags[e1]));
    assert(c2 > e1);
    // Walking back over that whitespace lands on the old word's last
    // fragment.
    lemma_back_skip_ws_run(frags, e1, c2 - 1);
    assert(!is_ws_frag(frags[e1 - 1]));
    assert(back_skip_ws(frags, e1 - 1) == e1 - 1);
    assert(back_skip_ws(frags, e1) == back_skip_ws(frags, e1 - 1));
    let c1b = back_skip_ws(frags, c2 - 1);
    assert(c1b == e1 - 1);
    // Walking back from anywhere inside the word reaches its start.
    lemma_word_start_run(frags, gi, e1 - 1);
    let w = back_to_word_start(frags, gi);
    assert(back_to_word_start(frags, c1b) == w);
    assert(spec_jump_word_left(lines, spec_jump_word_right(lines, loc)) == (Location {
        line_index: loc.line_index,
        grapheme_index: w as usize,
    }));
}

/// Saturating subtraction on machine integers, in spec form.
pub open spec fn sat_sub(a: int, b: int) -> int {
    if a >= b {
        a - b
    } else {
        0
    }
}

/// Saturating addition capped at `usize::MAX`, in spec form.
pub open spec fn sat_add_usize(a: int, b: int) -> int {
    if a + b <= usize::MAX {
        a + b
    } else {
        usize::MAX as int
    }
}

/// The rendered column of the cursor within its line: the summed width of
/// the graphemes before it, or zero on the virtual past-the-end line.
pub open spec fn spec_cursor_col(lines: Seq<Line>, loc: Location) -> int {
    if loc.line_index < lines.len() {
        crate::line::spec_width_until(
            lines[loc.line_index as int].fragments@,
            loc.grapheme_index as int,
        ) as int
    } else {
        0
    }
}

/// The cursor after one movement command.
pub open spec fn spec_move_command(
    lines: Seq<Line>,
    loc: Location,
    command: Move,
    height: int,
) -> Location {
    match command {
        Move::Up => spec_move_up(lines, loc, 1),
        Move::Down => spec_move_down(lines, loc, 1),
        Move::Left => spec_move_left(lines, loc),
        Move::Right => spec_move_right(lines, loc),
        Move::PageUp => spec_move_up(
            lines,
            loc,
            if height >= 1 {
                height - 1
            } else {
                0
            },
        ),
        Move::PageDown => spec_move_down(
            lines,
            loc,
            if height >= 1 {
                height - 1
            } else {
                0
            },
        ),
        Move::Home => Location { line_index: loc.line_index, grapheme_index: 0 },
        Move::End => Location {
            line_index: loc.line_index,
            grapheme_index: count_at(lines, loc.line_index as int) as usize,
        },
        Move::WordJumpRight => spec_jump_word_right(lines, loc),
        Move::WordJumpLeft => spec_jump_word_left(lines, loc),
    }
}

/// A scroll axis with a positive extent always ends with the target inside
/// the window: after every cursor move the cursor's rendered position lies
/// within the visible rectangle.
pub proof fn lemma_scroll_axis_in_view(offset: int, extent: int, target: int)
    requires
        0 <= offset <= usize::MAX,
        1 <= extent <= usize::MAX,
        0 <= target <= usize::MAX,
    ensures
        spec_scroll_axis(offset, extent, target) <= target < spec_scroll_axis(
            offset,
            extent,
            target,
        ) + extent,
{
}

} // verus!
