//! The document buffer: an ordered sequence of lines, a file identity and a
//! modified flag, with line-level edit operations and ring-scan substring
//! search.

use crate::line::{match_at, text_with_delete, text_with_insert, Fragment, Line};
use crate::unicode::push_char;
use crate::view::Location;
use vstd::prelude::*;

verus! {

/// The smallest grapheme index at or after `lo` where the query's grapheme
/// sequence occurs in the fragment sequence.
pub open spec fn line_first_match(frags: Seq<Fragment>, q: Seq<Fragment>, lo: int) -> Option<int>
    decreases frags.len() + 1 - lo,
    when 0 <= lo
{
    if lo + q.len() > frags.len() {
        None
    } else if match_at(frags, q, lo) {
        Some(lo)
    } else {
        line_first_match(frags, q, lo + 1)
    }
}

/// The largest grapheme index at or below `j` where the query's grapheme
/// sequence occurs in the fragment sequence.
pub open spec fn last_match_upto(frags: Seq<Fragment>, q: Seq<Fragment>, j: int) -> Option<int>
    decreases (if j < 0 {
        0
    } else {
        j + 1
    }),
{
    if j < 0 {
        None
    } else if match_at(frags, q, j) {
        Some(j)
    } else {
        last_match_upto(frags, q, j - 1)
    }
}

/// The largest grapheme index where the query occurs ending at or before
/// column `hi` of the fragment sequence.
pub open spec fn line_last_match(frags: Seq<Fragment>, q: Seq<Fragment>, hi: int) -> Option<int> {
    last_match_upto(frags, q, hi - q.len())
}

/// One forward ring scan: starting at line `idx` constrained to grapheme
/// indexes at or after `lo`, visit `steps` lines in document order, wrapping
/// from the last line to the first, every line after the first scanned from
/// its start; the first hit is the result.
pub open spec fn spec_scan_forward(
    lines: Seq<Line>,
    q: Seq<Fragment>,
    idx: int,
    lo: int,
    steps: int,
) -> Option<Location>
    decreases steps,
    when 0 <= steps
{
    if steps <= 0 || lines.len() == 0 || !(0 <= idx < lines.len()) {
        None
    } else {
        match line_first_match(lines[idx].fragments@, q, lo) {
            Some(j) => Some(Location { line_index: idx as usize, grapheme_index: j as usize }),
            None => {
                let idx2 = if idx + 1 == lines.len() {
                    0
                } else {
                    idx + 1
                };
                spec_scan_forward(lines, q, idx2, 0, steps - 1)
            },
        }
    }
}

/// One backward ring scan: starting at line `idx` constrained to matches
/// ending at or before grapheme index `hi`, visit `steps` lines in reverse
/// document order, wrapping from the first line to the last, every line
/// after the first scanned from its end; the first hit is the result.
pub open spec fn spec_scan_backward(
    lines: Seq<Line>,
    q: Seq<Fragment>,
    idx: int,
    hi: int,
    steps: int,
) -> Option<Location>
    decreases steps,
    when 0 <= steps
{
    if steps <= 0 || lines.len() == 0 || !(0 <= idx < lines.len()) {
        None
    } else {
        match line_last_match(lines[idx].fragments@, q, hi) {
            Some(j) => Some(Location { line_index: idx as usize, grapheme_index: j as usize }),
            None => {
                let idx2 = if idx == 0 {
                    lines.len() - 1
                } else {
                    idx - 1
                };
                spec_scan_backward(
                    lines,
                    q,
                    idx2,
                    lines[idx2].fragments@.len() as int,
                    steps - 1,
                )
            },
        }
    }
}

/// Exactly what `insert_char` does to the buffer.
pub open spec fn insert_char_rel(pre: Buffer, post: Buffer, character: char, at: Location) -> bool {
    &&& post.wf()
    &&& post.file_name == pre.file_name
    &&& (at.line_index > pre.lines@.len() ==> post == pre)
    &&& (at.line_index == pre.lines@.len() ==> {
        &&& post.lines@.len() == pre.lines@.len() + 1
        &&& (forall|j: int| 0 <= j < pre.lines@.len() ==> post.lines@[j] == pre.lines@[j])
        &&& post.lines@.last()@ == seq![character]
        &&& post.lines@.last().is_canonical()
        &&& post.dirty
    })
    &&& (at.line_index < pre.lines@.len() ==> {
        &&& post.lines@.len() == pre.lines@.len()
        &&& (forall|j: int|
            0 <= j < pre.lines@.len() && j != at.line_index ==> post.lines@[j] == pre.lines@[j])
        &&& post.lines@[at.line_index as int]@ == text_with_insert(
            pre.lines@[at.line_index as int].fragments@,
            character,
            at.grapheme_index as int,
        )
        &&& post.lines@[at.line_index as int].is_canonical()
        &&& post.dirty
    })
}

/// Exactly what `delete` does to the buffer: within a line it removes one
/// grapheme, at a line's end it joins the next line, at the last grapheme
/// of the final line it does nothing.
pub open spec fn delete_rel(pre: Buffer, post: Buffer, at: Location) -> bool {
    &&& post.wf()
    &&& post.file_name == pre.file_name
    &&& (at.line_index >= pre.lines@.len() ==> post == pre)
    &&& (at.line_index < pre.lines@.len() && at.grapheme_index < pre.lines@[at.line_index as int].fragments@.len() ==> {
        &&& post.lines@.len() == pre.lines@.len()
        &&& (forall|j: int|
            0 <= j < pre.lines@.len() && j != at.line_index ==> post.lines@[j] == pre.lines@[j])
        &&& post.lines@[at.line_index as int]@ == text_with_delete(
            pre.lines@[at.line_index as int].fragments@,
            at.grapheme_index as int,
        )
        &&& post.lines@[at.line_index as int].is_canonical()
        &&& post.dirty
    })
    &&& (at.line_index < pre.lines@.len() && at.grapheme_index >= pre.lines@[at.line_index as int].fragments@.len() && at.line_index + 1 < pre.lines@.len() ==> {
        &&& post.lines@.len() == pre.lines@.len() - 1
        &&& (forall|j: int| 0 <= j < at.line_index ==> post.lines@[j] == pre.lines@[j])
        &&& (forall|j: int|
            at.line_index < j < post.lines@.len() ==> post.lines@[j] == pre.lines@[j + 1])
        &&& post.lines@[at.line_index as int]@ == pre.lines@[at.line_index as int]@
            + pre.lines@[at.line_index as int + 1]@
        &&& post.lines@[at.line_index as int].is_canonical()
        &&& post.dirty
    })
    &&& (at.line_index < pre.lines@.len() && at.grapheme_index >= pre.lines@[at.line_index as int].fragments@.len() && at.line_index + 1 == pre.lines@.len() ==> post == pre)
}

/// Exactly what `delete_line` does to the buffer.
pub open spec fn delete_line_rel(pre: Buffer, post: Buffer, at: int) -> bool {
    &&& post.wf()
    &&& post.file_name == pre.file_name
    &&& (at >= pre.lines@.len() ==> post == pre)
    &&& (at < pre.lines@.len() ==> post.lines@ == pre.lines@.remove(at) && post.dirty)
}

/// Exactly what `insert_newline` does to the buffer.
pub open spec fn insert_newline_rel(pre: Buffer, post: Buffer, at: Location) -> bool {
    &&& post.wf()
    &&& post.file_name == pre.file_name
    &&& (at.line_index > pre.lines@.len() ==> post == pre)
    &&& (at.line_index == pre.lines@.len() ==> {
        &&& post.lines@.len() == pre.lines@.len() + 1
        &&& (forall|j: int| 0 <= j < pre.lines@.len() ==> post.lines@[j] == pre.lines@[j])
        &&& post.lines@.last()@ == Seq::<char>::empty()
        &&& post.dirty
    })
    &&& (at.line_index < pre.lines@.len() ==> {
        &&& post.lines@.len() == pre.lines@.len() + 1
        &&& (forall|j: int| 0 <= j < at.line_index ==> post.lines@[j] == pre.lines@[j])
        &&& (forall|j: int|
            at.line_index + 1 < j < post.lines@.len() ==> post.lines@[j] == pre.lines@[j - 1])
        &&& post.dirty
        &&& (at.grapheme_index <= pre.lines@[at.line_index as int].fragments@.len() ==> {
            &&& post.lines@[at.line_index as int].fragments@ == pre.lines@[at.line_index as int].fragments@.take(at.grapheme_index as int)
            &&& post.lines@[at.line_index as int + 1].fragments@ == pre.lines@[at.line_index as int].fragments@.skip(at.grapheme_index as int)
            &&& pre.lines@[at.line_index as int]@ == post.lines@[at.line_index as int]@
                + post.lines@[at.line_index as int + 1]@
        })
        &&& (at.grapheme_index > pre.lines@[at.line_index as int].fragments@.len() ==> {
            &&& post.lines@[at.line_index as int] == pre.lines@[at.line_index as int]
            &&& post.lines@[at.line_index as int + 1]@ == Seq::<char>::empty()
        })
    })
}

/// A document held in memory: its lines in document order, the path it is
/// bound to (`None` meaning unsaved, no path), and whether it has changes
/// not yet written back.
pub struct Buffer {
    pub file_name: Option<String>,
    pub lines: Vec<Line>,
    pub dirty: bool,
}

impl Default for Buffer {
    fn default() -> (b: Buffer)
        ensures
            b.lines@.len() == 0,
            b.file_name is None,
            !b.dirty,
            b.wf(),
    {
        Buffer { file_name: None, lines: Vec::new(), dirty: false }
    }
}

impl Buffer {
    /// Every line can have its widths summed without overflow.
    pub open spec fn wf(self) -> bool {
        forall|i: int| 0 <= i < self.lines@.len() ==> (#[trigger] self.lines@[i]).wf()
    }

    /// The raw text of each line, in document order.
    pub open spec fn texts(self) -> Seq<Seq<char>> {
        self.lines@.map_values(|l: Line| l@)
    }

    pub fn is_empty(&self) -> (b: bool)
        ensures
            b == (self.lines@.len() == 0),
    {
        self.lines.len() == 0
    }

    pub fn number_of_lines(&self) -> (n: usize)
        ensures
            n == self.lines@.len(),
    {
        self.lines.len()
    }

    /// Builds a buffer from the rows of a file just read: one line per row,
    /// bound to `file_name`. A freshly loaded document is unmodified.
    pub fn load_rows(file_name: String, rows: &Vec<String>) -> (b: Buffer)
        ensures
            b.wf(),
            b.file_name == Some(file_name),
            !b.dirty,
            b.lines@.len() == rows@.len(),
            forall|i: int|
                0 <= i < rows@.len() ==> (#[trigger] b.lines@[i])@ == rows@[i]@
                    && b.lines@[i].is_canonical(),
    {
        let mut lines: Vec<Line> = Vec::new();
        let mut i: usize = 0;
        while i < rows.len()
            invariant
                i <= rows@.len(),
                lines@.len() == i,
                forall|j: int|
                    0 <= j < i ==> (#[trigger] lines@[j])@ == rows@[j]@ && lines@[j].is_canonical()
                        && lines@[j].wf(),
            decreases rows@.len() - i,
        {
            lines.push(Line::from(rows[i].as_str()));
            i = i + 1;
        }
        Buffer { file_name: Some(file_name), lines, dirty: false }
    }

    /// The display form of every line, in document order: what is written
    /// back to storage, one row per line.
    pub fn to_rows(&self) -> (rows: Vec<String>)
        ensures
            rows@.len() == self.lines@.len(),
            forall|i: int| 0 <= i < rows@.len() ==> (#[trigger] rows@[i])@ == self.lines@[i]@,
    {
        let mut rows: Vec<String> = Vec::new();
        let mut i: usize = 0;
        while i < self.lines.len()
            invariant
                i <= self.lines@.len(),
                rows@.len() == i,
                forall|j: int| 0 <= j < i ==> (#[trigger] rows@[j])@ == self.lines@[j]@,
            decreases self.lines@.len() - i,
        {
            rows.push(self.lines[i].to_display_string());
            i = i + 1;
        }
        rows
    }

    /// Records a completed save: rebinds the file identity when a new name
    /// was chosen, and clears the modified flag.
    pub fn mark_saved(&mut self, new_name: Option<String>)
        ensures
            final(self).lines == old(self).lines,
            !final(self).dirty,
            final(self).file_name == (if new_name is Some {
                new_name
            } else {
                old(self).file_name
            }),
    {
        match new_name {
            Some(name) => {
                self.file_name = Some(name);
            },
            None => {},
        }
        self.dirty = false;
    }

    /// Inserts one character at a document location: at the virtual line one
    /// past the end it appends a new one-character line; within range it
    /// delegates to that line; past that it is a no-op.
    pub fn insert_char(&mut self, character: char, at: &Location)
        requires
            old(self).wf(),
        ensures
            insert_char_rel(*old(self), *final(self), character, *at),
    {
        let len = self.lines.len();
        if at.line_index > len {
            return ;
        }
        if at.line_index == len {
            let mut s = String::new();
            push_char(&mut s, character);
            self.lines.push(Line::from(s.as_str()));
            self.dirty = true;
        } else {
            let mut line = self.lines.remove(at.line_index);
            line.insert_char(character, at.grapheme_index);
            self.lines.insert(at.line_index, line);
            self.dirty = true;
            proof {
                assert(self.lines@ =~= old(self).lines@.update(
                    at.line_index as int,
                    self.lines@[at.line_index as int],
                ));
            }
        }
    }

    /// Deletes at a document location: within the line it removes one
    /// grapheme; at or past the line's end it joins the next line onto this
    /// one when a next line exists, and otherwise does nothing.
    pub fn delete(&mut self, at: &Location)
        requires
            old(self).wf(),
        ensures
            delete_rel(*old(self), *final(self), *at),
    {
        let len = self.lines.len();
        if at.line_index >= len {
            return ;
        }
        if at.grapheme_index >= self.lines[at.line_index].grapheme_count() {
            if at.line_index + 1 < len {
                let next_line = self.lines.remove(at.line_index + 1);
                let mut line = self.lines.remove(at.line_index);
                line.append(&next_line);
                self.lines.insert(at.line_index, line);
                self.dirty = true;
            }
        } else {
            let mut line = self.lines.remove(at.line_index);
            line.delete(at.grapheme_index);
            self.lines.insert(at.line_index, line);
            self.dirty = true;
            proof {
                assert(self.lines@ =~= old(self).lines@.update(
                    at.line_index as int,
                    self.lines@[at.line_index as int],
                ));
            }
        }
    }

    /// Removes the whole line at `at`; out of range is a no-op.
    pub fn delete_line(&mut self, at: usize)
        requires
            old(self).wf(),
        ensures
            delete_line_rel(*old(self), *final(self), at as int),
    {
        if at < self.lines.len() {
            self.lines.remove(at);
            self.dirty = true;
        }
    }

    /// Inserts a line break at a document location: at the virtual line one
    /// past the end it appends an empty line; within range it splits the
    /// addressed line at the grapheme index and inserts the tail right after
    /// it; past that it is a no-op.
    pub fn insert_newline(&mut self, at: &Location)
        requires
            old(self).wf(),
        ensures
            insert_newline_rel(*old(self), *final(self), *at),
    {
        let len = self.lines.len();
        if at.line_index > len {
            return ;
        }
        if at.line_index == len {
            self.lines.push(Line::default());
            self.dirty = true;
        } else {
            let mut line = self.lines.remove(at.line_index);
            let new = line.split(at.grapheme_index);
            self.lines.insert(at.line_index, new);
            self.lines.insert(at.line_index, line);
            self.dirty = true;
        }
    }

    /// Scans the document as a ring from `from`, forward, wrapping from the
    /// last line back to the first and visiting `line_count + 1` lines so
    /// that the starting line is seen a second time without its offset
    /// constraint. Returns the first location whose line contains the query
    /// at or after `from`'s grapheme index on the first line visited and
    /// anywhere on later lines, or `None` for an empty query, an empty
    /// document, or a query found nowhere.
    pub fn search_forward(&self, from: Location, query: &Line) -> (r: Option<Location>)
        ensures
            query.fragments@.len() == 0 || self.lines@.len() == 0 ==> r is None,
            query.fragments@.len() > 0 && self.lines@.len() > 0 ==> r == spec_scan_forward(
                self.lines@,
                query.fragments@,
                (from.line_index as int) % (self.lines@.len() as int),
                from.grapheme_index as int,
                self.lines@.len() as int + 1,
            ),
    {
        let n = self.lines.len();
        if query.is_empty() || n == 0 {
            return None;
        }
        let ghost q = query.fragments@;
        let mut idx: usize = from.line_index % n;
        let mut lo: usize = from.grapheme_index;
        let mut remaining: usize = n;
        let ghost target = spec_scan_forward(
            self.lines@,
            q,
            idx as int,
            lo as int,
            self.lines@.len() as int + 1,
        );
        loop
            invariant_except_break
                n == self.lines@.len(),
                0 < n,
                idx < n,
                q == query.fragments@,
                q.len() > 0,
                remaining <= n,
                target == spec_scan_forward(
                    self.lines@,
                    q,
                    idx as int,
                    lo as int,
                    remaining as int + 1,
                ),
                target == spec_scan_forward(
                    self.lines@,
                    q,
                    (from.line_index as int) % (self.lines@.len() as int),
                    from.grapheme_index as int,
                    self.lines@.len() as int + 1,
                ),
            ensures
                target is None,
            decreases remaining,
        {
            let found = self.lines[idx].search_forward(lo, query);
            proof {
                lemma_line_first_match_charact(self.lines@[idx as int].fragments@, q, lo as int);
            }
            match found {
                Some(j) => {
                    proof {
                        assert(line_first_match(self.lines@[idx as int].fragments@, q, lo as int)
                            == Some(j as int));
                    }
                    return Some(Location { line_index: idx, grapheme_index: j });
                },
                None => {
                    proof {
                        assert(line_first_match(self.lines@[idx as int].fragments@, q, lo as int)
                            is None);
                    }
                },
            }
            if remaining == 0 {
                proof {
                    let idx2: int = if idx as int + 1 == n {
                        0
                    } else {
                        idx as int + 1
                    };
                    assert(spec_scan_forward(self.lines@, q, idx2, 0, 0) is None);
                }
                break ;
            }
            idx = if idx + 1 == n {
                0
            } else {
                idx + 1
            };
            lo = 0;
            remaining = remaining - 1;
        }
        None
    }

    /// Scans the document as a ring from `from`, backward, wrapping from the
    /// first line back to the last and visiting `line_count + 1` lines.
    /// Returns the last location whose line contains the query ending at or
    /// before `from`'s grapheme index on the first line visited and anywhere
    /// on later lines, or `None` for an empty query, an empty document, or a
    /// query found nowhere.
    pub fn search_backwards(&self, from: Location, query: &Line) -> (r: Option<Location>)
        ensures
            query.fragments@.len() == 0 || self.lines@.len() == 0 ==> r is None,
            query.fragments@.len() > 0 && self.lines@.len() > 0 ==> r == spec_scan_backward(
                self.lines@,
                query.fragments@,
                (if from.line_index < self.lines@.len() {
                    from.line_index as int
                } else {
                    self.lines@.len() - 1
                }),
                from.grapheme_index as int,
                self.lines@.len() as int + 1,
            ),
    {
        let n = self.lines.len();
        if query.is_empty() || n == 0 {
            return None;
        }
        let ghost q = query.fragments@;
        let mut idx: usize = if from.line_index < n {
            from.line_index
        } else {
            n - 1
        };
        let mut hi: usize = from.grapheme_index;
        let mut remaining: usize = n;
        let ghost target = spec_scan_backward(
            self.lines@,
            q,
            idx as int,
            hi as int,
            self.lines@.len() as int + 1,
        );
        loop
            invariant_except_break
                n == self.lines@.len(),
                0 < n,
                idx < n,
                q == query.fragments@,
                q.len() > 0,
                remaining <= n,
                target == spec_scan_backward(
                    self.lines@,
                    q,
                    idx as int,
                    hi as int,
                    remaining as int + 1,
                ),
                target == spec_scan_backward(
                    self.lines@,
                    q,
                    (if from.line_index < self.lines@.len() {
                        from.line_index as int
                    } else {
                        self.lines@.len() - 1
                    }),
                    from.grapheme_index as int,
                    self.lines@.len() as int + 1,
                ),
            ensures
                target is None,
            decreases remaining,
        {
            let found = self.lines[idx].search_backward(hi, query);
            proof {
                lemma_last_match_upto_charact(
                    self.lines@[idx as int].fragments@,
                    q,
                    hi - q.len(),
                );
            }
            match found {
                Some(j) => {
                    proof {
                        assert(line_last_match(self.lines@[idx as int].fragments@, q, hi as int)
                            == Some(j as int));
                    }
                    return Some(Location { line_index: idx, grapheme_index: j });
                },
                None => {
                    proof {
                        assert(line_last_match(self.lines@[idx as int].fragments@, q, hi as int)
                            is None);
                    }
                },
            }
            if remaining == 0 {
                proof {
                    let idx2: int = if idx as int == 0 {
                        self.lines@.len() - 1
                    } else {
                        idx as int - 1
                    };
                    assert(spec_scan_backward(
                        self.lines@,
                        q,
                        idx2,
                        self.lines@[idx2].fragments@.len() as int,
                        0,
                    ) is None);
                }
                break ;
            }
            idx = if idx == 0 {
                n - 1
            } else {
                idx - 1
            };
            hi = self.lines[idx].grapheme_count();
            remaining = remaining - 1;
        }
        None
    }
}

/// `line_first_match` is exactly the smallest match at or after `lo`.
proof fn lemma_line_first_match_charact(frags: Seq<Fragment>, q: Seq<Fragment>, lo: int)
    requires
        0 <= lo,
    ensures
        match line_first_match(frags, q, lo) {
            Some(j) => lo <= j && match_at(frags, q, j) && forall|j2: int|
                lo <= j2 < j ==> !match_at(frags, q, j2),
            None => forall|j2: int| lo <= j2 ==> !match_at(frags, q, j2),
        },
    decreases frags.len() + 1 - lo,
{
    if lo + q.len() > frags.len() {
        assert forall|j2: int| lo <= j2 implies !match_at(frags, q, j2) by {
            if match_at(frags, q, j2) {
                assert(j2 + q.len() <= frags.len());
            }
        }
    } else if match_at(frags, q, lo) {
    } else {
        lemma_line_first_match_charact(frags, q, lo + 1);
    }
}

/// `last_match_upto` is exactly the largest match at or below `j`.
proof fn lemma_last_match_upto_charact(frags: Seq<Fragment>, q: Seq<Fragment>, j: int)
    ensures
        match last_match_upto(frags, q, j) {
            Some(j1) => j1 <= j && match_at(frags, q, j1) && forall|j2: int|
                j1 < j2 <= j ==> !match_at(frags, q, j2),
            None => forall|j2: int| j2 <= j ==> !match_at(frags, q, j2),
        },
    decreases (if j < 0 {
        0
    } else {
        j + 1
    }),
{
    if j < 0 {
    } else if match_at(frags, q, j) {
    } else {
        lemma_last_match_upto_charact(frags, q, j - 1);
    }
}

/// The ring scan is bounded and complete in the negative: it visits at most
/// `steps` lines in all — each document line at most twice when `steps` is
/// `line_count + 1` — and when the query matches nowhere in the document the
/// scan returns `None`: the search wraps exactly once and stops.
pub proof fn lemma_scan_forward_absent(
    lines: Seq<Line>,
    q: Seq<Fragment>,
    idx: int,
    lo: int,
    steps: int,
)
    requires
        forall|i: int, j: int|
            0 <= i < lines.len() ==> !(#[trigger] match_at(lines[i].fragments@, q, j)),
        0 <= steps,
        0 <= lo,
    ensures
        spec_scan_forward(lines, q, idx, lo, steps) is None,
    decreases steps,
{
    if steps <= 0 || lines.len() == 0 || !(0 <= idx < lines.len())  {
    } else {
        lemma_line_first_match_charact(lines[idx].fragments@, q, lo);
        match line_first_match(lines[idx].fragments@, q, lo) {
            Some(j) => {
                assert(!match_at(lines[idx].fragments@, q, j));
            },
            None => {},
        }
        let idx2 = if idx + 1 == lines.len() {
            0
        } else {
            idx + 1
        };
        lemma_scan_forward_absent(lines, q, idx2, 0, steps - 1);
    }
}

/// Steps the forward ring takes from line `idx` to line `i`.
pub open spec fn ring_distance(idx: int, i: int, n: int) -> int {
    if i >= idx {
        i - idx
    } else {
        i + n - idx
    }
}

/// A scan from line start with enough steps to reach a line holding a
/// match reports a hit.
proof fn lemma_scan_reaches(lines: Seq<Line>, q: Seq<Fragment>, idx: int, i: int, j: int, steps: int)
    requires
        0 <= idx < lines.len(),
        0 <= i < lines.len(),
        match_at(lines[i].fragments@, q, j),
        steps >= ring_distance(idx, i, lines.len() as int) + 1,
    ensures
        spec_scan_forward(lines, q, idx, 0, steps) is Some,
    decreases steps,
{
    lemma_line_first_match_charact(lines[idx].fragments@, q, 0);
    match line_first_match(lines[idx].fragments@, q, 0) {
        Some(_) => {},
        None => {
            assert(idx != i);
            let idx2 = if idx + 1 == lines.len() {
                0
            } else {
                idx + 1
            };
            lemma_scan_reaches(lines, q, idx2, i, j, steps - 1);
        },
    }
}

/// The ring scan never misses: when the query occurs anywhere in the
/// document, a forward scan of `line_count + 1` steps reports a hit. With
/// `lemma_scan_forward_absent` this pins exactly when the search succeeds.
pub proof fn lemma_scan_forward_finds(
    lines: Seq<Line>,
    q: Seq<Fragment>,
    idx: int,
    lo: int,
    steps: int,
)
    requires
        0 <= idx < lines.len(),
        0 <= lo,
        steps >= lines.len() + 1,
        exists|i: int, j: int|
            0 <= i < lines.len() && #[trigger] match_at(lines[i].fragments@, q, j),
    ensures
        spec_scan_forward(lines, q, idx, lo, steps) is Some,
{
    lemma_line_first_match_charact(lines[idx].fragments@, q, lo);
    match line_first_match(lines[idx].fragments@, q, lo) {
        Some(_) => {},
        None => {
            let (i, j) = choose|i: int, j: int|
                0 <= i < lines.len() && #[trigger] match_at(lines[i].fragments@, q, j);
            let idx2 = if idx + 1 == lines.len() {
                0
            } else {
                idx + 1
            };
            lemma_scan_reaches(lines, q, idx2, i, j, steps - 1);
        },
    }
}

} // verus!
