//! One line of the document, stored as a sequence of rendering fragments.
//!
//! A [`Fragment`] is one grapheme cluster together with its display metadata;
//! a [`Line`] is the ordered fragment sequence, the sole source of truth for
//! the line's content. Mutations rebuild the line's text and re-segment it
//! from scratch.

use crate::unicode::{
    char_is_control, display_width_of, graphemes_of, is_control_char, push_char, render_width_of,
    split_graphemes, str_eq, str_trim, trim_of,
};
use vstd::prelude::*;
use vstd::seq_lib::lemma_flatten_concat;

verus! {

/// How many terminal columns a rendered fragment occupies.
#[derive(Clone, Copy, PartialEq, Eq, Structural, Debug)]
pub enum GraphemeWidth {
    Half,
    Full,
}

/// One grapheme cluster of a line, plus its display metadata.
pub struct Fragment {
    /// The cluster's exact text; may span several code points.
    pub grapheme: String,
    /// Columns the fragment occupies when rendered.
    pub render_width: GraphemeWidth,
    /// A single visible character substituted at render time, when the
    /// cluster itself would be invisible or ambiguous on screen.
    pub replacement: Option<char>,
}

/// An ordered sequence of fragments representing one document row, with no
/// embedded newline.
pub struct Line {
    pub fragments: Vec<Fragment>,
}

/// Columns taken by one fragment: a replacement always renders as one column;
/// otherwise the width recorded at segmentation time.
pub open spec fn frag_width(f: Fragment) -> nat {
    match f.render_width {
        GraphemeWidth::Half => 1,
        GraphemeWidth::Full => 2,
    }
}

/// The substitution the renderer applies to one grapheme cluster: tab shows
/// as a space, other blank clusters as an open-box-style glyph, invisible
/// clusters as a placeholder dot, a lone control character as a tombstone.
pub open spec fn spec_replacement(g: Seq<char>) -> Option<char> {
    if g == seq!['\t'] {
        Some(' ')
    } else if g == seq![' '] {
        None
    } else if trim_of(g).len() == 0 {
        Some('\u{2423}')
    } else if display_width_of(g) == 0 {
        if g.len() == 1 && is_control_char(g[0]) {
            Some('\u{25af}')
        } else {
            Some('\u{00b7}')
        }
    } else {
        None
    }
}

/// A fragment's metadata is exactly what segmentation derives from its text:
/// the replacement given by `spec_replacement`, and a width of one column
/// when substituted, else the cluster's display width normalized to one or
/// two columns.
pub open spec fn frag_fits(f: Fragment) -> bool {
    match spec_replacement(f.grapheme@) {
        Some(r) => f.replacement == Some(r) && f.render_width == GraphemeWidth::Half,
        None => f.replacement is None && f.render_width == (if display_width_of(f.grapheme@)
            <= 1 {
            GraphemeWidth::Half
        } else {
            GraphemeWidth::Full
        }),
    }
}

pub open spec fn frags_fit(frags: Seq<Fragment>) -> bool {
    forall|i: int| 0 <= i < frags.len() ==> frag_fits(#[trigger] frags[i])
}

/// The grapheme text of each fragment, in order.
pub open spec fn frag_texts(frags: Seq<Fragment>) -> Seq<Seq<char>> {
    frags.map_values(|f: Fragment| f.grapheme@)
}

/// The fragment sequence is the grapheme-cluster segmentation of `s`, with
/// the display metadata derived from each cluster.
pub open spec fn is_fragmentation_of(frags: Seq<Fragment>, s: Seq<char>) -> bool {
    &&& frag_texts(frags) == graphemes_of(s)
    &&& frags_fit(frags)
}

impl View for Line {
    type V = Seq<char>;

    /// A line's view is its raw text: the concatenation of its fragments'
    /// grapheme texts, the form used for saving to storage.
    open spec fn view(&self) -> Seq<char> {
        frag_texts(self.fragments@).flatten()
    }
}

impl Line {
    /// Enough room that every prefix width sum fits in `usize`.
    pub open spec fn wf(self) -> bool {
        &&& self.fragments@.len() * 2 <= usize::MAX
        &&& frags_fit(self.fragments@)
    }

    /// The line's fragments are exactly the segmentation of its own text.
    /// True of every line built by segmentation; `split` may hand out lines
    /// for which this is not known.
    pub open spec fn is_canonical(self) -> bool {
        is_fragmentation_of(self.fragments@, self@)
    }

    /// An empty line, built by segmenting empty text so that it is known to
    /// be canonical.
    pub fn default() -> (l: Line)
        ensures
            l.fragments@.len() == 0,
            l.wf(),
            l@ == Seq::<char>::empty(),
            l.is_canonical(),
    {
        proof {
            reveal_strlit("");
            assert(""@ =~= Seq::<char>::empty());
        }
        let l = Line::from("");
        proof {
            lemma_nonempty_parts_bound(frag_texts(l.fragments@), l@);
            assert(l.fragments@.len() == 0);
        }
        l
    }

    pub fn grapheme_count(&self) -> (n: usize)
        ensures
            n == self.fragments@.len(),
    {
        self.fragments.len()
    }

    pub fn is_empty(&self) -> (b: bool)
        ensures
            b == (self.fragments@.len() == 0),
    {
        self.fragments.len() == 0
    }

    pub fn get_fragments(&self) -> (r: &Vec<Fragment>)
        ensures
            r == &self.fragments,
    {
        &self.fragments
    }

    /// The substitution applied to one grapheme cluster at render time, or
    /// `None` when the cluster is shown as itself.
    pub fn replacement_character(grapheme: &str) -> (r: Option<char>)
        ensures
            r == spec_replacement(grapheme@),
    {
        proof {
            reveal_strlit("\t");
            reveal_strlit(" ");
            assert("\t"@ =~= seq!['\t']);
            assert(" "@ =~= seq![' ']);
        }
        if str_eq(grapheme, "\t") {
            Some(' ')
        } else if str_eq(grapheme, " ") {
            None
        } else if str_trim(grapheme).is_empty() {
            Some('\u{2423}')
        } else if render_width_of(grapheme) == 0 {
            if grapheme.unicode_len() == 1 && char_is_control(grapheme.get_char(0)) {
                Some('\u{25af}')
            } else {
                Some('\u{00b7}')
            }
        } else {
            None
        }
    }

    /// Segments `line_str` into fragments: one per grapheme cluster, each
    /// with its substitution and normalized render width.
    pub fn str_to_fragments(line_str: &str) -> (r: Vec<Fragment>)
        ensures
            is_fragmentation_of(r@, line_str@),
            frag_texts(r@).flatten() == line_str@,
            forall|i: int| 0 <= i < r@.len() ==> (#[trigger] r@[i]).grapheme@.len() > 0,
            r@.len() * 2 <= usize::MAX,
    {
        let graphemes = split_graphemes(line_str);
        let ghost gs = graphemes@.map_values(|g: String| g@);
        let mut fragments: Vec<Fragment> = Vec::new();
        let mut i: usize = 0;
        while i < graphemes.len()
            invariant
                i <= graphemes.len(),
                gs == graphemes@.map_values(|g: String| g@),
                gs == graphemes_of(line_str@),
                fragments@.len() == i,
                forall|j: int|
                    0 <= j < i ==> (#[trigger] fragments@[j]).grapheme@ == gs[j] && frag_fits(
                        fragments@[j],
                    ),
            decreases graphemes@.len() - i,
        {
            let g: String = graphemes[i].clone();
            let replacement = Self::replacement_character(g.as_str());
            let render_width = match replacement {
                Some(_) => GraphemeWidth::Half,
                None => {
                    if render_width_of(g.as_str()) <= 1 {
                        GraphemeWidth::Half
                    } else {
                        GraphemeWidth::Full
                    }
                },
            };
            fragments.push(Fragment { grapheme: g, render_width, replacement });
            i = i + 1;
        }
        proof {
            assert(frag_texts(fragments@) =~= gs);
        }
        fragments
    }

    /// Builds a line from raw text by grapheme-cluster segmentation. Never
    /// fails; empty text yields an empty line, and the line's text is `line_str`
    /// itself.
    pub fn from(line_str: &str) -> (l: Self)
        ensures
            l.wf(),
            l.is_canonical(),
            is_fragmentation_of(l.fragments@, line_str@),
            forall|i: int|
                0 <= i < l.fragments@.len() ==> (#[trigger] l.fragments@[i]).grapheme@.len() > 0,
            l@ == line_str@,
    {
        let fragments = Self::str_to_fragments(line_str);
        Self { fragments }
    }

    /// The line's raw text: each fragment's grapheme text concatenated, with
    /// no substitutions. This is the form written back to storage.
    pub fn to_display_string(&self) -> (s: String)
        ensures
            s@ == self@,
    {
        let mut out = String::new();
        let mut i: usize = 0;
        while i < self.fragments.len()
            invariant
                i <= self.fragments@.len(),
                out@ == frag_texts(self.fragments@.take(i as int)).flatten(),
            decreases self.fragments@.len() - i,
        {
            proof {
                lemma_frag_texts_take_push(self.fragments@, i as int);
            }
            out.append(self.fragments[i].grapheme.as_str());
            i = i + 1;
        }
        proof {
            assert(self.fragments@.take(self.fragments@.len() as int) =~= self.fragments@);
        }
        out
    }
}

/// Total rendered width of a fragment sequence, in columns.
pub open spec fn seq_width(frags: Seq<Fragment>) -> nat
    decreases frags.len(),
{
    if frags.len() == 0 {
        0
    } else {
        seq_width(frags.drop_last()) + frag_width(frags.last())
    }
}

/// An index clipped into `[0, len]`.
pub open spec fn clip_index(i: int, len: int) -> int {
    if i < 0 {
        0
    } else if i <= len {
        i
    } else {
        len
    }
}

/// Rendered width of the fragments before index `i`; an index beyond the end
/// counts every fragment.
pub open spec fn spec_width_until(frags: Seq<Fragment>, i: int) -> nat {
    seq_width(frags.take(clip_index(i, frags.len() as int)))
}

/// The text of the line after `c` is inserted immediately before the
/// fragment at `i` (appended at the end when `i` is out of range).
pub open spec fn text_with_insert(frags: Seq<Fragment>, c: char, i: int) -> Seq<char> {
    let k = clip_index(i, frags.len() as int);
    frag_texts(frags.take(k)).flatten() + seq![c] + frag_texts(frags.skip(k)).flatten()
}

/// The text of the line with the fragment at `i` omitted (unchanged when `i`
/// is out of range).
pub open spec fn text_with_delete(frags: Seq<Fragment>, i: int) -> Seq<char> {
    if 0 <= i < frags.len() {
        frag_texts(frags.take(i)).flatten() + frag_texts(frags.skip(i + 1)).flatten()
    } else {
        frag_texts(frags).flatten()
    }
}

/// The exact substring painted for the half-open column range
/// `[start, end)`, walking fragments from column `pos`: a fragment fully
/// inside the range shows as its replacement or its text; one that straddles
/// either edge of the range becomes a single ellipsis marker and the walk
/// stops.
pub open spec fn spec_substr(frags: Seq<Fragment>, pos: nat, start: nat, end: nat) -> Seq<char>
    decreases frags.len(),
{
    if pos >= end || frags.len() == 0 {
        Seq::<char>::empty()
    } else {
        let f = frags.first();
        let fragment_end = pos + frag_width(f);
        if fragment_end > start {
            if fragment_end > end || pos < start {
                seq!['\u{22ef}']
            } else {
                (match f.replacement {
                    Some(c) => seq![c],
                    None => f.grapheme@,
                }) + spec_substr(frags.drop_first(), fragment_end, start, end)
            }
        } else {
            spec_substr(frags.drop_first(), fragment_end, start, end)
        }
    }
}

/// The query's fragment texts occur in `frags` starting at grapheme index `j`.
pub open spec fn match_at(frags: Seq<Fragment>, query: Seq<Fragment>, j: int) -> bool {
    &&& 0 <= j
    &&& j + query.len() <= frags.len()
    &&& forall|k: int|
        0 <= k < query.len() ==> (#[trigger] frags[j + k].grapheme@) == query[k].grapheme@
}

impl Clone for Fragment {
    fn clone(&self) -> (r: Self)
        ensures
            r == *self,
    {
        Fragment {
            grapheme: self.grapheme.clone(),
            render_width: self.render_width,
            replacement: self.replacement,
        }
    }
}

impl Clone for Line {
    fn clone(&self) -> (r: Self)
        ensures
            r.fragments@ == self.fragments@,
    {
        let fragments = self.fragments.clone();
        proof {
            assert(fragments@ =~= self.fragments@);
        }
        Line { fragments }
    }
}

impl Line {
    /// Sum of the render widths of the fragments before `grapheme_index`:
    /// the terminal column at which that grapheme starts.
    pub fn sum_width_until(&self, grapheme_index: usize) -> (w: usize)
        requires
            self.wf(),
        ensures
            w as nat == spec_width_until(self.fragments@, grapheme_index as int),
    {
        let len = self.fragments.len();
        let end = if grapheme_index < len {
            grapheme_index
        } else {
            len
        };
        let mut acc: usize = 0;
        let mut j: usize = 0;
        while j < end
            invariant
                j <= end <= self.fragments@.len(),
                self.fragments@.len() * 2 <= usize::MAX,
                acc as nat == seq_width(self.fragments@.take(j as int)),
                acc <= 2 * j,
            decreases end - j,
        {
            proof {
                lemma_seq_width_take_push(self.fragments@, j as int);
            }
            let add_w: usize = match self.fragments[j].render_width {
                GraphemeWidth::Half => 1,
                GraphemeWidth::Full => 2,
            };
            acc = acc + add_w;
            j = j + 1;
        }
        acc
    }

    /// Total rendered width of the line.
    pub fn width(&self) -> (w: usize)
        requires
            self.wf(),
        ensures
            w as nat == seq_width(self.fragments@),
    {
        let r = self.sum_width_until(self.fragments.len());
        proof {
            assert(self.fragments@.take(self.fragments@.len() as int) =~= self.fragments@);
        }
        r
    }

    /// The substring painted for the rendered-column range `[start, end)`.
    pub fn get_substr(&self, start: usize, end: usize) -> (s: String)
        requires
            self.wf(),
        ensures
            start >= end ==> s@ == Seq::<char>::empty(),
            start < end ==> s@ == spec_substr(self.fragments@, 0, start as nat, end as nat),
    {
        let mut substr = String::new();
        if start >= end {
            return substr;
        }
        let ghost whole = spec_substr(self.fragments@, 0, start as nat, end as nat);
        let len = self.fragments.len();
        let mut pos: usize = 0;
        let mut i: usize = 0;
        proof {
            assert(self.fragments@.skip(0) =~= self.fragments@);
            assert(substr@ + spec_substr(self.fragments@, 0, start as nat, end as nat)
                =~= spec_substr(self.fragments@, 0, start as nat, end as nat));
        }
        loop
            invariant_except_break
                start < end,
                i <= len,
                len == self.fragments@.len(),
                self.wf(),
                pos <= 2 * i,
                whole == spec_substr(self.fragments@, 0, start as nat, end as nat),
                whole == substr@ + spec_substr(
                    self.fragments@.skip(i as int),
                    pos as nat,
                    start as nat,
                    end as nat,
                ),
            ensures
                substr@ == whole,
            decreases len - i,
        {
            if i >= len {
                proof {
                    assert(self.fragments@.skip(i as int).len() == 0);
                    assert(whole =~= substr@);
                }
                break ;
            }
            let ghost rest = self.fragments@.skip(i as int);
            proof {
                assert(rest.first() == self.fragments@[i as int]);
                assert(rest.drop_first() =~= self.fragments@.skip(i as int + 1));
            }
            if pos >= end {
                proof {
                    assert(whole =~= substr@);
                }
                break ;
            }
            let f = &self.fragments[i];
            let w: usize = match f.render_width {
                GraphemeWidth::Half => 1,
                GraphemeWidth::Full => 2,
            };
            let fragment_end = pos + w;
            if fragment_end > start {
                if fragment_end > end || pos < start {
                    push_char(&mut substr, '\u{22ef}');
                    proof {
                        assert(spec_substr(rest, pos as nat, start as nat, end as nat) =~= seq![
                            '\u{22ef}',
                        ]);
                        assert(whole =~= substr@);
                    }
                    break ;
                } else {
                    match f.replacement {
                        Some(repl) => push_char(&mut substr, repl),
                        None => substr.append(f.grapheme.as_str()),
                    }
                }
            }
            pos = fragment_end;
            i = i + 1;
        }
        substr
    }

    /// Rebuilds the line's text with `character` inserted immediately before
    /// the fragment at `grapheme_index` (appended when out of range), then
    /// re-segments. Never fails for any index.
    pub fn insert_char(&mut self, character: char, grapheme_index: usize)
        ensures
            final(self).wf(),
            final(self).is_canonical(),
            is_fragmentation_of(
                final(self).fragments@,
                text_with_insert(old(self).fragments@, character, grapheme_index as int),
            ),
            final(self)@ == text_with_insert(
                old(self).fragments@,
                character,
                grapheme_index as int,
            ),
    {
        let len = self.fragments.len();
        let k = if grapheme_index < len {
            grapheme_index
        } else {
            len
        };
        let mut builder = String::new();
        let mut j: usize = 0;
        while j < k
            invariant
                j <= k <= len,
                len == self.fragments@.len(),
                builder@ == frag_texts(self.fragments@.take(j as int)).flatten(),
            decreases k - j,
        {
            proof {
                lemma_frag_texts_take_push(self.fragments@, j as int);
            }
            builder.append(self.fragments[j].grapheme.as_str());
            j = j + 1;
        }
        push_char(&mut builder, character);
        while j < len
            invariant
                k <= j <= len,
                k == clip_index(grapheme_index as int, len as int),
                len == self.fragments@.len(),
                builder@ == frag_texts(self.fragments@.take(k as int)).flatten() + seq![character]
                    + frag_texts(self.fragments@.subrange(k as int, j as int)).flatten(),
            decreases len - j,
        {
            proof {
                lemma_frag_texts_subrange_push(self.fragments@, k as int, j as int);
            }
            builder.append(self.fragments[j].grapheme.as_str());
            j = j + 1;
        }
        proof {
            assert(self.fragments@.subrange(k as int, len as int) =~= self.fragments@.skip(
                k as int,
            ));
        }
        self.fragments = Self::str_to_fragments(builder.as_str());
    }

    /// Rebuilds the line's text with the fragment at `grapheme_index`
    /// omitted (a re-segmentation of the unchanged text when out of range),
    /// then re-segments.
    pub fn delete(&mut self, grapheme_index: usize)
        ensures
            final(self).wf(),
            final(self).is_canonical(),
            is_fragmentation_of(
                final(self).fragments@,
                text_with_delete(old(self).fragments@, grapheme_index as int),
            ),
            final(self)@ == text_with_delete(old(self).fragments@, grapheme_index as int),
    {
        let len = self.fragments.len();
        let mut builder = String::new();
        let mut j: usize = 0;
        while j < len
            invariant
                j <= len,
                len == self.fragments@.len(),
                builder@ == if (grapheme_index as int) < (j as int) {
                    frag_texts(self.fragments@.take(grapheme_index as int)).flatten() + frag_texts(
                        self.fragments@.subrange(grapheme_index as int + 1, j as int),
                    ).flatten()
                } else {
                    frag_texts(self.fragments@.take(j as int)).flatten()
                },
            decreases len - j,
        {
            if j != grapheme_index {
                proof {
                    if (grapheme_index as int) < (j as int) {
                        lemma_frag_texts_subrange_push(
                            self.fragments@,
                            grapheme_index as int + 1,
                            j as int,
                        );
                    } else {
                        lemma_frag_texts_take_push(self.fragments@, j as int);
                    }
                }
                builder.append(self.fragments[j].grapheme.as_str());
            } else {
                proof {
                    assert(self.fragments@.subrange(
                        grapheme_index as int + 1,
                        grapheme_index as int + 1,
                    ) =~= Seq::<Fragment>::empty());
                    assert(frag_texts(Seq::<Fragment>::empty()).flatten() =~= Seq::<
                        char,
                    >::empty());
                }
            }
            j = j + 1;
        }
        proof {
            if (grapheme_index as int) < len as int {
                assert(self.fragments@.subrange(grapheme_index as int + 1, len as int)
                    =~= self.fragments@.skip(grapheme_index as int + 1));
            } else {
                assert(self.fragments@.take(len as int) =~= self.fragments@);
            }
        }
        self.fragments = Self::str_to_fragments(builder.as_str());
    }

    /// Concatenates the other line's raw text onto this one's, then
    /// re-segments the whole string.
    pub fn append(&mut self, other: &Self)
        ensures
            final(self).wf(),
            final(self).is_canonical(),
            is_fragmentation_of(final(self).fragments@, old(self)@ + other@),
            final(self)@ == old(self)@ + other@,
    {
        let mut concat = self.to_display_string();
        let tail = other.to_display_string();
        concat.append(tail.as_str());
        self.fragments = Self::str_to_fragments(concat.as_str());
    }

    /// Removes and returns all fragments from `at` onward as a new line;
    /// this line keeps the prefix. An index beyond the end leaves the line
    /// unchanged and returns an empty line.
    pub fn split(&mut self, at: usize) -> (tail: Self)
        ensures
            at <= old(self).fragments@.len() ==> {
                &&& final(self).fragments@ == old(self).fragments@.take(at as int)
                &&& tail.fragments@ == old(self).fragments@.skip(at as int)
                &&& old(self)@ == final(self)@ + tail@
            },
            at > old(self).fragments@.len() ==> *final(self) == *old(self) && tail.fragments@.len()
                == 0 && tail@ == Seq::<char>::empty(),
            old(self).wf() ==> final(self).wf() && tail.wf(),
    {
        if at > self.fragments.len() {
            return Self::default();
        }
        let next = self.fragments.split_off(at);
        proof {
            assert(old(self).fragments@ =~= old(self).fragments@.take(at as int) + old(
                self,
            ).fragments@.skip(at as int));
            lemma_frag_texts_concat(
                old(self).fragments@.take(at as int),
                old(self).fragments@.skip(at as int),
            );
        }
        Self { fragments: next }
    }

    /// Appends one character at the end of the line.
    pub fn append_char(&mut self, character: char)
        ensures
            final(self).wf(),
            final(self).is_canonical(),
            final(self)@ == old(self)@ + seq![character],
    {
        let len = self.fragments.len();
        self.insert_char(character, len);
        proof {
            assert(old(self).fragments@.take(len as int) =~= old(self).fragments@);
            assert(old(self).fragments@.skip(len as int).len() == 0);
            assert(frag_texts(old(self).fragments@.skip(len as int)).flatten() =~= Seq::<
                char,
            >::empty());
            assert(final(self)@ =~= old(self)@ + seq![character]);
        }
    }

    /// Removes the last grapheme of the line; re-segments the unchanged text
    /// when the line is empty.
    pub fn delete_last(&mut self)
        ensures
            final(self).wf(),
            final(self).is_canonical(),
            old(self).fragments@.len() > 0 ==> final(self)@ == frag_texts(
                old(self).fragments@.take(old(self).fragments@.len() - 1),
            ).flatten(),
            old(self).fragments@.len() == 0 ==> final(self)@ == old(self)@,
    {
        let len = self.fragments.len();
        let idx = if len > 0 {
            len - 1
        } else {
            0
        };
        self.delete(idx);
        proof {
            if old(self).fragments@.len() > 0 {
                assert(old(self).fragments@.skip(old(self).fragments@.len() as int).len() == 0);
                assert(frag_texts(
                    old(self).fragments@.skip(old(self).fragments@.len() as int),
                ).flatten() =~= Seq::<char>::empty());
                assert(final(self)@ =~= frag_texts(
                    old(self).fragments@.take(old(self).fragments@.len() - 1),
                ).flatten());
            }
        }
    }

    /// Whether the query's grapheme sequence occurs at grapheme index `j`.
    fn fragments_match_at(&self, query: &Line, j: usize) -> (b: bool)
        requires
            j + query.fragments@.len() <= self.fragments@.len(),
        ensures
            b == match_at(self.fragments@, query.fragments@, j as int),
    {
        let len = self.fragments.len();
        let qlen = query.fragments.len();
        let mut k: usize = 0;
        while k < qlen
            invariant
                k <= qlen,
                qlen == query.fragments@.len(),
                len == self.fragments@.len(),
                j + qlen <= len,
                forall|k2: int|
                    0 <= k2 < k ==> (#[trigger] self.fragments@[j + k2].grapheme@)
                        == query.fragments@[k2].grapheme@,
            decreases qlen - k,
        {
            if !str_eq(
                self.fragments[j + k].grapheme.as_str(),
                query.fragments[k].grapheme.as_str(),
            ) {
                return false;
            }
            k = k + 1;
        }
        true
    }

    /// The smallest grapheme index at or after `from_grapheme_index` where
    /// the query's grapheme sequence occurs, or `None` when it occurs
    /// nowhere at or after it.
    pub fn search_forward(&self, from_grapheme_index: usize, query: &Line) -> (r: Option<usize>)
        ensures
            match r {
                Some(j) => from_grapheme_index <= j && match_at(
                    self.fragments@,
                    query.fragments@,
                    j as int,
                ) && forall|j2: int|
                    from_grapheme_index <= j2 < j ==> !match_at(
                        self.fragments@,
                        query.fragments@,
                        j2,
                    ),
                None => forall|j2: int|
                    from_grapheme_index <= j2 ==> !match_at(self.fragments@, query.fragments@, j2),
            },
    {
        let len = self.fragments.len();
        let qlen = query.fragments.len();
        if qlen > len {
            return None;
        }
        let last_start = len - qlen;
        let mut j = from_grapheme_index;
        while j <= last_start
            invariant
                from_grapheme_index <= j,
                qlen == query.fragments@.len(),
                len == self.fragments@.len(),
                last_start == len - qlen,
                forall|j2: int|
                    from_grapheme_index <= j2 < j ==> !match_at(
                        self.fragments@,
                        query.fragments@,
                        j2,
                    ),
            decreases last_start + 1 - j,
        {
            if self.fragments_match_at(query, j) {
                return Some(j);
            }
            j = j + 1;
        }
        None
    }

    /// The largest grapheme index `j` with `j + query len <=
    /// from_grapheme_index` where the query's grapheme sequence occurs, or
    /// `None` when it occurs nowhere ending at or before it.
    pub fn search_backward(&self, from_grapheme_index: usize, query: &Line) -> (r: Option<usize>)
        ensures
            match r {
                Some(j) => j + query.fragments@.len() <= from_grapheme_index && match_at(
                    self.fragments@,
                    query.fragments@,
                    j as int,
                ) && forall|j2: int|
                    j < j2 && j2 + query.fragments@.len() <= from_grapheme_index ==> !match_at(
                        self.fragments@,
                        query.fragments@,
                        j2,
                    ),
                None => forall|j2: int|
                    j2 + query.fragments@.len() <= from_grapheme_index ==> !match_at(
                        self.fragments@,
                        query.fragments@,
                        j2,
                    ),
            },
    {
        let len = self.fragments.len();
        let qlen = query.fragments.len();
        if qlen > len || qlen > from_grapheme_index {
            return None;
        }
        let last_start = len - qlen;
        let limit = from_grapheme_index - qlen;
        let mut j = if limit < last_start {
            limit
        } else {
            last_start
        };
        loop
            invariant_except_break
                qlen == query.fragments@.len(),
                len == self.fragments@.len(),
                qlen <= len,
                qlen <= from_grapheme_index,
                last_start == len - qlen,
                limit == from_grapheme_index - qlen,
                j <= limit,
                j <= last_start,
                forall|j2: int|
                    j < j2 && j2 + qlen <= from_grapheme_index ==> !match_at(
                        self.fragments@,
                        query.fragments@,
                        j2,
                    ),
            ensures
                forall|j2: int|
                    j2 + query.fragments@.len() <= from_grapheme_index ==> !match_at(
                        self.fragments@,
                        query.fragments@,
                        j2,
                    ),
            decreases j,
        {
            if self.fragments_match_at(query, j) {
                return Some(j);
            }
            if j == 0 {
                break ;
            }
            j = j - 1;
        }
        None
    }
}

/// Fragment texts distribute over concatenation, and so does the flattened
/// text.
pub proof fn lemma_frag_texts_concat(a: Seq<Fragment>, b: Seq<Fragment>)
    ensures
        frag_texts(a + b) == frag_texts(a) + frag_texts(b),
        frag_texts(a + b).flatten() == frag_texts(a).flatten() + frag_texts(b).flatten(),
{
    assert(frag_texts(a + b) =~= frag_texts(a) + frag_texts(b));
    lemma_flatten_concat(frag_texts(a), frag_texts(b));
}

/// One more fragment adds its width to the running sum.
proof fn lemma_seq_width_take_push(frags: Seq<Fragment>, i: int)
    requires
        0 <= i < frags.len(),
    ensures
        seq_width(frags.take(i + 1)) == seq_width(frags.take(i)) + frag_width(frags[i]),
{
    assert(frags.take(i + 1).drop_last() =~= frags.take(i));
    assert(frags.take(i + 1).last() == frags[i]);
}

/// One more fragment extends the concatenated text of a subrange by its
/// grapheme.
proof fn lemma_frag_texts_subrange_push(frags: Seq<Fragment>, a: int, j: int)
    requires
        0 <= a <= j < frags.len(),
    ensures
        frag_texts(frags.subrange(a, j + 1)).flatten() == frag_texts(
            frags.subrange(a, j),
        ).flatten() + frags[j].grapheme@,
{
    assert(frag_texts(frags.subrange(a, j + 1)) =~= frag_texts(frags.subrange(a, j)).push(
        frags[j].grapheme@,
    ));
    frag_texts(frags.subrange(a, j)).lemma_flatten_push(frags[j].grapheme@);
}

/// Two fragment sequences that both fragment the same text agree on every
/// fragment's grapheme text and display metadata: segmentation determines
/// the fragments.
pub proof fn lemma_fragmentation_deterministic(a: Seq<Fragment>, b: Seq<Fragment>, s: Seq<char>)
    requires
        is_fragmentation_of(a, s),
        is_fragmentation_of(b, s),
    ensures
        a.len() == b.len(),
        forall|i: int|
            0 <= i < a.len() ==> (#[trigger] a[i]).grapheme@ == b[i].grapheme@ && a[i].render_width
                == b[i].render_width && a[i].replacement == b[i].replacement,
{
    assert(frag_texts(a) == frag_texts(b));
    assert forall|i: int| 0 <= i < a.len() implies (#[trigger] a[i]).grapheme@ == b[i].grapheme@
        && a[i].render_width == b[i].render_width && a[i].replacement == b[i].replacement by {
        assert(frag_texts(a)[i] == a[i].grapheme@);
        assert(frag_texts(b)[i] == b[i].grapheme@);
        assert(frag_fits(a[i]) && frag_fits(b[i]));
    }
}

/// Splitting a canonical line at a grapheme index within the line, then
/// appending the tail back onto the prefix, reconstructs the original
/// fragment sequence: the merged line built by `split` followed by `append`
/// has the same grapheme texts and the same display metadata as the line it
/// came from. The hypotheses are exactly what `split` and `append` ensure.
pub proof fn lemma_split_append_reconstructs(
    l: Line,
    prefix: Line,
    tail: Line,
    merged: Line,
    at: int,
)
    requires
        l.is_canonical(),
        0 <= at <= l.fragments@.len(),
        prefix.fragments@ == l.fragments@.take(at),
        tail.fragments@ == l.fragments@.skip(at),
        is_fragmentation_of(merged.fragments@, prefix@ + tail@),
    ensures
        merged.fragments@.len() == l.fragments@.len(),
        forall|i: int|
            0 <= i < l.fragments@.len() ==> (#[trigger] merged.fragments@[i]).grapheme@
                == l.fragments@[i].grapheme@ && merged.fragments@[i].render_width
                == l.fragments@[i].render_width && merged.fragments@[i].replacement
                == l.fragments@[i].replacement,
{
    assert(l.fragments@ =~= l.fragments@.take(at) + l.fragments@.skip(at));
    lemma_frag_texts_concat(l.fragments@.take(at), l.fragments@.skip(at));
    assert(prefix@ + tail@ == l@);
    lemma_fragmentation_deterministic(merged.fragments@, l.fragments@, l@);
}

/// Inserting a character at an index at or past the line's grapheme count
/// rebuilds the line's text with the character appended at the end, so the
/// insertion is an append.
pub proof fn lemma_insert_at_end_appends(l: Line, c: char, i: int)
    requires
        i >= l.fragments@.len(),
    ensures
        text_with_insert(l.fragments@, c, i) == l@ + seq![c],
{
    let len = l.fragments@.len() as int;
    assert(clip_index(i, len) == len);
    assert(l.fragments@.take(len) =~= l.fragments@);
    assert(l.fragments@.skip(len).len() == 0);
    assert(frag_texts(l.fragments@.skip(len)).flatten() =~= Seq::<char>::empty());
    assert(text_with_insert(l.fragments@, c, i) =~= l@ + seq![c]);
}

/// Grapheme clusters are non-empty, so a text has no more clusters than
/// characters; in particular empty text has no clusters.
pub proof fn lemma_nonempty_parts_bound(parts: Seq<Seq<char>>, s: Seq<char>)
    requires
        parts.flatten() == s,
        forall|i: int| 0 <= i < parts.len() ==> (#[trigger] parts[i]).len() > 0,
    ensures
        parts.len() <= s.len(),
    decreases parts.len(),
{
    if parts.len() > 0 {
        assert(parts =~= seq![parts.first()] + parts.drop_first());
        lemma_flatten_concat(seq![parts.first()], parts.drop_first());
        seq![parts.first()].lemma_flatten_one_element();
        lemma_nonempty_parts_bound(parts.drop_first(), parts.drop_first().flatten());
    }
}

/// Appending one more fragment extends the concatenated text by its grapheme.
proof fn lemma_frag_texts_take_push(frags: Seq<Fragment>, i: int)
    requires
        0 <= i < frags.len(),
    ensures
        frag_texts(frags.take(i + 1)).flatten() == frag_texts(frags.take(i)).flatten()
            + frags[i].grapheme@,
{
    assert(frag_texts(frags.take(i + 1)) =~= frag_texts(frags.take(i)).push(frags[i].grapheme@));
    frag_texts(frags.take(i)).lemma_flatten_push(frags[i].grapheme@);
}

} // verus!
