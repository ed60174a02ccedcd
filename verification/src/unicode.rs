//! The library's boundary with Unicode text processing.
//!
//! Grapheme-cluster segmentation, display width and whitespace trimming are
//! computed by outside code; each call is made through a trusted item here,
//! and everything built on top of them is verified against the names and
//! contracts below. The control-character test is plain verified code.

use unicode_segmentation::UnicodeSegmentation;
use unicode_width::UnicodeWidthStr;
use vstd::prelude::*;

verus! {

/// The extended grapheme clusters of a character sequence, in order: the
/// result of unicode_segmentation's `graphemes(true)`, a function of the
/// characters alone.
pub uninterp spec fn graphemes_of(s: Seq<char>) -> Seq<Seq<char>>;

/// The displayed column width of a character sequence in a non-CJK context:
/// the result of unicode_width's `width`, a function of the characters alone.
pub uninterp spec fn display_width_of(s: Seq<char>) -> nat;

/// A character sequence with leading and trailing whitespace removed: the
/// result of `str::trim`, a function of the characters alone.
pub uninterp spec fn trim_of(s: Seq<char>) -> Seq<char>;

/// Unicode's `Cc` (control) general category: the C0 block, DEL, and the C1
/// block. Membership in `Cc` is fixed by Unicode's stability policy.
pub open spec fn is_control_char(c: char) -> bool {
    (c as u32) < 0x20 || (0x7f <= c as u32 && c as u32 <= 0x9f)
}

/// Relies on unicode_segmentation's `UnicodeSegmentation::graphemes` with
/// `is_extended = true`: it partitions the string into non-empty grapheme
/// clusters whose concatenation is the string itself. Each cluster spans at
/// least one byte of `s`, and a `str` holds at most `isize::MAX` bytes, which
/// bounds the number of clusters.
#[verifier::external_body]
pub(crate) fn split_graphemes(s: &str) -> (r: Vec<String>)
    ensures
        r@.map_values(|g: String| g@) == graphemes_of(s@),
        r@.map_values(|g: String| g@).flatten() == s@,
        forall|i: int| 0 <= i < r@.len() ==> (#[trigger] r@[i])@.len() > 0,
        r@.len() * 2 <= usize::MAX,
{
    s.graphemes(true).map(str::to_owned).collect()
}

/// Relies on unicode_width's `UnicodeWidthStr::width`: the displayed width of
/// the string in columns, treating ambiguous characters as narrow.
#[verifier::external_body]
pub(crate) fn render_width_of(g: &str) -> (w: usize)
    ensures
        w as nat == display_width_of(g@),
{
    g.width()
}

/// Relies on `str::trim`: returns the slice with leading and trailing
/// whitespace removed.
#[verifier::external_body]
pub(crate) fn str_trim<'a>(s: &'a str) -> (r: &'a str)
    ensures
        r@ == trim_of(s@),
{
    s.trim()
}

/// Relies on `str`'s `PartialEq`: two string slices are equal exactly when
/// their character sequences are equal.
#[verifier::external_body]
pub(crate) fn str_eq(a: &str, b: &str) -> (r: bool)
    ensures
        r == (a@ == b@),
{
    a == b
}

/// Whether the character is in the `Cc` general category.
pub(crate) fn char_is_control(c: char) -> (r: bool)
    ensures
        r == is_control_char(c),
{
    let u = c as u32;
    u < 0x20 || (0x7f <= u && u <= 0x9f)
}

/// Relies on `String::push`: appends the character at the end of the string.
#[verifier::external_body]
pub(crate) fn push_char(s: &mut String, c: char)
    ensures
        final(s)@ == old(s)@.push(c),
{
    s.push(c)
}

} // verus!
