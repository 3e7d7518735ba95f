//! What this crate takes on trust about `ropey`.
//!
//! The rope itself is opaque to the verifier. Its contents are named by
//! [`rope_text`], and each method the crate calls is given a contract over
//! that name and the line model of [`crate::lines`]. Nothing here is
//! proved: the contracts restate what the methods' documentation says.
//! They hold for a rope that breaks lines at `'\n'` only, which is how the
//! crate builds `ropey` (its `cr_lines` and `unicode_lines` features off).

use crate::lines::{line_count, line_start, line_text};
use ropey::Rope;
use ropey::RopeSlice;
use vstd::prelude::*;

verus! {

/// `ropey::Rope`, known to the verifier by name only.
#[verifier::external_type_specification]
#[verifier::external_body]
pub struct ExRope(Rope);

/// `ropey::RopeSlice`, known to the verifier by name only.
#[verifier::external_type_specification]
#[verifier::external_body]
pub struct ExRopeSlice<'a>(RopeSlice<'a>);

/// The characters a rope holds, in order.
pub uninterp spec fn rope_text(rope: Rope) -> Seq<char>;

/// The characters a slice of a rope covers, in order.
pub uninterp spec fn slice_text(slice: RopeSlice) -> Seq<char>;

/// `Rope::new`: the empty rope.
pub assume_specification[ Rope::new ]() -> (rope: Rope)
    ensures
        rope_text(rope) == Seq::<char>::empty(),
;

/// `Rope::from_str`: a rope holding the characters of `text`. A rope
/// counts its characters in a `usize`, so they fit one.
pub assume_specification[ Rope::from_str ](text: &str) -> (rope: Rope)
    ensures
        rope_text(rope) == text@,
        rope_text(rope).len() <= usize::MAX,
;

/// `Rope::len_chars`: the number of characters held.
pub assume_specification[ Rope::len_chars ](rope: &Rope) -> (n: usize)
    ensures
        n == rope_text(*rope).len(),
;

/// `Rope::len_lines`: the number of lines, one more than the line breaks.
pub assume_specification[ Rope::len_lines ](rope: &Rope) -> (n: usize)
    ensures
        n == line_count(rope_text(*rope)),
;

/// `Rope::line_to_char`: the character index at which a line begins; for
/// the index one past the last line, the number of characters. It panics
/// on a larger index.
pub assume_specification[ Rope::line_to_char ](rope: &Rope, line_idx: usize) -> (idx: usize)
    requires
        line_idx <= line_count(rope_text(*rope)),
    ensures
        idx == line_start(rope_text(*rope), line_idx as nat),
;

/// `Rope::line`: the slice covering one line, its line break included. It
/// panics unless the line exists.
pub assume_specification<'a>[ Rope::line ](rope: &'a Rope, line_idx: usize) -> (line: RopeSlice<'a>)
    requires
        line_idx < line_count(rope_text(*rope)),
    ensures
        slice_text(line) == line_text(rope_text(*rope), line_idx as nat),
;

/// `Rope::insert_char`: puts `ch` at character index `char_idx`, moving
/// what stood there one place on. It panics on an index past the end.
/// The rope still counts its characters in a `usize`.
pub assume_specification[ Rope::insert_char ](rope: &mut Rope, char_idx: usize, ch: char)
    requires
        char_idx <= rope_text(*old(rope)).len(),
    ensures
        rope_text(*final(rope)) == rope_text(*old(rope)).insert(char_idx as int, ch),
        rope_text(*final(rope)).len() <= usize::MAX,
;

/// `Rope::insert`: puts the characters of `text` at character index
/// `char_idx`, moving what stood there on. It panics on an index past
/// the end. The rope still counts its characters in a `usize`.
pub assume_specification[ Rope::insert ](rope: &mut Rope, char_idx: usize, text: &str)
    requires
        char_idx <= rope_text(*old(rope)).len(),
    ensures
        rope_text(*final(rope)) == rope_text(*old(rope)).take(char_idx as int) + text@
            + rope_text(*old(rope)).skip(char_idx as int),
        rope_text(*final(rope)).len() <= usize::MAX,
;

/// `Rope::remove`, on the range `start..end`: takes out the characters
/// from index `start` up to, not including, `end`. It panics when the
/// range is reversed or ends past the end.
#[verifier::external_body]
pub(crate) fn rope_remove(rope: &mut Rope, start: usize, end: usize)
    requires
        start <= end <= rope_text(*old(rope)).len(),
    ensures
        rope_text(*final(rope)) == rope_text(*old(rope)).take(start as int) + rope_text(
            *old(rope),
        ).skip(end as int),
{
    rope.remove(start..end)
}

/// `String::from(&Rope)`: the rope's characters as one string.
#[verifier::external_body]
pub(crate) fn rope_to_string(rope: &Rope) -> (text: String)
    ensures
        text@ == rope_text(*rope),
{
    String::from(rope)
}

/// `RopeSlice::len_chars`: the number of characters the slice covers.
pub assume_specification<'a>[ RopeSlice::<'a>::len_chars ](slice: &RopeSlice<'a>) -> (n: usize)
    ensures
        n == slice_text(*slice).len(),
;

/// `RopeSlice::char`: the character at an index of the slice. It panics
/// on an index at or past the slice's end.
pub assume_specification<'a>[ RopeSlice::<'a>::char ](slice: &RopeSlice<'a>, char_idx: usize) -> (ch:
    char)
    requires
        char_idx < slice_text(*slice).len(),
    ensures
        ch == slice_text(*slice)[char_idx as int],
;

/// `String::from(RopeSlice)`: the slice's characters as one string.
#[verifier::external_body]
pub(crate) fn slice_to_string(slice: RopeSlice) -> (text: String)
    ensures
        text@ == slice_text(slice),
{
    String::from(slice)
}

} // verus!
