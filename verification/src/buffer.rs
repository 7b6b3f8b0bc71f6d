//! The rope that holds text, as the rest of the library sees it: a
//! sequence of characters that grows and shrinks by insertion and removal
//! at character offsets.

use ropey::Rope;
use vstd::prelude::*;

verus! {

/// The rope of the `ropey` crate. Nothing is known of what is inside it
/// but through the functions below.
#[verifier::external_type_specification]
#[verifier::external_body]
pub struct ExRope(Rope);

/// The characters that a rope holds, in order.
pub uninterp spec fn rope_text(rope: Rope) -> Seq<char>;

/// The number of lines that the rope crate counts in a text: one more than
/// the number of line breaks that it recognises.
pub uninterp spec fn line_count(text: Seq<char>) -> nat;

/// `Rope::new`: a rope that holds no character.
#[verifier::external_body]
pub(crate) fn rope_new() -> (rope: Rope)
    ensures
        rope_text(rope) == Seq::<char>::empty(),
{
    Rope::new()
}

/// `Rope::len_chars`: the number of characters in the rope.
#[verifier::external_body]
pub(crate) fn rope_len_chars(rope: &Rope) -> (len: usize)
    ensures
        len == rope_text(*rope).len(),
{
    rope.len_chars()
}

/// `Rope::len_lines`: the number of lines in the rope.
#[verifier::external_body]
pub(crate) fn rope_len_lines(rope: &Rope) -> (lines: usize)
    ensures
        lines == line_count(rope_text(*rope)),
{
    rope.len_lines()
}

/// `Rope::char`: the character at a character offset. The crate panics on
/// an offset that is not below the length.
#[verifier::external_body]
pub(crate) fn rope_char(rope: &Rope, char_idx: usize) -> (ch: char)
    requires
        char_idx < rope_text(*rope).len(),
    ensures
        ch == rope_text(*rope)[char_idx as int],
{
    rope.char(char_idx)
}

/// `Rope::insert`: puts `text` in front of the character at `char_idx`, or
/// at the end where `char_idx` is the length. The crate panics on an offset
/// beyond the length.
#[verifier::external_body]
pub(crate) fn rope_insert(rope: &mut Rope, char_idx: usize, text: &str)
    requires
        char_idx <= rope_text(*old(rope)).len(),
    ensures
        rope_text(*final(rope)) == rope_text(*old(rope)).take(char_idx as int) + text@ + rope_text(
            *old(rope),
        ).skip(char_idx as int),
{
    rope.insert(char_idx, text)
}

/// `Rope::remove` on the range `start..end`: takes out the characters from
/// `start` up to, not including, `end`. The crate panics where the start
/// lies behind the end or the end beyond the length.
#[verifier::external_body]
pub(crate) fn rope_remove(rope: &mut Rope, start: usize, end: usize)
    requires
        start <= end <= rope_text(*old(rope)).len(),
    ensures
        rope_text(*final(rope)) == rope_text(*old(rope)).take(start as int) + rope_text(
            *old(rope),
        ).skip(end as int),
{
    rope.remove(start..end)
}

} // verus!
