//! The cursor position protocol: the editor asks the terminal where its
//! cursor is, and reads the answer from the input.

use crate::escape::{move_to, push_move_to, REQ_CURSOR_POS, SHOW_CURSOR};
use crate::event::{utf8_text, ReportScan};
use crate::grammar::{
    cursor_report, lemma_position_in_prefix, lemma_position_is_first, lemma_position_push,
    position_of, SEPARATOR, TERMINATOR,
};
use vstd::prelude::*;
use vstd::slice::slice_subrange;
use vstd::string::*;
use vstd::utf8::*;

verus! {

/// The length of the shortest reply, `ESC [ 1 ; 1 R`.
pub const MIN_REPLY_LEN: usize = 6;

/// What a buffer of input holds of the terminal's reply.
#[derive(Debug, Clone, Copy, PartialEq, Eq)]
pub enum Reply {
    /// The row and the column of the cursor.
    Position(u16, u16),
    /// Too few bytes for a reply: they stay in the stream for the next
    /// read.
    Incomplete,
    /// No reply: the bytes are discarded and the cursor model keeps its
    /// value.
    Malformed,
}

/// The request that makes the terminal report the position of its cursor.
pub fn request() -> (text: String)
    ensures
        text@ == REQ_CURSOR_POS@,
{
    String::from_str(REQ_CURSOR_POS)
}

/// The part of a buffer that holds the reply's numbers: everything before
/// the terminator `R`, or the whole buffer where it holds none.
pub open spec fn reply_text(bytes: Seq<u8>) -> Seq<u8> {
    bytes.take(position_of(bytes, TERMINATOR))
}

/// The reply `ESC [ <row> ; <col> R` as a buffer holds it.
pub open spec fn reply(bytes: Seq<u8>) -> Reply {
    if bytes.len() < MIN_REPLY_LEN {
        Reply::Incomplete
    } else {
        match cursor_report(reply_text(bytes)) {
            Some((row, col)) => Reply::Position(row, col),
            None => Reply::Malformed,
        }
    }
}

/// The number of bytes of a buffer that reading the reply uses up: none of
/// an incomplete one, else all.
pub open spec fn reply_consumes(bytes: Seq<u8>) -> nat {
    if reply(bytes) is Incomplete {
        0
    } else {
        bytes.len()
    }
}

/// Reads the terminal's reply to a cursor position request from a buffer
/// of input.
pub fn parse_reply(bytes: &[u8]) -> (outcome: Reply)
    ensures
        outcome == reply(bytes@),
{
    if bytes.len() < MIN_REPLY_LEN {
        return Reply::Incomplete;
    }
    let mut scan = ReportScan::new();
    let mut i: usize = 0;
    proof {
        assert(bytes@.take(0) == Seq::<u8>::empty());
    }
    while i < bytes.len() && bytes[i] != TERMINATOR
        invariant
            i <= bytes@.len(),
            position_of(bytes@.take(i as int), TERMINATOR) == i,
            scan.holds(bytes@.take(i as int)),
        decreases bytes@.len() - i,
    {
        scan.feed(bytes[i], Ghost(bytes@.take(i as int)));
        proof {
            assert(bytes@.take(i + 1) == bytes@.take(i as int).push(bytes@[i as int]));
            lemma_position_push(bytes@.take(i as int), TERMINATOR, bytes@[i as int]);
        }
        i += 1;
    }
    proof {
        if i < bytes@.len() {
            assert(bytes@.take(i + 1) == bytes@.take(i as int).push(bytes@[i as int]));
            lemma_position_push(bytes@.take(i as int), TERMINATOR, bytes@[i as int]);
            lemma_position_in_prefix(bytes@, TERMINATOR, i + 1);
        } else {
            assert(bytes@.take(i as int) == bytes@);
        }
    }
    match scan.finish(Ghost(bytes@.take(i as int))) {
        Some((row, col)) => Reply::Position(row, col),
        None => Reply::Malformed,
    }
}

/// A buffer without a separator holds no position.
pub proof fn law_reply_needs_separator(bytes: Seq<u8>)
    requires
        !bytes.contains(SEPARATOR),
    ensures
        !(reply(bytes) is Position),
{
    let text = reply_text(bytes);
    lemma_position_is_first(bytes, TERMINATOR);
    lemma_position_is_first(text, SEPARATOR);
}

/// The number of bytes that an escape sequence has at least: invalid
/// input is cut to its valid start only where that is longer.
pub const ESC_SEQ_LEN: usize = 5;

/// The length of the longest start of `bytes`, of at most `limit` bytes,
/// that is valid UTF-8.
pub open spec fn valid_start(bytes: Seq<u8>, limit: int) -> int
    decreases limit,
{
    if limit <= 0 {
        0
    } else if valid_utf8(bytes.take(limit)) {
        limit
    } else {
        valid_start(bytes, limit - 1)
    }
}

/// The text of a part of a buffer: all of it where it is valid UTF-8, else
/// its longest valid start where that is longer than an escape sequence
/// has to be, else nothing.
pub open spec fn escape_seq_text(part: Seq<u8>) -> Option<Seq<char>> {
    let len = valid_start(part, part.len() as int);
    if len == part.len() || len > ESC_SEQ_LEN {
        Some(decode_utf8(part.take(len)))
    } else {
        None
    }
}

/// Reads the bytes of `buf` from `start` up to, not including, `end` as
/// text. Only bytes that have been found valid become text.
pub fn from_utf8_escape_seq(buf: &[u8], start: usize, end: usize) -> (text: Option<&str>)
    requires
        start <= end <= buf@.len(),
    ensures
        match text {
            Some(t) => escape_seq_text(buf@.subrange(start as int, end as int)) == Some(t@),
            None => escape_seq_text(buf@.subrange(start as int, end as int)) is None,
        },
{
    let part = slice_subrange(buf, start, end);
    let mut len = part.len();
    loop
        invariant
            len <= part@.len(),
            part@ == buf@.subrange(start as int, end as int),
            valid_start(part@, part@.len() as int) == valid_start(part@, len as int),
        decreases len,
    {
        let head = slice_subrange(part, 0, len);
        match utf8_text(head) {
            Some(text) => {
                proof {
                    encode_utf8_decode_utf8(text@);
                }
                if len == part.len() || len > ESC_SEQ_LEN {
                    return Some(text);
                } else {
                    return None;
                }
            },
            None => {
                len = len - 1;
            },
        }
    }
}

/// The place where the editor takes the terminal's cursor to be.
#[derive(Debug, Clone, Copy, PartialEq, Eq)]
pub struct Point {
    pub row: u16,
    pub col: u16,
}

impl Point {
    /// The text that takes the terminal's cursor back to this place and
    /// shows it.
    pub open spec fn home_text(self) -> Seq<char> {
        move_to(self.row, self.col) + SHOW_CURSOR@
    }

    /// The text that ends every redraw: it puts the cursor where the model
    /// has it and makes it visible again.
    pub fn go_home(&self) -> (text: String)
        ensures
            text@ == self.home_text(),
    {
        let mut text = String::new();
        push_move_to(&mut text, self.row, self.col);
        text.append(SHOW_CURSOR);
        text
    }

    /// The place after the terminal's reply in `bytes` has been read: the
    /// position that the reply holds, or the old place where it holds none.
    pub open spec fn after_reply(self, bytes: Seq<u8>) -> Point {
        match reply(bytes) {
            Reply::Position(row, col) => Point { row, col },
            _ => self,
        }
    }

    /// Reads the terminal's reply from a buffer of input and returns the
    /// number of bytes to take off the stream. Only a reply that holds a
    /// position changes the place.
    pub fn update_point(&mut self, bytes: &[u8]) -> (consumed: usize)
        ensures
            *final(self) == old(self).after_reply(bytes@),
            consumed == reply_consumes(bytes@),
    {
        match parse_reply(bytes) {
            Reply::Position(row, col) => {
                self.row = row;
                self.col = col;
                bytes.len()
            },
            Reply::Incomplete => 0,
            Reply::Malformed => bytes.len(),
        }
    }
}

} // verus!
