//! Decoding of the raw input stream into keys.
//!
//! A key is decoded from its first byte and the stream behind it. The
//! decoder pulls exactly the items that belong to the key; whatever follows
//! stays in the stream for the next key.

use crate::grammar::{
    after, control_seq, cursor_pos, cursor_report, digits_value, is_digit, key, lemma_digits_push,
    lemma_position_push, next_key, position_of, report_span, scalar, scalar_tail, ESC,
    SEPARATOR, TERMINATOR,
};
use crate::source::{front, front_len, outcome_items, ByteSource, ReadItem, ReadOutcome};
use crate::text::{decimal, push_char, push_decimal};
use vstd::prelude::*;
use vstd::string::*;
use vstd::utf8::*;

verus! {

/// One decoded unit of input.
#[derive(Debug, Copy, Clone, PartialEq)]
pub enum Key {
    CursorPos((u16, u16)),
    Letter(char),
    CtrlKey(char),
    AltKey(char),
    Enter(char),
    Tab(char),
    TabBack,
    F(u8),
    Backspace,
    Delete,
    Escape,
    Left,
    Right,
    Up,
    Down,
    Home,
    End,
    PageUp,
    PageDown,
    Insert,
    Esc,
}

/// Why a key could not be decoded. The stream is past the items that the
/// failed attempt pulled, so the next call starts on fresh input.
#[derive(Debug, Copy, Clone, PartialEq, Eq)]
pub enum DecodeError {
    /// An escape sequence broke off or continued with a byte that no key
    /// starts with.
    KeyEvent,
    /// A control sequence did not follow the doubled-escape pattern.
    EscapeSequence,
    /// No scalar value was recognised within four bytes.
    InvalidUtf8,
    /// A cursor position report had no separator, held no position, held
    /// a number that does not fit sixteen bits, or was cut short by a read
    /// that failed.
    CursorPos,
    /// The raw read that should have delivered the key failed.
    ReadBuffer,
}

/// A number of at most sixteen bits as the scan holds it: itself, or one
/// more than the largest once it has outgrown them.
pub open spec fn capped(value: nat) -> u32 {
    if value > 0xFFFF {
        0x1_0000
    } else {
        value as u32
    }
}

/// The running state of a scan over the text of a cursor position report:
/// whether the separator has been seen, and the two numbers read so far.
pub(crate) struct ReportScan {
    separated: bool,
    row: u32,
    col: u32,
}

impl ReportScan {
    /// The state is the one reached after scanning `text`.
    pub closed spec fn holds(&self, text: Seq<u8>) -> bool {
        let at = position_of(text, SEPARATOR);
        &&& self.separated == (at < text.len())
        &&& self.row == capped(digits_value(text.take(at)))
        &&& self.col == if at < text.len() {
            capped(digits_value(text.skip(at + 1)))
        } else {
            0
        }
    }

    /// The state before any text.
    pub(crate) fn new() -> (scan: Self)
        ensures
            scan.holds(Seq::empty()),
    {
        ReportScan { separated: false, row: 0, col: 0 }
    }

    fn grow(acc: u32, byte: u8) -> (grown: u32)
        requires
            is_digit(byte),
            acc <= 0x1_0000,
        ensures
            forall|value: nat|
                acc == capped(value) ==> grown == #[trigger] capped(
                    value * 10 + (byte - 0x30) as nat,
                ),
    {
        if acc > 0xFFFF {
            0x1_0000
        } else {
            let digit: u32 = (byte - 0x30) as u32;
            let value: u32 = acc * 10 + digit;
            if value > 0xFFFF {
                0x1_0000
            } else {
                value
            }
        }
    }

    /// Scans one more byte of the text.
    pub(crate) fn feed(&mut self, byte: u8, Ghost(text): Ghost<Seq<u8>>)
        requires
            old(self).holds(text),
        ensures
            final(self).holds(text.push(byte)),
    {
        let ghost at = position_of(text, SEPARATOR);
        let ghost grown = text.push(byte);
        proof {
            lemma_position_push(text, SEPARATOR, byte);
        }
        if self.separated {
            proof {
                assert(grown.take(at) == text.take(at));
                assert(grown.skip(at + 1) == text.skip(at + 1).push(byte));
                lemma_digits_push(text.skip(at + 1), byte);
            }
            if byte >= 0x30 && byte <= 0x39 {
                self.col = Self::grow(self.col, byte);
            }
        } else if byte == SEPARATOR {
            proof {
                assert(grown.take(at) == text);
                assert(text.take(at) == text);
            }
            self.separated = true;
        } else {
            proof {
                assert(grown.take(at + 1) == grown);
                assert(text.take(at) == text);
                lemma_digits_push(text, byte);
            }
            if byte >= 0x30 && byte <= 0x39 {
                self.row = Self::grow(self.row, byte);
            }
        }
    }

    /// The position that the scanned text holds.
    pub(crate) fn finish(&self, Ghost(text): Ghost<Seq<u8>>) -> (pos: Option<(u16, u16)>)
        requires
            self.holds(text),
        ensures
            pos == cursor_report(text),
    {
        if !self.separated {
            None
        } else if self.row > 0xFFFF || self.col > 0xFFFF {
            None
        } else if self.row == 0 && self.col == 0 {
            None
        } else {
            Some((self.row as u16, self.col as u16))
        }
    }
}

/// `core::str::from_utf8`: the text that the bytes hold, where they are
/// valid UTF-8, and nothing where they are not. The text has exactly the
/// given bytes.
#[verifier::external_body]
pub(crate) fn utf8_text(bytes: &[u8]) -> (text: Option<&str>)
    ensures
        text is Some <==> valid_utf8(bytes@),
        text matches Some(t) ==> t.spec_bytes() == bytes@,
{
    core::str::from_utf8(bytes).ok()
}

/// The decoder of single keys.
pub struct KeyEvent {}

impl KeyEvent {
    /// Decodes the key that starts with `item`, pulling from `iter` the
    /// items that belong to it.
    pub fn parse_key(item: u8, iter: &mut ByteSource) -> (res: Result<Key, DecodeError>)
        ensures
            res == key(item, old(iter).remaining()).value,
            key(item, old(iter).remaining()).used <= old(iter).remaining().len(),
            final(iter).ran_dry() == (old(iter).ran_dry() || key(
                item,
                old(iter).remaining(),
            ).dry),
            final(iter).remaining() == old(iter).remaining().skip(
                key(item, old(iter).remaining()).used as int,
            ),
    {
        let ghost start = iter.remaining();
        if item == ESC {
            match iter.next() {
                None => Ok(Key::Escape),
                Some(Err(_)) => Err(DecodeError::KeyEvent),
                Some(Ok(first)) => {
                    if first == 0x5B {
                        match iter.next() {
                            Some(Ok(second)) => {
                                proof {
                                    assert(start.skip(1).skip(1) == start.skip(2));
                                }
                                if second >= 0x30 && second <= 0x39 {
                                    Self::parse_cursor_pos(second, iter)
                                } else {
                                    Self::parse_control_seq(iter)
                                }
                            },
                            _ => Err(DecodeError::KeyEvent),
                        }
                    } else if first == 0x30 {
                        match iter.next() {
                            Some(Ok(second)) if second >= 0x50 && second <= 0x53 => Ok(
                                Key::F(1 + second - 0x50),
                            ),
                            _ => Err(DecodeError::KeyEvent),
                        }
                    } else {
                        match Self::parse_char(first, iter) {
                            Ok(ch) => Ok(Key::AltKey(ch)),
                            Err(e) => Err(e),
                        }
                    }
                },
            }
        } else if item == 0x08 {
            Ok(Key::Backspace)
        } else if item == 0x09 {
            Ok(Key::Tab('\t'))
        } else if item == 0x0A {
            Ok(Key::Enter('\n'))
        } else if item == 0x7F {
            Ok(Key::Delete)
        } else if item >= 0x01 && item <= 0x1A {
            Ok(Key::CtrlKey((item - 0x01 + 0x61) as char))
        } else {
            match Self::parse_char(item, iter) {
                Ok(ch) => Ok(Key::Letter(ch)),
                Err(e) => Err(e),
            }
        }
    }

    /// Decodes a control sequence from the stream behind `ESC [ <byte>`.
    pub fn parse_control_seq(iter: &mut ByteSource) -> (res: Result<Key, DecodeError>)
        ensures
            res == control_seq(old(iter).remaining()).value,
            control_seq(old(iter).remaining()).used <= old(iter).remaining().len(),
            final(iter).ran_dry() == (old(iter).ran_dry() || control_seq(
                old(iter).remaining(),
            ).dry),
            final(iter).remaining() == old(iter).remaining().skip(
                control_seq(old(iter).remaining()).used as int,
            ),
    {
        match iter.next() {
            Some(Ok(first)) => {
                if first != ESC {
                    return Err(DecodeError::EscapeSequence);
                }
                match iter.next() {
                    Some(Ok(second)) => {
                        if second == 0x5B {
                            match iter.next() {
                                Some(Ok(third)) => {
                                    if third >= 0x41 && third <= 0x45 {
                                        Ok(Key::F(1 + third - 0x41))
                                    } else {
                                        Err(DecodeError::EscapeSequence)
                                    }
                                },
                                _ => Err(DecodeError::EscapeSequence),
                            }
                        } else if second == 0x44 {
                            Ok(Key::Left)
                        } else if second == 0x43 {
                            Ok(Key::Right)
                        } else if second == 0x41 {
                            Ok(Key::Up)
                        } else if second == 0x42 {
                            Ok(Key::Down)
                        } else if second == 0x48 {
                            Ok(Key::Home)
                        } else if second == 0x46 {
                            Ok(Key::End)
                        } else if second == 0x5A {
                            Ok(Key::TabBack)
                        } else {
                            Err(DecodeError::EscapeSequence)
                        }
                    },
                    _ => Err(DecodeError::EscapeSequence),
                }
            },
            _ => Err(DecodeError::EscapeSequence),
        }
    }

    /// Decodes the scalar value that starts with `item`.
    pub fn parse_char(item: u8, iter: &mut ByteSource) -> (res: Result<char, DecodeError>)
        ensures
            res == scalar(item, old(iter).remaining()).value,
            scalar(item, old(iter).remaining()).used <= old(iter).remaining().len(),
            final(iter).ran_dry() == (old(iter).ran_dry() || scalar(
                item,
                old(iter).remaining(),
            ).dry),
            final(iter).remaining() == old(iter).remaining().skip(
                scalar(item, old(iter).remaining()).used as int,
            ),
    {
        let ghost start = iter.remaining();
        if item < 0x80 {
            return Ok(item as char);
        }
        let mut bytes: Vec<u8> = Vec::new();
        bytes.push(item);
        loop
            invariant
                item >= 0x80,
                start == old(iter).remaining(),
                iter.ran_dry() == old(iter).ran_dry(),
                1 <= bytes@.len() < 4,
                bytes@.len() - 1 <= start.len(),
                iter.remaining() == start.skip(bytes@.len() - 1),
                scalar_tail(seq![item], start) == after(
                    (bytes@.len() - 1) as nat,
                    scalar_tail(bytes@, iter.remaining()),
                ),
            decreases 4 - bytes@.len(),
        {
            match iter.next() {
                Some(Ok(byte)) => {
                    bytes.push(byte);
                    match utf8_text(bytes.as_slice()) {
                        Some(text) => {
                            proof {
                                broadcast use encode_utf8_decode_utf8;
                            }
                            return Ok(text.get_char(0));
                        },
                        None => {},
                    }
                    if bytes.len() >= 4 {
                        return Err(DecodeError::InvalidUtf8);
                    }
                },
                _ => {
                    return Err(DecodeError::InvalidUtf8);
                },
            }
        }
    }

    /// Decodes a cursor position report from its first digit and the
    /// stream behind it.
    pub fn parse_cursor_pos(item: u8, iter: &mut ByteSource) -> (res: Result<Key, DecodeError>)
        ensures
            res == cursor_pos(item, old(iter).remaining()).value,
            cursor_pos(item, old(iter).remaining()).used <= old(iter).remaining().len(),
            final(iter).ran_dry() == (old(iter).ran_dry() || cursor_pos(
                item,
                old(iter).remaining(),
            ).dry),
            final(iter).remaining() == old(iter).remaining().skip(
                cursor_pos(item, old(iter).remaining()).used as int,
            ),
    {
        let ghost start = iter.remaining();
        let mut scan = ReportScan::new();
        scan.feed(item, Ghost(Seq::empty()));
        let ghost mut pulled: Seq<u8> = Seq::empty();
        let mut faulted = false;
        loop
            invariant_except_break
                start == old(iter).remaining(),
                iter.ran_dry() == old(iter).ran_dry(),
                scan.holds(seq![item] + pulled),
                pulled.len() <= start.len(),
                iter.remaining() == start.skip(pulled.len() as int),
                report_span(start) == pulled + report_span(iter.remaining()),
                !faulted,
            ensures
                start == old(iter).remaining(),
                iter.ran_dry() == (old(iter).ran_dry() || pulled.len() >= start.len()),
                scan.holds(seq![item] + pulled),
                report_span(start) == pulled,
                pulled.len() <= start.len(),
                faulted == (front(start.skip(pulled.len() as int)) matches Some(Err(_))),
                iter.remaining() == start.skip(
                    (pulled.len() + front_len(start.skip(pulled.len() as int))) as int,
                ),
            decreases iter.remaining().len(),
        {
            match iter.next() {
                Some(Ok(byte)) => {
                    if byte == TERMINATOR {
                        break ;
                    }
                    scan.feed(byte, Ghost(seq![item] + pulled));
                    proof {
                        pulled = pulled.push(byte);
                    }
                },
                Some(Err(_)) => {
                    faulted = true;
                    break ;
                },
                None => {
                    break ;
                },
            }
        }
        if faulted {
            return Err(DecodeError::CursorPos);
        }
        match scan.finish(Ghost(seq![item] + pulled)) {
            Some(pos) => Ok(Key::CursorPos(pos)),
            None => Err(DecodeError::CursorPos),
        }
    }
}

/// The state of the decoder between two keys: the byte source, and at most
/// one byte that a raw read delivered behind the key before it. That byte
/// is the only thing that is carried from one call to the next, and it is
/// always used before the source is read again.
#[derive(Debug)]
pub struct ParseKey {
    reader: ByteSource,
    overflow: Option<u8>,
}

impl ParseKey {
    /// The input that has not been decoded yet: the carried byte, where
    /// there is one, and behind it what the source still holds.
    pub closed spec fn pending(&self) -> Seq<ReadItem> {
        match self.overflow {
            Some(byte) => seq![ReadItem::Byte(byte)] + self.reader.remaining(),
            None => self.reader.remaining(),
        }
    }

    /// Records the outcome of one more raw read behind the pending input.
    pub fn push_read(&mut self, outcome: &ReadOutcome)
        ensures
            final(self).pending() == old(self).pending() + outcome_items(*outcome),
    {
        self.reader.push_read(outcome);
    }

    /// Decodes the next key. A raw read delivers up to two bytes; where the
    /// key ends with the first, the second is kept and starts the next key.
    fn decode(&mut self) -> (item: Option<Result<Key, DecodeError>>)
        ensures
            item == next_key(old(self).pending()).event,
            next_key(old(self).pending()).used <= old(self).pending().len(),
            final(self).pending() == old(self).pending().skip(
                next_key(old(self).pending()).used as int,
            ),
            final(self).reader.ran_dry() == (old(self).reader.ran_dry() || next_key(
                old(self).pending(),
            ).dry),
    {
        let ghost start = self.pending();
        let carried = self.overflow;
        self.overflow = None;
        if let Some(first) = carried {
            proof {
                assert(start.skip(1) == self.reader.remaining());
            }
            let res = KeyEvent::parse_key(first, &mut self.reader);
            return Some(res);
        }
        match self.reader.next() {
            None => None,
            Some(Err(_)) => Some(Err(DecodeError::ReadBuffer)),
            Some(Ok(first)) => {
                let second = self.reader.peek();
                let before = self.reader.len();
                let res = KeyEvent::parse_key(first, &mut self.reader);
                if self.reader.len() == before {
                    if let Some(ReadItem::Byte(byte)) = second {
                        let _ = self.reader.next();
                        self.overflow = Some(byte);
                    }
                }
                Some(res)
            },
        }
    }

    /// Decodes the next key from the pending input, taken as all the input
    /// there is: a key that breaks off at its end is decoded as it stands.
    /// No pending item is lost and none is decoded twice.
    pub fn next(&mut self) -> (item: Option<Result<Key, DecodeError>>)
        ensures
            item == next_key(old(self).pending()).event,
            next_key(old(self).pending()).used <= old(self).pending().len(),
            final(self).pending() == old(self).pending().skip(
                next_key(old(self).pending()).used as int,
            ),
    {
        self.decode()
    }

    /// Decodes the next key where the pending input holds all of it. While
    /// the stream is open, a key that runs into the end of the pending
    /// input is waited for: nothing is returned and nothing is taken, so
    /// that the caller reads on and asks again. Once the stream is closed
    /// the pending input is all there is.
    pub fn poll(&mut self, closed: bool) -> (item: Option<Result<Key, DecodeError>>)
        ensures
            item == if !closed && next_key(old(self).pending()).dry {
                None
            } else {
                next_key(old(self).pending()).event
            },
            next_key(old(self).pending()).used <= old(self).pending().len(),
            final(self).pending() == if !closed && next_key(old(self).pending()).dry {
                old(self).pending()
            } else {
                old(self).pending().skip(next_key(old(self).pending()).used as int)
            },
    {
        if closed {
            return self.decode();
        }
        let reader = self.reader.snapshot();
        let overflow = self.overflow;
        self.reader.refill();
        let item = self.decode();
        if self.reader.has_run_dry() {
            self.reader = reader;
            self.overflow = overflow;
            None
        } else {
            item
        }
    }
}

/// Turns a byte source into a decoder of keys.
pub trait ReadKey {
    type Output;

    fn read_key(self) -> Self::Output;
}

impl ReadKey for ByteSource {
    type Output = ParseKey;

    fn read_key(self) -> (keys: ParseKey)
        ensures
            keys.pending() == self.remaining(),
    {
        ParseKey { reader: self, overflow: None }
    }
}

impl Key {
    /// The key as the mode line shows it.
    pub open spec fn text(self) -> Seq<char> {
        match self {
            Key::CursorPos((row, col)) => {
                "CursorPos(R: "@ + decimal(row as nat) + " C: "@ + decimal(col as nat) + ")"@
            },
            Key::Letter(ch) => seq![ch],
            Key::CtrlKey(ch) => "CtrlKey: "@.push(ch),
            Key::AltKey(ch) => "AltKey: "@.push(ch),
            Key::Enter(_) => "Enter"@,
            Key::Tab(_) => "Tab"@,
            Key::F(num) => "F"@ + decimal(num as nat),
            Key::TabBack => "TabBack"@,
            Key::Backspace => "Backspace"@,
            Key::Delete => "Delete"@,
            Key::Escape => "Escape"@,
            Key::Left => "Left"@,
            Key::Right => "Right"@,
            Key::Up => "Up"@,
            Key::Down => "Down"@,
            Key::Home => "Home"@,
            Key::End => "End"@,
            Key::PageUp => "PageUp"@,
            Key::PageDown => "PageDown"@,
            Key::Insert => "Insert"@,
            Key::Esc => "Esc"@,
        }
    }

    /// The key as the mode line shows it.
    pub fn to_string(&self) -> (text: String)
        ensures
            text@ == self.text(),
    {
        let mut text = String::new();
        match *self {
            Key::CursorPos((row, col)) => {
                text.append("CursorPos(R: ");
                push_decimal(&mut text, row as u64);
                text.append(" C: ");
                push_decimal(&mut text, col as u64);
                text.append(")");
            },
            Key::Letter(ch) => {
                push_char(&mut text, ch);
            },
            Key::CtrlKey(ch) => {
                text.append("CtrlKey: ");
                push_char(&mut text, ch);
            },
            Key::AltKey(ch) => {
                text.append("AltKey: ");
                push_char(&mut text, ch);
            },
            Key::Enter(_) => text.append("Enter"),
            Key::Tab(_) => text.append("Tab"),
            Key::F(num) => {
                text.append("F");
                push_decimal(&mut text, num as u64);
            },
            Key::TabBack => text.append("TabBack"),
            Key::Backspace => text.append("Backspace"),
            Key::Delete => text.append("Delete"),
            Key::Escape => text.append("Escape"),
            Key::Left => text.append("Left"),
            Key::Right => text.append("Right"),
            Key::Up => text.append("Up"),
            Key::Down => text.append("Down"),
            Key::Home => text.append("Home"),
            Key::End => text.append("End"),
            Key::PageUp => text.append("PageUp"),
            Key::PageDown => text.append("PageDown"),
            Key::Insert => text.append("Insert"),
            Key::Esc => text.append("Esc"),
        }
        text
    }
}

impl DecodeError {
    /// The error in words.
    pub open spec fn text(self) -> Seq<char> {
        match self {
            DecodeError::KeyEvent => "Could not parse key event."@,
            DecodeError::EscapeSequence => "Could not parse escape sequence."@,
            DecodeError::InvalidUtf8 => "Invalid Utf8."@,
            DecodeError::CursorPos => "Could not parse cursor pos."@,
            DecodeError::ReadBuffer => "Could not read buffer."@,
        }
    }

    /// The error in words.
    pub fn to_string(&self) -> (text: String)
        ensures
            text@ == self.text(),
    {
        match *self {
            DecodeError::KeyEvent => String::from_str("Could not parse key event."),
            DecodeError::EscapeSequence => String::from_str("Could not parse escape sequence."),
            DecodeError::InvalidUtf8 => String::from_str("Invalid Utf8."),
            DecodeError::CursorPos => String::from_str("Could not parse cursor pos."),
            DecodeError::ReadBuffer => String::from_str("Could not read buffer."),
        }
    }
}

} // verus!
