//! The grammar of the input stream: what a key is, told of its first byte
//! and the items of the stream behind it.
//!
//! Every function here gives, next to the decoded value, the number of
//! items that belong to it, and says whether the stream ended before the
//! decoder had what it asked for. A result that did not run dry is settled:
//! no input that arrives later changes it.

use crate::event::{DecodeError, Key};
use crate::source::{byte_items, front, front_len, ReadFault, ReadItem};
use vstd::prelude::*;
use vstd::utf8::*;

verus! {

/// The outcome of decoding.
pub struct Decoded<T> {
    /// The value, or why there is none.
    pub value: Result<T, DecodeError>,
    /// The number of items that were pulled from the stream.
    pub used: nat,
    /// The stream was asked for an item when it had none left.
    pub dry: bool,
}

/// A value that was found after `used` items.
pub open spec fn found<T>(value: T, used: nat) -> Decoded<T> {
    Decoded { value: Ok(value), used, dry: false }
}

/// A failure at the front of `rest`, after `pulled` items: the item at the
/// front is pulled with the others and is not what the decoder can go on
/// with, or there is none.
pub open spec fn stopped<T>(err: DecodeError, pulled: nat, rest: Seq<ReadItem>) -> Decoded<T> {
    Decoded { value: Err(err), used: pulled + front_len(rest), dry: rest.len() == 0 }
}

/// The outcome `inner`, reached after `pulled` items had been pulled
/// already.
pub open spec fn after<T>(pulled: nat, inner: Decoded<T>) -> Decoded<T> {
    Decoded { value: inner.value, used: pulled + inner.used, dry: inner.dry }
}

pub const ESC: u8 = 0x1B;

pub const SEPARATOR: u8 = 0x3B;

pub const TERMINATOR: u8 = 0x52;

pub open spec fn is_digit(b: u8) -> bool {
    0x30 <= b <= 0x39
}

/// The key of a doubled escape followed by one letter.
pub open spec fn arrow_key(b: u8) -> Option<Key> {
    if b == 0x44 {
        Some(Key::Left)
    } else if b == 0x43 {
        Some(Key::Right)
    } else if b == 0x41 {
        Some(Key::Up)
    } else if b == 0x42 {
        Some(Key::Down)
    } else if b == 0x48 {
        Some(Key::Home)
    } else if b == 0x46 {
        Some(Key::End)
    } else if b == 0x5A {
        Some(Key::TabBack)
    } else {
        None
    }
}

/// A control sequence, decoded from the stream behind `ESC [ <byte>`: a
/// second escape, then either `[` and a letter `A` to `E` for a function
/// key, or a single letter for an arrow, `Home`, `End` or tab-back.
pub open spec fn control_seq(rest: Seq<ReadItem>) -> Decoded<Key> {
    match front(rest) {
        Some(Ok(first)) if first == ESC => {
            let rest1 = rest.skip(1);
            match front(rest1) {
                Some(Ok(second)) if second == 0x5B => {
                    let rest2 = rest.skip(2);
                    match front(rest2) {
                        Some(Ok(third)) if 0x41 <= third <= 0x45 => found(
                            Key::F((1 + third - 0x41) as u8),
                            3,
                        ),
                        _ => stopped(DecodeError::EscapeSequence, 2, rest2),
                    }
                },
                Some(Ok(second)) => match arrow_key(second) {
                    Some(key) => found(key, 2),
                    None => stopped(DecodeError::EscapeSequence, 1, rest1),
                },
                _ => stopped(DecodeError::EscapeSequence, 1, rest1),
            }
        },
        _ => stopped(DecodeError::EscapeSequence, 0, rest),
    }
}

/// The first scalar value that valid UTF-8 text holds.
pub open spec fn first_scalar(bytes: Seq<u8>) -> char {
    decode_utf8(bytes)[0]
}

/// The continuation of a scalar value whose first bytes are `acc`: items
/// are pulled one at a time until the bytes gathered so far are valid
/// UTF-8. The attempt fails when four bytes are not valid, when the stream
/// ends, or when a read fails.
pub open spec fn scalar_tail(acc: Seq<u8>, rest: Seq<ReadItem>) -> Decoded<char>
    decreases rest.len(),
{
    match front(rest) {
        Some(Ok(byte)) => {
            let grown = acc.push(byte);
            if valid_utf8(grown) {
                found(first_scalar(grown), 1)
            } else if grown.len() >= 4 {
                stopped(DecodeError::InvalidUtf8, 0, rest)
            } else {
                after(1, scalar_tail(grown, rest.skip(1)))
            }
        },
        _ => stopped(DecodeError::InvalidUtf8, 0, rest),
    }
}

/// The scalar value that starts with `item`: `item` itself where it is
/// ASCII, else what `item` and the bytes behind it encode.
pub open spec fn scalar(item: u8, rest: Seq<ReadItem>) -> Decoded<char> {
    if item < 0x80 {
        found(item as char, 0)
    } else {
        scalar_tail(seq![item], rest)
    }
}

/// The value of the decimal digits among `bytes`, read from left to right.
/// Bytes that are no digits are passed over.
pub open spec fn digits_value(bytes: Seq<u8>) -> nat
    decreases bytes.len(),
{
    if bytes.len() == 0 {
        0
    } else if is_digit(bytes.last()) {
        digits_value(bytes.drop_last()) * 10 + (bytes.last() - 0x30) as nat
    } else {
        digits_value(bytes.drop_last())
    }
}

/// The index of the first `byte` in `text`, or the length of `text` where
/// it holds none.
pub open spec fn position_of(text: Seq<u8>, byte: u8) -> int
    decreases text.len(),
{
    if text.len() == 0 {
        0
    } else if text[0] == byte {
        0
    } else {
        1 + position_of(text.skip(1), byte)
    }
}

/// The position that the text of a cursor position report holds: the
/// digits before the first `;` are the row, the digits behind it the
/// column. There is no position without a separator, where a number does
/// not fit sixteen bits, or where both numbers are zero.
pub open spec fn cursor_report(text: Seq<u8>) -> Option<(u16, u16)> {
    let at = position_of(text, SEPARATOR);
    let row = digits_value(text.take(at));
    let col = digits_value(text.skip(at + 1));
    if at >= text.len() {
        None
    } else if row > 0xFFFF || col > 0xFFFF {
        None
    } else if row == 0 && col == 0 {
        None
    } else {
        Some((row as u16, col as u16))
    }
}

/// The bytes at the front of a stream that belong to a report: all bytes
/// before the terminator `R`, a failed read or the end of the stream.
pub open spec fn report_span(rest: Seq<ReadItem>) -> Seq<u8>
    decreases rest.len(),
{
    match front(rest) {
        Some(Ok(byte)) if byte != TERMINATOR => seq![byte] + report_span(rest.skip(1)),
        _ => Seq::empty(),
    }
}

/// A cursor position report, decoded from its first digit and the stream
/// behind it. The item that ends the report, a terminator or a failed
/// read, is pulled with it; a report that nothing ends runs dry. A report
/// that a failed read ends holds no position, whatever digits came before
/// the failure.
pub open spec fn cursor_pos(item: u8, rest: Seq<ReadItem>) -> Decoded<Key> {
    let span = report_span(rest);
    let end = rest.skip(span.len() as int);
    Decoded {
        value: match front(end) {
            Some(Err(_)) => Err(DecodeError::CursorPos),
            _ => match cursor_report(seq![item] + span) {
                Some(pos) => Ok(Key::CursorPos(pos)),
                None => Err(DecodeError::CursorPos),
            },
        },
        used: span.len() + front_len(end),
        dry: span.len() >= rest.len(),
    }
}

/// What follows an escape byte: nothing, for the escape key itself; `[`
/// and a digit, for a cursor position report; `[` and another byte, for a
/// control sequence; `0` and a letter `P` to `S`, for a function key; any
/// other character, for the alt key of that character.
pub open spec fn escape_key(rest: Seq<ReadItem>) -> Decoded<Key> {
    match front(rest) {
        None => Decoded { value: Ok(Key::Escape), used: 0, dry: true },
        Some(Err(_)) => stopped(DecodeError::KeyEvent, 0, rest),
        Some(Ok(first)) => {
            let rest1 = rest.skip(1);
            if first == 0x5B {
                match front(rest1) {
                    Some(Ok(second)) => if is_digit(second) {
                        after(2, cursor_pos(second, rest.skip(2)))
                    } else {
                        after(2, control_seq(rest.skip(2)))
                    },
                    _ => stopped(DecodeError::KeyEvent, 1, rest1),
                }
            } else if first == 0x30 {
                match front(rest1) {
                    Some(Ok(second)) if 0x50 <= second <= 0x53 => found(
                        Key::F((1 + second - 0x50) as u8),
                        2,
                    ),
                    _ => stopped(DecodeError::KeyEvent, 1, rest1),
                }
            } else {
                let ch = scalar(first, rest1);
                Decoded {
                    value: match ch.value {
                        Ok(c) => Ok(Key::AltKey(c)),
                        Err(e) => Err(e),
                    },
                    used: 1 + ch.used,
                    dry: ch.dry,
                }
            }
        },
    }
}

/// The key that starts with `item`, decoded from `item` and the stream
/// behind it.
pub open spec fn key(item: u8, rest: Seq<ReadItem>) -> Decoded<Key> {
    if item == ESC {
        escape_key(rest)
    } else if item == 0x08 {
        found(Key::Backspace, 0)
    } else if item == 0x09 {
        found(Key::Tab('\t'), 0)
    } else if item == 0x0A {
        found(Key::Enter('\n'), 0)
    } else if item == 0x7F {
        found(Key::Delete, 0)
    } else if 0x01 <= item <= 0x1A {
        found(Key::CtrlKey((item - 0x01 + 0x61) as char), 0)
    } else {
        let ch = scalar(item, rest);
        Decoded {
            value: match ch.value {
                Ok(c) => Ok(Key::Letter(c)),
                Err(e) => Err(e),
            },
            used: ch.used,
            dry: ch.dry,
        }
    }
}

/// What the decoder makes of the front of a stream.
pub struct Polled {
    /// The next key or the error in its place; nothing at the end of the
    /// stream.
    pub event: Option<Result<Key, DecodeError>>,
    /// The number of items that it takes up.
    pub used: nat,
    /// The stream was asked for an item when it had none left.
    pub dry: bool,
}

/// The next key of a stream: nothing at the end of the stream, the read
/// fault where the first read failed, else the key that starts with the
/// first byte.
pub open spec fn next_key(stream: Seq<ReadItem>) -> Polled {
    match front(stream) {
        None => Polled { event: None, used: 0, dry: true },
        Some(Err(_)) => Polled { event: Some(Err(DecodeError::ReadBuffer)), used: 1, dry: false },
        Some(Ok(first)) => {
            let decoded = key(first, stream.skip(1));
            Polled { event: Some(decoded.value), used: 1 + decoded.used, dry: decoded.dry }
        },
    }
}

/// `position_of` gives the first place of the byte: the byte stands there,
/// and nowhere before.
pub proof fn lemma_position_is_first(text: Seq<u8>, byte: u8)
    ensures
        0 <= position_of(text, byte) <= text.len(),
        position_of(text, byte) < text.len() ==> text[position_of(text, byte)] == byte,
        forall|i: int| 0 <= i < position_of(text, byte) ==> text[i] != byte,
    decreases text.len(),
{
    if text.len() > 0 && text[0] != byte {
        let tail = text.skip(1);
        lemma_position_is_first(tail, byte);
        assert forall|i: int| 0 <= i < position_of(text, byte) implies text[i] != byte by {
            if i > 0 {
                assert(text[i] == tail[i - 1]);
            }
        }
    }
}

/// The first place of a byte in a text is its first place in every prefix
/// that reaches it.
pub proof fn lemma_position_in_prefix(text: Seq<u8>, byte: u8, len: int)
    requires
        0 <= len <= text.len(),
        position_of(text.take(len), byte) < len,
    ensures
        position_of(text, byte) == position_of(text.take(len), byte),
    decreases text.len() - len,
{
    if len < text.len() {
        assert(text.take(len + 1) == text.take(len).push(text[len]));
        lemma_position_push(text.take(len), byte, text[len]);
        lemma_position_in_prefix(text, byte, len + 1);
    } else {
        assert(text.take(len) == text);
    }
}

/// The first place of a byte in a text that grows by one byte.
pub proof fn lemma_position_push(text: Seq<u8>, byte: u8, last: u8)
    ensures
        0 <= position_of(text, byte) <= text.len(),
        position_of(text.push(last), byte) == if position_of(text, byte) < text.len() {
            position_of(text, byte)
        } else if last == byte {
            text.len() as int
        } else {
            text.len() as int + 1
        },
    decreases text.len(),
{
    let grown = text.push(last);
    if text.len() == 0 {
        assert(position_of(grown.skip(1), byte) == 0);
    } else {
        assert(grown.skip(1) == text.skip(1).push(last));
        lemma_position_push(text.skip(1), byte, last);
    }
}

/// The value of the digits of a text that grows by one byte.
pub proof fn lemma_digits_push(text: Seq<u8>, last: u8)
    ensures
        digits_value(text.push(last)) == if is_digit(last) {
            digits_value(text) * 10 + (last - 0x30) as nat
        } else {
            digits_value(text)
        },
{
    assert(text.push(last).drop_last() == text);
}

/// A control byte from `0x01` to `0x1A` that is none of backspace, tab and
/// enter decodes to the control key of the letter at the same offset from
/// `a`, whatever follows it, and takes nothing from the stream.
pub proof fn law_control_byte(byte: u8, rest: Seq<ReadItem>)
    requires
        0x01 <= byte <= 0x1A,
        byte != 0x08 && byte != 0x09 && byte != 0x0A,
    ensures
        key(byte, rest) == found(Key::CtrlKey(('a' as u8 + byte - 1) as char), 0),
{
}

/// An escape byte followed by an ASCII letter decodes to the alt key of
/// that letter; the letter is the only item taken from the stream.
pub proof fn law_alt_letter(letter: u8, rest: Seq<ReadItem>)
    requires
        0x41 <= letter <= 0x5A || 0x61 <= letter <= 0x7A,
    ensures
        key(ESC, seq![ReadItem::Byte(letter)] + rest) == found(Key::AltKey(letter as char), 1),
{
}

/// Decoding the UTF-8 encoding of a scalar value gives that scalar value
/// back, and takes from the stream exactly the bytes that follow the first
/// one in the encoding.
pub proof fn law_scalar_round_trip(ch: char, rest: Seq<ReadItem>)
    ensures
        ({
            let bytes = encode_utf8(seq![ch]);
            let stream = byte_items(bytes.skip(1)) + rest;
            &&& 1 <= bytes.len() <= 4
            &&& scalar(bytes[0], stream) == found(ch, (bytes.len() - 1) as nat)
        }),
{
    let bytes = encode_utf8(seq![ch]);
    encode_utf8_first_scalar(seq![ch]);
    encode_utf8_valid_utf8(seq![ch]);
    assert(seq![ch].drop_first() == Seq::<char>::empty());
    assert(encode_utf8(Seq::<char>::empty()) == Seq::<u8>::empty());
    let lead = bytes[0];
    if bytes.len() == 1 {
        // the first byte of a one-byte encoding is the scalar value itself
        assert(lead & 0x7F == lead) by (bit_vector)
            requires
                lead <= 0x7F,
        ;
    } else {
        // every shorter start of the encoding lacks a byte, so the decoder
        // goes on until it has gathered them all
        reveal_with_fuel(scalar_tail, 4);
        let two = seq![lead].push(bytes[1]);
        if bytes.len() == 2 {
            assert(two == bytes);
        } else {
            let three = two.push(bytes[2]);
            if bytes.len() == 3 {
                assert(three == bytes);
            } else {
                assert(three.push(bytes[3]) == bytes);
            }
        }
    }
}

proof fn lemma_report_span_of_bytes(bytes: Seq<u8>, behind: Seq<ReadItem>)
    requires
        !bytes.contains(TERMINATOR),
        front(behind) matches Some(Ok(byte)) ==> byte == TERMINATOR,
    ensures
        report_span(byte_items(bytes) + behind) == bytes,
    decreases bytes.len(),
{
    let stream = byte_items(bytes) + behind;
    if bytes.len() == 0 {
        assert(stream == behind);
    } else {
        let tail = bytes.skip(1);
        assert(stream[0] == ReadItem::Byte(bytes[0]));
        assert(bytes.contains(bytes[0]));
        assert(stream.skip(1) == byte_items(tail) + behind);
        assert forall|b: u8| tail.contains(b) implies bytes.contains(b) by {
            let i = choose|i: int| 0 <= i < tail.len() && tail[i] == b;
            assert(bytes[i + 1] == b);
        }
        lemma_report_span_of_bytes(tail, behind);
        assert(seq![bytes[0]] + tail == bytes);
    }
}

/// A read that fails inside a cursor position report makes the report an
/// error, whatever was read of it before: no position is made of a part
/// of a report. The failed read is taken with the report, and what lies
/// behind it is left for the next key.
pub proof fn law_report_cut_by_fault(item: u8, read: Seq<u8>, behind: Seq<ReadItem>)
    requires
        !read.contains(TERMINATOR),
    ensures
        cursor_pos(item, byte_items(read) + seq![ReadItem::Fault] + behind) == (Decoded::<Key> {
            value: Err(DecodeError::CursorPos),
            used: read.len() + 1,
            dry: false,
        }),
{
    let tail = seq![ReadItem::Fault] + behind;
    let stream = byte_items(read) + tail;
    assert(stream == byte_items(read) + seq![ReadItem::Fault] + behind);
    assert(tail[0] == ReadItem::Fault);
    lemma_report_span_of_bytes(read, tail);
    assert(stream.skip(read.len() as int) == tail);
}

proof fn lemma_front_append(rest: Seq<ReadItem>, more: Seq<ReadItem>, at: int)
    requires
        0 <= at < rest.len(),
    ensures
        (rest + more).skip(at) == rest.skip(at) + more,
        (rest + more).skip(at + 1) == rest.skip(at + 1) + more,
        front((rest + more).skip(at)) == front(rest.skip(at)),
        front_len((rest + more).skip(at)) == front_len(rest.skip(at)),
{
}

proof fn lemma_scalar_tail_settled(acc: Seq<u8>, rest: Seq<ReadItem>, more: Seq<ReadItem>)
    requires
        !scalar_tail(acc, rest).dry,
    ensures
        scalar_tail(acc, rest + more) == scalar_tail(acc, rest),
    decreases rest.len(),
{
    if rest.len() > 0 {
        lemma_front_append(rest, more, 0);
        if let Some(Ok(byte)) = front(rest) {
            let bytes = acc.push(byte);
            if !valid_utf8(bytes) && bytes.len() < 4 {
                lemma_scalar_tail_settled(bytes, rest.skip(1), more);
            }
        }
    }
}

proof fn lemma_report_span_settled(rest: Seq<ReadItem>, more: Seq<ReadItem>)
    requires
        report_span(rest).len() < rest.len(),
    ensures
        report_span(rest + more) == report_span(rest),
    decreases rest.len(),
{
    lemma_front_append(rest, more, 0);
    if let Some(Ok(byte)) = front(rest) {
        if byte != TERMINATOR {
            lemma_report_span_settled(rest.skip(1), more);
        }
    }
}

proof fn lemma_cursor_pos_settled(item: u8, rest: Seq<ReadItem>, more: Seq<ReadItem>)
    requires
        !cursor_pos(item, rest).dry,
    ensures
        cursor_pos(item, rest + more) == cursor_pos(item, rest),
{
    lemma_report_span_settled(rest, more);
}

proof fn lemma_key_settled(item: u8, rest: Seq<ReadItem>, more: Seq<ReadItem>)
    requires
        !key(item, rest).dry,
    ensures
        key(item, rest + more) == key(item, rest),
{
    if item == ESC {
        lemma_front_append(rest, more, 0);
        if let Some(Ok(first)) = front(rest) {
            if first == 0x5B {
                if rest.len() > 1 {
                    lemma_front_append(rest, more, 1);
                    if let Some(Ok(second)) = front(rest.skip(1)) {
                        if is_digit(second) {
                            lemma_cursor_pos_settled(second, rest.skip(2), more);
                        }
                    }
                }
            } else if first >= 0x80 {
                lemma_scalar_tail_settled(seq![first], rest.skip(1), more);
            }
        }
    } else if item >= 0x80 {
        lemma_scalar_tail_settled(seq![item], rest, more);
    }
}

/// A key that was decoded without running into the end of the stream is
/// settled: whatever input arrives behind the stream, the key, and the
/// number of items that it takes up, stay what they are. So a stream that
/// arrives in pieces, cut anywhere, decodes to the same keys as the stream
/// in one piece.
pub proof fn law_short_read(stream: Seq<ReadItem>, more: Seq<ReadItem>)
    requires
        !next_key(stream).dry,
    ensures
        next_key(stream + more) == next_key(stream),
{
    lemma_front_append(stream, more, 0);
    if let Some(Ok(first)) = front(stream) {
        lemma_key_settled(first, stream.skip(1), more);
    }
}

} // verus!
