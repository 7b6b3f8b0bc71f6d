//! The echo area: a short-lived status text in the mode line, and the log
//! of the errors that were shown there.

use crate::buffer::{rope_insert, rope_len_chars, rope_new, rope_text};
use ropey::Rope;
use vstd::prelude::*;
use vstd::string::*;
use vstd::utf8::*;

verus! {

/// The largest number of bytes of one message that the echo area takes.
pub const MESSAGE_LIMIT: usize = 64;

/// What the echo area shows in place of an error that is too long for it.
pub const ERROR_STANDIN: &'static str = "You've got an error.";

/// What the echo area adds behind every error.
pub const ERROR_NOTICE: &'static str = "Mr-Text found an error.";

/// The last character boundary of UTF-8 text at or before `limit`.
pub open spec fn boundary_before(bytes: Seq<u8>, limit: int) -> int
    decreases limit,
{
    if limit <= 0 {
        0
    } else if is_char_boundary(bytes, limit) {
        limit
    } else {
        boundary_before(bytes, limit - 1)
    }
}

/// The part of a message that the echo area takes: the whole message where
/// its encoding is shorter than the limit, else the characters that lie
/// wholly within the limit.
pub open spec fn shown(msg: Seq<char>) -> Seq<char> {
    let bytes = encode_utf8(msg);
    if bytes.len() < MESSAGE_LIMIT {
        msg
    } else {
        decode_utf8(bytes.take(boundary_before(bytes, MESSAGE_LIMIT as int)))
    }
}

/// What the echo area shows of an error: the error behind its label, or
/// the stand-in where that is longer than the limit.
pub open spec fn error_text(err: Seq<char>) -> Seq<char> {
    if encode_utf8("Error: "@ + err).len() > MESSAGE_LIMIT {
        ERROR_STANDIN@
    } else {
        "Error: "@ + err
    }
}

proof fn lemma_boundary_before(bytes: Seq<u8>, limit: int, known: int)
    requires
        valid_utf8(bytes),
        0 <= known <= limit,
        is_char_boundary(bytes, known),
    ensures
        known <= boundary_before(bytes, limit) <= limit,
        is_char_boundary(bytes, boundary_before(bytes, limit)),
    decreases limit,
{
    if limit > 0 && !is_char_boundary(bytes, limit) {
        lemma_boundary_before(bytes, limit - 1, known);
    }
}

/// Of a message that is not empty, the echo area takes at least one
/// character.
pub proof fn lemma_shown_not_empty(msg: Seq<char>)
    requires
        msg.len() > 0,
    ensures
        shown(msg).len() > 0,
{
    let bytes = encode_utf8(msg);
    if bytes.len() >= MESSAGE_LIMIT {
        encode_utf8_valid_utf8(msg);
        let first = length_of_first_scalar(bytes);
        assert(is_char_boundary(bytes, first)) by {
            reveal_with_fuel(is_char_boundary, 2);
        }
        lemma_boundary_before(bytes, MESSAGE_LIMIT as int, first);
        let cut = boundary_before(bytes, MESSAGE_LIMIT as int);
        valid_utf8_split(bytes, cut);
    }
}

/// The echo area of the mode line.
#[derive(Debug)]
pub struct EchoArea {
    errors: Rope,
    message: String,
    msg_timer: u64,
    disp_len: u64,
}

impl EchoArea {
    /// The status text.
    pub closed spec fn text(&self) -> Seq<char> {
        self.message@
    }

    /// The errors stored so far, one to a line.
    pub closed spec fn log(&self) -> Seq<char> {
        rope_text(self.errors)
    }

    /// The time, in seconds, at which the last message was stored.
    pub closed spec fn stored_at(&self) -> u64 {
        self.msg_timer
    }

    /// The number of seconds for which a message is shown.
    pub closed spec fn duration(&self) -> u64 {
        self.disp_len
    }

    /// The message has been shown for its full time at `now`.
    pub open spec fn expired(&self, now: u64) -> bool {
        now - self.stored_at() >= self.duration()
    }

    /// An empty echo area that shows its messages for three seconds.
    pub fn new(now: u64) -> (echo: Self)
        ensures
            echo.text() == Seq::<char>::empty(),
            echo.log() == Seq::<char>::empty(),
            echo.stored_at() == now,
            echo.duration() == 3,
    {
        EchoArea { errors: rope_new(), message: String::new(), msg_timer: now, disp_len: 3 }
    }

    /// Sets the number of seconds for which a message is shown.
    pub fn new_disp_len(&mut self, len: u64)
        ensures
            final(self).duration() == len,
            final(self).text() == old(self).text(),
            final(self).log() == old(self).log(),
            final(self).stored_at() == old(self).stored_at(),
    {
        self.disp_len = len
    }

    /// No status text is shown.
    pub fn is_empty(&self) -> (empty: bool)
        ensures
            empty == (self.text().len() == 0),
    {
        self.message.as_str().is_empty()
    }

    /// The message has been shown for its full time at `now`.
    pub fn timer_done(&self, now: u64) -> (done: bool)
        ensures
            done == self.expired(now),
    {
        now >= self.msg_timer && now - self.msg_timer >= self.disp_len
    }

    /// The status text.
    pub fn to_string(&self) -> (text: String)
        ensures
            text@ == self.text(),
    {
        self.message.clone()
    }

    /// Takes the status text away once it has been shown for its full
    /// time.
    pub fn check_msg_timer(&mut self, now: u64)
        ensures
            final(self).text() == if old(self).expired(now) {
                Seq::<char>::empty()
            } else {
                old(self).text()
            },
            final(self).log() == old(self).log(),
            final(self).stored_at() == old(self).stored_at(),
            final(self).duration() == old(self).duration(),
    {
        if self.timer_done(now) {
            self.message = String::new();
        }
    }

    /// Adds a message to the status text and starts its time anew.
    pub fn store_message(&mut self, msg: &str, now: u64)
        ensures
            final(self).text() == old(self).text() + shown(msg@),
            final(self).stored_at() == now,
            final(self).log() == old(self).log(),
            final(self).duration() == old(self).duration(),
    {
        self.msg_timer = now;
        if msg.as_bytes().len() < MESSAGE_LIMIT {
            self.message.append(msg);
        } else {
            let ghost bytes = msg.spec_bytes();
            proof {
                encode_utf8_valid_utf8(msg@);
            }
            let mut cut: usize = MESSAGE_LIMIT;
            while !msg.is_char_boundary(cut)
                invariant
                    bytes == encode_utf8(msg@),
                    valid_utf8(bytes),
                    is_char_boundary(bytes, 0),
                    0 <= cut <= MESSAGE_LIMIT <= bytes.len(),
                    boundary_before(bytes, MESSAGE_LIMIT as int) == boundary_before(
                        bytes,
                        cut as int,
                    ),
                decreases cut,
            {
                cut = cut - 1;
            }
            let (head, _) = msg.split_at(cut);
            proof {
                encode_utf8_decode_utf8(head@);
            }
            self.message.append(head);
        }
    }

    /// Stores an error: its text goes to the log, on a line of its own, and
    /// the status text becomes the error and a notice.
    pub fn store_error(&mut self, err: &str, now: u64)
        ensures
            final(self).log() == old(self).log() + "Error: "@ + err@ + "\n"@,
            final(self).text() == error_text(err@) + shown(ERROR_NOTICE@),
            final(self).stored_at() == now,
            final(self).duration() == old(self).duration(),
    {
        let mut error = String::from_str("Error: ");
        error.append(err);
        let end = rope_len_chars(&self.errors);
        rope_insert(&mut self.errors, end, error.as_str());
        let end = rope_len_chars(&self.errors);
        rope_insert(&mut self.errors, end, "\n");
        if error.as_str().as_bytes().len() > MESSAGE_LIMIT {
            self.message = String::from_str(ERROR_STANDIN);
        } else {
            self.message = error;
        }
        self.store_message(ERROR_NOTICE, now);
    }
}

impl Default for EchoArea {
    fn default() -> (echo: Self)
        ensures
            echo.text() == Seq::<char>::empty(),
            echo.log() == Seq::<char>::empty(),
            echo.stored_at() == 0,
            echo.duration() == 3,
    {
        EchoArea::new(0)
    }
}

/// A message that is stored in the echo area is there at once. It is still
/// there when the timer is looked at before the time for which messages
/// are shown has passed, and it is gone when the timer is looked at once
/// that time has passed.
pub proof fn law_message_lifetime(
    before: EchoArea,
    stored: EchoArea,
    checked: EchoArea,
    msg: Seq<char>,
    now: u64,
    later: u64,
)
    requires
        msg.len() > 0,
        now <= later,
        // `stored` is `before` after the message was stored at `now`
        stored.text() == before.text() + shown(msg),
        stored.stored_at() == now,
        // `checked` is `stored` after the timer was looked at at `later`
        checked.text() == if stored.expired(later) {
            Seq::<char>::empty()
        } else {
            stored.text()
        },
    ensures
        stored.text().len() > 0,
        later - now < stored.duration() ==> checked.text() == stored.text(),
        later - now >= stored.duration() ==> checked.text().len() == 0,
{
    lemma_shown_not_empty(msg);
}

} // verus!
