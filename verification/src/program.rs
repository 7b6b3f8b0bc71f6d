//! The editor: one screen, the open documents, and the loop that applies
//! the decoded keys to them.

use crate::cursor::Point;
use crate::document::Doc;
use crate::echo::shown;
use crate::escape::{CLR_SCRN, REQ_CURSOR_POS};
use crate::event::{DecodeError, Key, ParseKey};
use crate::grammar::next_key;
use crate::screen::{text_of, Builder, DrawScreen, Screen, ScreenView};
use crate::session::TermAttrs;
use crate::source::ReadItem;
use vstd::prelude::*;
use vstd::string::*;

verus! {

/// The state of the loop.
#[derive(Debug, Clone, Copy, PartialEq, Eq)]
pub enum LoopState {
    Running,
    /// The loop has ended and reads no more input.
    Quitting,
}

/// What the echo area is told where a document could not be opened.
pub const OPEN_FAILED: &'static str = "Failed to open file.";

/// The screen as the editor lays it out at its start.
pub open spec fn start_screen(rows: u16, cols: u16, attrs: TermAttrs) -> ScreenView {
    ScreenView::blank(
        rows,
        cols,
    ).with_mode_line().with_left_margin().with_point().with_text_window().with_backup(attrs)
}

/// What the editor draws at its start: a cleared screen, the margin and
/// the mode line.
pub open spec fn start_text(screen: ScreenView) -> Seq<char> {
    CLR_SCRN@ + screen.margin_text() + screen.ml_area_text()
}

/// The screen after the echo area has let go of a text whose time is over.
pub open spec fn expire(screen: ScreenView, now: u64) -> ScreenView {
    if now - screen.stored_at >= screen.disp_len {
        ScreenView { message: Seq::empty(), ..screen }
    } else {
        screen
    }
}

/// One turn of the loop: the screen after it, and the text to draw, or no
/// text where the loop ends.
///
/// The end of the input ends the loop, and so does the key that quits. A
/// decoding error goes to the echo area. A reported cursor position goes
/// into the cursor model, and margin and mode line are drawn anew. Every
/// other key has its effect, after which the terminal is asked for the
/// position of its cursor. At the end of the turn the echo area lets go
/// of a text whose time is over.
#[verifier::opaque]
pub open spec fn turn(screen: ScreenView, event: Option<Result<Key, DecodeError>>, now: u64) -> (
    ScreenView,
    Option<Seq<char>>,
) {
    match event {
        None => (screen, None),
        Some(Err(err)) => {
            let told = ScreenView {
                message: screen.message + shown(err.text()),
                stored_at: now,
                ..screen
            };
            (expire(told, now), Some(told.ml_text()))
        },
        Some(Ok(Key::CursorPos(pos))) => {
            let moved = ScreenView { point: Point { row: pos.0, col: pos.1 }, ..screen };
            (
                expire(moved, now),
                Some(moved.key_text(Key::CursorPos(pos)) + moved.margin_text() + moved.ml_text()),
            )
        },
        Some(Ok(key)) => {
            let applied = screen.after_key(key, now);
            match applied.1 {
                Some(text) => (expire(applied.0, now), Some(text + REQ_CURSOR_POS@)),
                None => (applied.0, None),
            }
        },
    }
}

/// The end of the input ends the loop at once, whatever the screen holds.
pub proof fn lemma_turn_at_end(screen: ScreenView, now: u64)
    ensures
        turn(screen, None, now) == (screen, None::<Seq<char>>),
{
    reveal(turn);
}

/// What a run of the loop over a stream of input comes to.
pub struct Run {
    /// The screen at the end.
    pub screen: ScreenView,
    /// Everything that was drawn, in order.
    pub text: Seq<char>,
    /// The number of items of the stream that were decoded.
    pub used: nat,
}

/// The loop over a stream of input: turn after turn, until one ends it.
pub open spec fn run_of(screen: ScreenView, stream: Seq<ReadItem>, now: u64) -> Run
    decreases stream.len(),
{
    let event = next_key(stream).event;
    let used = next_key(stream).used;
    let after = turn(screen, event, now);
    match after.1 {
        Some(text) if 1 <= used <= stream.len() => {
            let rest = run_of(after.0, stream.skip(used as int), now);
            Run { screen: rest.screen, text: text + rest.text, used: used + rest.used }
        },
        _ => Run { screen: after.0, text: Seq::empty(), used },
    }
}

/// The key that quits ends the loop at once: the screen stays as it is,
/// nothing is drawn, and the input behind the key is not looked at.
pub proof fn law_quit_ends_run(screen: ScreenView, behind: Seq<ReadItem>, now: u64)
    ensures
        run_of(screen, seq![ReadItem::Byte(0x11)] + behind, now) == (Run {
            screen,
            text: Seq::empty(),
            used: 1,
        }),
{
    reveal(turn);
    let stream = seq![ReadItem::Byte(0x11)] + behind;
    assert(stream[0] == ReadItem::Byte(0x11));
}

/// A printable ASCII character and the key that quits: the character is
/// typed and drawn, the terminal is asked for its cursor, and the loop
/// ends without a look at the input behind the two bytes.
pub proof fn law_type_then_quit(screen: ScreenView, ch: u8, behind: Seq<ReadItem>, now: u64)
    requires
        0x20 <= ch < 0x7F,
    ensures
        run_of(screen, seq![ReadItem::Byte(ch), ReadItem::Byte(0x11)] + behind, now) == (Run {
            screen: expire(screen.typed(ch as char).0, now),
            text: screen.typed(ch as char).1 + REQ_CURSOR_POS@,
            used: 2,
        }),
{
    reveal(turn);
    let stream = seq![ReadItem::Byte(ch), ReadItem::Byte(0x11)] + behind;
    assert(stream[0] == ReadItem::Byte(ch));
    let rest = stream.skip(1);
    assert(rest == seq![ReadItem::Byte(0x11)] + behind);
    let typed = expire(screen.typed(ch as char).0, now);
    law_quit_ends_run(typed, behind, now);
    let text = screen.typed(ch as char).1 + REQ_CURSOR_POS@;
    assert(text + Seq::<char>::empty() == text);
}

/// The editor.
pub struct MrText<U: Doc> {
    screen: Screen,
    docs: Vec<U>,
    state: LoopState,
}

impl<U: Doc> MrText<U> {
    /// The screen of the editor.
    pub closed spec fn screen_view(&self) -> ScreenView {
        self.screen@
    }

    /// The documents that are open.
    pub closed spec fn documents(&self) -> Seq<U> {
        self.docs@
    }

    /// The state of the loop.
    pub closed spec fn state(&self) -> LoopState {
        self.state
    }

    /// The editor for a terminal of the given size and attributes, and the
    /// text that draws its first screen.
    pub fn new(rows: u16, cols: u16, attrs: TermAttrs) -> (started: (Self, String))
        requires
            rows >= 3,
        ensures
            started.0.screen_view() == start_screen(rows, cols, attrs),
            started.0.screen_view().laid_out(),
            started.0.documents() == Seq::<U>::empty(),
            started.0.state() == LoopState::Running,
            started.1@ == start_text(start_screen(rows, cols, attrs)),
    {
        let screen = Screen::new(
            rows,
            cols,
        ).mode_line().left_margin().point().text_window().backup_terminal(attrs).build();
        let mut text = screen.clear_screen();
        text.append(screen.draw_numbered_lm().as_str());
        text.append(screen.draw_ml_area().as_str());
        (MrText { screen, docs: Vec::with_capacity(20), state: LoopState::Running }, text)
    }

    /// Takes a document that was opened among the open ones, or tells the
    /// echo area that none could be opened.
    pub fn open_doc(&mut self, opened: Option<U>, now: u64)
        ensures
            final(self).state() == old(self).state(),
            match opened {
                Some(doc) => {
                    &&& final(self).documents() == old(self).documents().push(doc)
                    &&& final(self).screen_view() == old(self).screen_view()
                },
                None => {
                    &&& final(self).documents() == old(self).documents()
                    &&& final(self).screen_view() == (ScreenView {
                        message: old(self).screen_view().message + shown(OPEN_FAILED@),
                        stored_at: now,
                        ..old(self).screen_view()
                    })
                },
            },
    {
        match opened {
            Some(doc) => self.docs.push(doc),
            None => self.screen.echo_area_msg(OPEN_FAILED, now),
        }
    }

    /// One turn of the loop on one decoded event. Returns the text to
    /// draw, or nothing where the loop has ended.
    pub fn event_loop(&mut self, event: Option<Result<Key, DecodeError>>, now: u64) -> (out: Option<
        String,
    >)
        requires
            old(self).screen_view().laid_out(),
        ensures
            final(self).screen_view() == turn(old(self).screen_view(), event, now).0,
            text_of(out) == turn(old(self).screen_view(), event, now).1,
            final(self).screen_view().laid_out(),
            final(self).documents() == old(self).documents(),
            final(self).state() == if out is Some {
                old(self).state()
            } else {
                LoopState::Quitting
            },
    {
        proof {
            reveal(turn);
        }
        let out = match event {
            None => None,
            Some(Err(err)) => {
                self.screen.echo_area_msg(err.to_string().as_str(), now);
                Some(self.screen.draw_ml())
            },
            Some(Ok(Key::CursorPos(pos))) => {
                let mut text = self.screen.draw_cursor_pos(Key::CursorPos(pos), pos);
                text.append(self.screen.draw_numbered_lm().as_str());
                text.append(self.screen.draw_ml().as_str());
                Some(text)
            },
            Some(Ok(key)) => {
                match self.screen.ascii_strategy(key, now) {
                    Some(text) => {
                        let mut text = text;
                        text.append(REQ_CURSOR_POS);
                        Some(text)
                    },
                    None => None,
                }
            },
        };
        if out.is_some() {
            self.screen.clr_echo_area_timer(now);
        } else {
            self.state = LoopState::Quitting;
        }
        out
    }

    /// Runs the loop over the input that is pending, to its end or to the
    /// key that quits, and clears the screen. Returns everything that is
    /// to be drawn. Input behind the key that quits is left alone.
    pub fn run(&mut self, keys: &mut ParseKey, now: u64) -> (text: String)
        requires
            old(self).screen_view().laid_out(),
        ensures
            final(self).screen_view() == run_of(
                old(self).screen_view(),
                old(keys).pending(),
                now,
            ).screen,
            text@ == run_of(old(self).screen_view(), old(keys).pending(), now).text + CLR_SCRN@,
            run_of(old(self).screen_view(), old(keys).pending(), now).used <= old(
                keys,
            ).pending().len(),
            final(keys).pending() == old(keys).pending().skip(
                run_of(old(self).screen_view(), old(keys).pending(), now).used as int,
            ),
            final(self).state() == LoopState::Quitting,
            final(self).documents() == old(self).documents(),
    {
        let ghost start = keys.pending();
        let ghost first = self.screen_view();
        let ghost mut used: nat = 0;
        let mut text = String::new();
        proof {
            assert(start.skip(0) == start);
        }
        loop
            invariant_except_break
                start == old(keys).pending(),
                first == old(self).screen_view(),
                self.documents() == old(self).documents(),
                self.screen_view().laid_out(),
                used <= start.len(),
                keys.pending() == start.skip(used as int),
                run_of(first, start, now).screen == run_of(
                    self.screen_view(),
                    keys.pending(),
                    now,
                ).screen,
                run_of(first, start, now).text == text@ + run_of(
                    self.screen_view(),
                    keys.pending(),
                    now,
                ).text,
                run_of(first, start, now).used == used + run_of(
                    self.screen_view(),
                    keys.pending(),
                    now,
                ).used,
            ensures
                start == old(keys).pending(),
                first == old(self).screen_view(),
                self.documents() == old(self).documents(),
                self.state() == LoopState::Quitting,
                run_of(first, start, now).screen == self.screen_view(),
                run_of(first, start, now).text == text@,
                run_of(first, start, now).used == used,
                used <= start.len(),
                keys.pending() == start.skip(used as int),
            decreases keys.pending().len(),
        {
            let ghost pending = keys.pending();
            let ghost before = self.screen_view();
            let ghost drawn = text@;
            let event = keys.next();
            let out = self.event_loop(event, now);
            proof {
                let step = next_key(pending).used;
                assert(start.skip(used as int).skip(step as int) == start.skip(
                    (used + step) as int,
                ));
                used = used + step;
            }
            match out {
                Some(more) => {
                    text.append(more.as_str());
                    proof {
                        lemma_turn_at_end(before, now);
                        assert(next_key(pending).event is Some);
                        assert(1 <= next_key(pending).used <= pending.len());
                        let rest = run_of(self.screen_view(), keys.pending(), now);
                        assert(run_of(before, pending, now).text == more@ + rest.text);
                        assert(drawn + (more@ + rest.text) == (drawn + more@) + rest.text);
                    }
                },
                None => {
                    proof {
                        assert(drawn + Seq::<char>::empty() == drawn);
                    }
                    break ;
                },
            }
        }
        text.append(self.screen.clear_screen().as_str());
        text
    }

    /// Stores the error of a write to the terminal in the echo area.
    pub fn write_failed(&mut self, err: &str, now: u64)
        ensures
            final(self).screen_view() == (ScreenView {
                message: crate::echo::error_text(err@) + shown(crate::echo::ERROR_NOTICE@),
                error_log: old(self).screen_view().error_log + "Error: "@ + err@ + "\n"@,
                stored_at: now,
                ..old(self).screen_view()
            }),
            final(self).documents() == old(self).documents(),
            final(self).state() == old(self).state(),
    {
        self.screen.echo_area_error(err, now);
    }

    /// The screen of the editor.
    pub fn screen(&self) -> (screen: &Screen)
        ensures
            screen@ == self.screen_view(),
    {
        &self.screen
    }

    /// The loop has ended.
    pub fn is_quitting(&self) -> (quitting: bool)
        ensures
            quitting == (self.state() == LoopState::Quitting),
    {
        match self.state {
            LoopState::Quitting => true,
            LoopState::Running => false,
        }
    }
}

} // verus!
