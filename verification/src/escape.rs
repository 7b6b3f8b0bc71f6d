//! The escape sequences that the editor sends to the terminal.

use crate::text::{decimal, push_decimal};
use vstd::prelude::*;
use vstd::string::*;

verus! {

pub const CLR_SCRN: &'static str = "\x1b[2J";

pub const CLR_LN: &'static str = "\x1b[2K";

pub const CLR_SCRN_CURSR_END: &'static str = "\x1b[0J";

pub const CLR_LN_CURSR_END: &'static str = "\x1b[0K";

pub const CLR_LN_UPTO_CURSR: &'static str = "\x1b[1K";

pub const REQ_CURSOR_POS: &'static str = "\x1b[6n";

pub const SHOW_CURSOR: &'static str = "\x1b[?25h";

pub const HIDE_CURSOR: &'static str = "\x1b[?25l";

pub const SCROLL_UP: &'static str = "\x1b[1T";

pub const SCROLL_DOWN: &'static str = "\x1b[1S";

pub const MV_LEFT: &'static str = "\x1b[1D";

pub const MV_RIGHT: &'static str = "\x1b[1C";

pub const MV_UP: &'static str = "\x1b[1A";

pub const MV_DOWN: &'static str = "\x1b[1B";

/// The sequence that moves the cursor to a row and a column.
pub open spec fn move_to(row: u16, col: u16) -> Seq<char> {
    "\x1b["@ + decimal(row as nat) + ";"@ + decimal(col as nat) + "H"@
}

/// Appends the sequence that moves the cursor to a row and a column.
pub fn push_move_to(text: &mut String, row: u16, col: u16)
    ensures
        final(text)@ == old(text)@ + move_to(row, col),
{
    text.append("\x1b[");
    push_decimal(text, row as u64);
    text.append(";");
    push_decimal(text, col as u64);
    text.append("H");
}

/// A command of the terminal.
#[derive(Debug, Clone, Copy, PartialEq, Eq)]
pub enum EscSeq {
    ClrScrn,
    ClrLn,
    ClrScrnCursrEnd,
    ClrLnCursrEnd,
    ClrLnBeforeCursr,
    GetCursorPos,
    MoveCursor((u16, u16)),
    ShowCursor,
    HideCursor,
    ScrollUp,
    ScrollDown,
    MvLeft,
    MvRight,
    MvUp,
    MvDown,
}

impl EscSeq {
    /// The characters that the terminal is sent for the command.
    pub open spec fn text(self) -> Seq<char> {
        match self {
            EscSeq::ClrScrn => CLR_SCRN@,
            EscSeq::ClrLn => CLR_LN@,
            EscSeq::ClrScrnCursrEnd => CLR_SCRN_CURSR_END@,
            EscSeq::ClrLnCursrEnd => CLR_LN_CURSR_END@,
            EscSeq::ClrLnBeforeCursr => CLR_LN_UPTO_CURSR@,
            EscSeq::GetCursorPos => REQ_CURSOR_POS@,
            EscSeq::MoveCursor((row, col)) => move_to(row, col),
            EscSeq::ShowCursor => SHOW_CURSOR@,
            EscSeq::HideCursor => HIDE_CURSOR@,
            EscSeq::ScrollUp => SCROLL_UP@,
            EscSeq::ScrollDown => SCROLL_DOWN@,
            EscSeq::MvLeft => MV_LEFT@,
            EscSeq::MvRight => MV_RIGHT@,
            EscSeq::MvUp => MV_UP@,
            EscSeq::MvDown => MV_DOWN@,
        }
    }

    /// The command as the text that is written to the terminal.
    pub fn to_string(&self) -> (text: String)
        ensures
            text@ == self.text(),
    {
        let mut text = String::new();
        match *self {
            EscSeq::ClrScrn => text.append(CLR_SCRN),
            EscSeq::ClrLn => text.append(CLR_LN),
            EscSeq::ClrScrnCursrEnd => text.append(CLR_SCRN_CURSR_END),
            EscSeq::ClrLnCursrEnd => text.append(CLR_LN_CURSR_END),
            EscSeq::ClrLnBeforeCursr => text.append(CLR_LN_UPTO_CURSR),
            EscSeq::GetCursorPos => text.append(REQ_CURSOR_POS),
            EscSeq::MoveCursor((row, col)) => push_move_to(&mut text, row, col),
            EscSeq::ShowCursor => text.append(SHOW_CURSOR),
            EscSeq::HideCursor => text.append(HIDE_CURSOR),
            EscSeq::ScrollUp => text.append(SCROLL_UP),
            EscSeq::ScrollDown => text.append(SCROLL_DOWN),
            EscSeq::MvLeft => text.append(MV_LEFT),
            EscSeq::MvRight => text.append(MV_RIGHT),
            EscSeq::MvUp => text.append(MV_UP),
            EscSeq::MvDown => text.append(MV_DOWN),
        }
        text
    }
}

} // verus!
