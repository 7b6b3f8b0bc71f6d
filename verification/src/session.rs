//! The terminal session: the attributes that the terminal had when the
//! editor started, the raw mode that the editor puts it into, and the way
//! back.
//!
//! The session decides which attributes the terminal is to have; the
//! caller reads them from the terminal and applies them to it.

use vstd::prelude::*;

verus! {

/// The attributes of a terminal, as plain values.
#[derive(Debug, Clone, Copy, PartialEq, Eq)]
pub struct TermAttrs {
    pub c_iflag: u64,
    pub c_oflag: u64,
    pub c_cflag: u64,
    pub c_lflag: u64,
    pub c_line: u8,
    pub c_cc: [u8; 32],
    pub c_ispeed: u64,
    pub c_ospeed: u64,
}

/// The bits of the attribute words that raw mode is about, as the
/// platform defines them.
#[derive(Debug, Clone, Copy, PartialEq, Eq)]
pub struct RawFlags {
    /// Input: a break generates a signal.
    pub brkint: u64,
    /// Input: parity checking.
    pub inpck: u64,
    /// Input: the eighth bit is stripped.
    pub istrip: u64,
    /// Input: flow control.
    pub ixon: u64,
    /// Output: post-processing.
    pub opost: u64,
    /// Control: eight bits to a character.
    pub cs8: u64,
    /// Local: echo.
    pub echo: u64,
    /// Local: canonical mode.
    pub icanon: u64,
    /// Local: extended input processing.
    pub iexten: u64,
    /// Local: control characters generate signals.
    pub isig: u64,
}

/// The attributes of raw mode: those given, without break signals, parity
/// checking, stripping and flow control on input, without post-processing
/// of output, with eight bits to a character, and without echo, canonical
/// mode, extended processing and signals. Everything else stays.
pub open spec fn raw_of(attrs: TermAttrs, flags: RawFlags) -> TermAttrs {
    TermAttrs {
        c_iflag: attrs.c_iflag & !(flags.brkint | flags.inpck | flags.istrip | flags.ixon),
        c_oflag: attrs.c_oflag & !flags.opost,
        c_cflag: attrs.c_cflag | flags.cs8,
        c_lflag: attrs.c_lflag & !(flags.echo | flags.icanon | flags.iexten | flags.isig),
        ..attrs
    }
}

/// Computes the attributes of raw mode from the terminal's attributes.
pub fn configure_raw(attrs: &TermAttrs, flags: &RawFlags) -> (raw: TermAttrs)
    ensures
        raw == raw_of(*attrs, *flags),
{
    TermAttrs {
        c_iflag: attrs.c_iflag & !(flags.brkint | flags.inpck | flags.istrip | flags.ixon),
        c_oflag: attrs.c_oflag & !flags.opost,
        c_cflag: attrs.c_cflag | flags.cs8,
        c_lflag: attrs.c_lflag & !(flags.echo | flags.icanon | flags.iexten | flags.isig),
        c_line: attrs.c_line,
        c_cc: attrs.c_cc,
        c_ispeed: attrs.c_ispeed,
        c_ospeed: attrs.c_ospeed,
    }
}

/// What a session knows of its terminal.
pub struct SessionView {
    /// The attributes captured at the start. They never change.
    pub original: TermAttrs,
    /// The attributes that the terminal was last given.
    pub current: TermAttrs,
    /// Raw mode has been entered.
    pub raw: bool,
}

impl SessionView {
    /// The session at its start.
    pub open spec fn acquired(attrs: TermAttrs) -> SessionView {
        SessionView { original: attrs, current: attrs, raw: false }
    }

    /// The session after raw mode has been asked for. Raw mode is entered
    /// once; a second request changes nothing.
    pub open spec fn entered(self, flags: RawFlags) -> SessionView {
        if self.raw {
            self
        } else {
            SessionView { current: raw_of(self.current, flags), raw: true, ..self }
        }
    }

    /// The session after the terminal has been given its first attributes
    /// back.
    pub open spec fn restored(self) -> SessionView {
        SessionView { current: self.original, raw: false, ..self }
    }
}

/// The session of the editor with its terminal.
#[derive(Debug)]
pub struct TerminalSession {
    original: TermAttrs,
    current: TermAttrs,
    raw: bool,
}

impl View for TerminalSession {
    type V = SessionView;

    closed spec fn view(&self) -> SessionView {
        SessionView { original: self.original, current: self.current, raw: self.raw }
    }
}

impl TerminalSession {
    /// Starts a session from the attributes that the terminal has.
    pub fn acquire(attrs: TermAttrs) -> (session: Self)
        ensures
            session@ == SessionView::acquired(attrs),
    {
        TerminalSession { original: attrs, current: attrs, raw: false }
    }

    /// The attributes captured at the start.
    pub fn original(&self) -> (attrs: TermAttrs)
        ensures
            attrs == self@.original,
    {
        self.original
    }

    /// The attributes that the terminal was last given.
    pub fn current(&self) -> (attrs: TermAttrs)
        ensures
            attrs == self@.current,
    {
        self.current
    }

    /// Enters raw mode and returns the attributes to apply to the terminal,
    /// or nothing where raw mode has been entered before.
    pub fn enter_raw_mode(&mut self, flags: &RawFlags) -> (apply: Option<TermAttrs>)
        ensures
            final(self)@ == old(self)@.entered(*flags),
            apply == if old(self)@.raw {
                None
            } else {
                Some(raw_of(old(self)@.current, *flags))
            },
    {
        if self.raw {
            None
        } else {
            let raw = configure_raw(&self.current, flags);
            self.current = raw;
            self.raw = true;
            Some(raw)
        }
    }

    /// Leaves raw mode and returns the attributes to apply to the terminal:
    /// those captured at the start.
    pub fn restore(&mut self) -> (apply: TermAttrs)
        ensures
            final(self)@ == old(self)@.restored(),
            apply == old(self)@.original,
    {
        self.current = self.original;
        self.raw = false;
        self.original
    }
}

/// Whatever raw mode changed, restoring gives the terminal exactly the
/// attributes that it had when the session started, and restoring again
/// changes nothing.
pub proof fn law_restore_is_exact(attrs: TermAttrs, flags: RawFlags)
    ensures
        SessionView::acquired(attrs).entered(flags).restored() == SessionView::acquired(attrs),
        SessionView::acquired(attrs).entered(flags).restored().restored() == SessionView::acquired(
            attrs,
        ),
        SessionView::acquired(attrs).entered(flags).original == attrs,
{
}

} // verus!
