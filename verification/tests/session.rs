use mr_text::session::{configure_raw, RawFlags, TermAttrs, TerminalSession};

fn flags() -> RawFlags {
    RawFlags {
        brkint: 0o2,
        inpck: 0o20,
        istrip: 0o40,
        ixon: 0o2000,
        opost: 0o1,
        cs8: 0o60,
        echo: 0o10,
        icanon: 0o2,
        iexten: 0o100000,
        isig: 0o1,
    }
}

fn cooked() -> TermAttrs {
    let mut c_cc = [0u8; 32];
    c_cc[0] = 3;
    c_cc[1] = 28;
    c_cc[2] = 127;
    TermAttrs {
        c_iflag: 17664,
        c_oflag: 5,
        c_cflag: 191,
        c_lflag: 35387,
        c_line: 0,
        c_cc,
        c_ispeed: 15,
        c_ospeed: 15,
    }
}

#[test]
fn raw_mode_clears_and_sets_the_right_bits() {
    let raw = configure_raw(&cooked(), &flags());
    assert_eq!(raw.c_iflag, 17664 & !(0o2 | 0o20 | 0o40 | 0o2000));
    assert_eq!(raw.c_iflag, 16640);
    assert_eq!(raw.c_oflag, 4);
    assert_eq!(raw.c_cflag, 191);
    assert_eq!(raw.c_lflag, 35387 & !(0o10 | 0o2 | 0o100000 | 0o1));
    assert_eq!(raw.c_lflag, 2608);
    assert_eq!(raw.c_line, cooked().c_line);
    assert_eq!(raw.c_cc, cooked().c_cc);
    assert_eq!(raw.c_ispeed, 15);
    assert_eq!(raw.c_ospeed, 15);
}

#[test]
fn raw_mode_forces_eight_bits() {
    let mut attrs = cooked();
    attrs.c_cflag = 0o200;
    let raw = configure_raw(&attrs, &flags());
    assert_eq!(raw.c_cflag, 0o260);
}

#[test]
fn restore_gives_back_the_snapshot() {
    let mut session = TerminalSession::acquire(cooked());
    assert_eq!(session.original(), cooked());
    assert_eq!(session.current(), cooked());
    let raw = session.enter_raw_mode(&flags()).unwrap();
    assert_eq!(raw, configure_raw(&cooked(), &flags()));
    assert_ne!(raw, cooked());
    assert_eq!(session.current(), raw);
    assert_eq!(session.original(), cooked());
    assert_eq!(session.restore(), cooked());
    assert_eq!(session.current(), cooked());
    assert_eq!(session.restore(), cooked());
    assert_eq!(session.current(), cooked());
}

#[test]
fn raw_mode_is_entered_once() {
    let mut session = TerminalSession::acquire(cooked());
    assert!(session.enter_raw_mode(&flags()).is_some());
    let current = session.current();
    assert_eq!(session.enter_raw_mode(&flags()), None);
    assert_eq!(session.current(), current);
    assert_eq!(session.restore(), cooked());
}
