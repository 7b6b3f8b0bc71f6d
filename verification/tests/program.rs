use mr_text::cursor::Point;
use mr_text::document::{Document, NewDocument};
use mr_text::event::{DecodeError, Key, ReadKey};
use mr_text::program::MrText;
use mr_text::screen::DrawScreen;
use mr_text::session::TermAttrs;
use mr_text::source::{ByteSource, ReadOutcome};

fn term_attrs() -> TermAttrs {
    TermAttrs {
        c_iflag: 1,
        c_oflag: 2,
        c_cflag: 3,
        c_lflag: 4,
        c_line: 5,
        c_cc: [6u8; 32],
        c_ispeed: 7,
        c_ospeed: 8,
    }
}

fn editor() -> MrText<NewDocument> {
    MrText::new(24, 80, term_attrs()).0
}

#[test]
fn first_screen_is_cleared_and_drawn() {
    let (editor, text) = MrText::<NewDocument>::new(24, 80, term_attrs());
    let screen = editor.screen();
    assert_eq!(
        text,
        format!("\x1b[2J{}{}", screen.draw_numbered_lm(), screen.draw_ml_area())
    );
    assert!(text.starts_with("\x1b[2J\x1b[?25l\x1b[1;4H\x1b[1K\x1b[1;1H=>\x1b[?25l\x1b[2;4H\x1b[1K\x1b[2;3H1"));
    assert!(text.ends_with("R: 1, C: 4\x1b[1;4H\x1b[?25h"));
    assert_eq!(screen.cursor(), Point { row: 1, col: 4 });
    assert_eq!(screen.copy_original_term(), term_attrs());
    assert!(!editor.is_quitting());
}

#[test]
fn typing_then_quitting_ends_the_loop() {
    let mut editor = editor();
    let mut keys = ByteSource::from_bytes(b"a\x11zz").read_key();
    let text = editor.run(&mut keys, 0);
    assert_eq!(text, "a\x1b[6n\x1b[2J");
    assert_eq!(editor.screen().rope().to_string(), "a");
    assert!(editor.is_quitting());
    // nothing behind the key that quits was touched
    assert_eq!(keys.next(), Some(Ok(Key::Letter('z'))));
    assert_eq!(keys.next(), Some(Ok(Key::Letter('z'))));
    assert_eq!(keys.next(), None);
}

#[test]
fn loop_ends_with_the_input() {
    let mut editor = editor();
    let mut keys = ByteSource::from_bytes("hé\t".as_bytes()).read_key();
    let text = editor.run(&mut keys, 0);
    assert_eq!(text, "h\x1b[6né\x1b[6n\t\x1b[6n\x1b[2J");
    assert_eq!(editor.screen().rope().to_string(), "hé\t");
    assert!(editor.is_quitting());
    assert_eq!(keys.next(), None);
}

#[test]
fn reported_position_redraws_margin_and_mode_line() {
    let mut editor = editor();
    let mut keys = ByteSource::from_bytes(b"\x1b[3;9R").read_key();
    let text = editor.run(&mut keys, 0);
    let screen = editor.screen();
    assert_eq!(screen.cursor(), Point { row: 3, col: 9 });
    assert_eq!(
        text,
        format!(
            "\x1b[?25l\x1b[24;0H\x1b[2KCursorPos(R: 3 C: 9)\x1b[3;9H\x1b[?25h{}{}\x1b[2J",
            screen.draw_numbered_lm(),
            screen.draw_ml()
        )
    );
}

#[test]
fn decoding_error_goes_to_the_echo_area() {
    let mut editor = editor();
    let out = editor.event_loop(Some(Err(DecodeError::InvalidUtf8)), 40);
    assert_eq!(
        out,
        Some(
            "\x1b[?25l\x1b[24;0H\x1b[2KR: 1, C: 4\x1b[24;13HInvalid Utf8.\x1b[1;4H\x1b[?25h"
                .to_string()
        )
    );
    assert_eq!(editor.screen().echo_area(), "Invalid Utf8.");
    assert!(!editor.is_quitting());
    // the text is let go at the end of the first turn after its time
    assert_eq!(editor.event_loop(Some(Ok(Key::Letter('a'))), 42), Some("a\x1b[6n".to_string()));
    assert_eq!(editor.screen().echo_area(), "Invalid Utf8.");
    assert_eq!(editor.event_loop(Some(Ok(Key::Letter('b'))), 43), Some("b\x1b[6n".to_string()));
    assert_eq!(editor.screen().echo_area(), "");
}

#[test]
fn every_key_is_followed_by_a_position_request() {
    let mut editor = editor();
    assert_eq!(
        editor.event_loop(Some(Ok(Key::CtrlKey('n'))), 0),
        Some("\x1b[1B\x1b[6n".to_string())
    );
    assert_eq!(editor.event_loop(Some(Ok(Key::F(3))), 0), Some("\x1b[6n".to_string()));
    assert_eq!(editor.screen().echo_area(), "Key unimplemented");
    assert_eq!(editor.screen().cursor(), Point { row: 2, col: 4 });
}

#[test]
fn end_of_input_and_quit_key_end_the_loop() {
    let mut editor = editor();
    assert_eq!(editor.event_loop(None, 0), None);
    assert!(editor.is_quitting());
    let mut editor = MrText::<Document>::new(3, 1, term_attrs()).0;
    assert_eq!(editor.event_loop(Some(Ok(Key::CtrlKey('q'))), 0), None);
    assert!(editor.is_quitting());
}

#[test]
fn failed_read_is_reported_and_the_loop_goes_on() {
    let mut source = ByteSource::new();
    source.push_read(&ReadOutcome::Failed);
    source.push_read(&ReadOutcome::Data(vec![b'k']));
    let mut keys = source.read_key();
    let mut editor = editor();
    let text = editor.run(&mut keys, 5);
    assert_eq!(
        text,
        "\x1b[?25l\x1b[24;0H\x1b[2KR: 1, C: 4\x1b[24;13HCould not read buffer.\x1b[1;4H\x1b[?25h\
         k\x1b[6n\x1b[2J"
    );
    assert_eq!(editor.screen().rope().to_string(), "k");
}

#[test]
fn opened_document_or_a_word_in_the_echo_area() {
    let mut editor = MrText::<Document>::new(24, 80, term_attrs()).0;
    editor.open_doc(Some(Document::load_file("a.txt", "text")), 0);
    assert!(editor.screen().echo_area_is_empty());
    editor.open_doc(None, 3);
    assert_eq!(editor.screen().echo_area(), "Failed to open file.");
    assert!(editor.screen().echo_area_timer_done(6));
}

#[test]
fn failed_write_is_told_in_the_echo_area() {
    let mut editor = editor();
    editor.write_failed("Broken pipe (os error 32)", 9);
    assert_eq!(
        editor.screen().echo_area(),
        "Error: Broken pipe (os error 32)Mr-Text found an error."
    );
    assert!(!editor.is_quitting());
    assert!(!editor.screen().echo_area_timer_done(11));
    assert!(editor.screen().echo_area_timer_done(12));
}

#[test]
fn report_cut_by_a_failed_read_leaves_the_cursor_model() {
    let mut source = ByteSource::from_bytes(b"\x1b[9;9");
    source.push_read(&ReadOutcome::Failed);
    let mut keys = source.read_key();
    let mut editor = editor();
    let text = editor.run(&mut keys, 0);
    assert_eq!(editor.screen().cursor(), Point { row: 1, col: 4 });
    assert_eq!(editor.screen().echo_area(), "Could not parse cursor pos.");
    assert!(text.contains("Could not parse cursor pos."));
}
