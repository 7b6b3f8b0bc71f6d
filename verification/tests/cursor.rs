use mr_text::cursor::{from_utf8_escape_seq, parse_reply, request, Point, Reply};
use mr_text::escape::EscSeq;

#[test]
fn reply_with_row_and_column() {
    assert_eq!(parse_reply(b"\x1b[23;23R"), Reply::Position(23, 23));
    assert_eq!(parse_reply(b"\x1b[1;1R"), Reply::Position(1, 1));
    assert_eq!(parse_reply(b"\x1b[120;7R"), Reply::Position(120, 7));
    assert_eq!(parse_reply(b"\x1b[65535;65535R"), Reply::Position(65535, 65535));
    assert_eq!(parse_reply(b"\x1b[0;9R"), Reply::Position(0, 9));
    assert_eq!(parse_reply(b"\x1b[9;0R"), Reply::Position(9, 0));
}

#[test]
fn reply_without_separator_is_malformed() {
    assert_eq!(parse_reply(b"\x1b[2323R"), Reply::Malformed);
    assert_eq!(parse_reply(b"abcdefgh"), Reply::Malformed);
    assert_eq!(parse_reply(b"\x1b[23R;23"), Reply::Malformed);
}

#[test]
fn reply_that_holds_no_position_is_malformed() {
    assert_eq!(parse_reply(b"\x1b[0;0R"), Reply::Malformed);
    assert_eq!(parse_reply(b"\x1b[;abcR"), Reply::Malformed);
    assert_eq!(parse_reply(b"\x1b[65536;1R"), Reply::Malformed);
    assert_eq!(parse_reply(b"\x1b[1;65536R"), Reply::Malformed);
    assert_eq!(parse_reply(b"\x1b[1;18446744073709551616R"), Reply::Malformed);
}

#[test]
fn short_buffer_is_incomplete() {
    assert_eq!(parse_reply(b""), Reply::Incomplete);
    assert_eq!(parse_reply(b"\x1b[1;1"), Reply::Incomplete);
    assert_eq!(parse_reply(b"1;1R"), Reply::Incomplete);
}

#[test]
fn column_ends_at_the_terminator() {
    assert_eq!(parse_reply(b"\x1b[12;5R99"), Reply::Position(12, 5));
    assert_eq!(parse_reply(b"\x1b[12;5"), Reply::Position(12, 5));
    assert_eq!(parse_reply(b"\x1b[1;2;3R"), Reply::Position(1, 23));
}

#[test]
fn only_a_position_changes_the_cursor_model() {
    let mut point = Point { row: 3, col: 9 };
    assert_eq!(point.update_point(b"\x1b[2323R"), 7);
    assert_eq!(point, Point { row: 3, col: 9 });
    assert_eq!(point.update_point(b"\x1b[0;0R"), 6);
    assert_eq!(point, Point { row: 3, col: 9 });
    assert_eq!(point.update_point(b"\x1b[5;"), 0);
    assert_eq!(point, Point { row: 3, col: 9 });
    assert_eq!(point.update_point(b"\x1b[23;23R"), 8);
    assert_eq!(point, Point { row: 23, col: 23 });
}

#[test]
fn way_home_moves_and_shows_the_cursor() {
    assert_eq!(Point { row: 3, col: 4 }.go_home(), "\x1b[3;4H\x1b[?25h");
    assert_eq!(Point { row: 0, col: 65535 }.go_home(), "\x1b[0;65535H\x1b[?25h");
}

#[test]
fn escape_sequences_are_exact() {
    assert_eq!(EscSeq::ClrScrn.to_string(), "\x1b[2J");
    assert_eq!(EscSeq::ClrLn.to_string(), "\x1b[2K");
    assert_eq!(EscSeq::ClrScrnCursrEnd.to_string(), "\x1b[0J");
    assert_eq!(EscSeq::ClrLnCursrEnd.to_string(), "\x1b[0K");
    assert_eq!(EscSeq::ClrLnBeforeCursr.to_string(), "\x1b[1K");
    assert_eq!(EscSeq::GetCursorPos.to_string(), "\x1b[6n");
    assert_eq!(EscSeq::MoveCursor((12, 7)).to_string(), "\x1b[12;7H");
    assert_eq!(EscSeq::MoveCursor((0, 0)).to_string(), "\x1b[0;0H");
    assert_eq!(EscSeq::MoveCursor((65535, 100)).to_string(), "\x1b[65535;100H");
    assert_eq!(EscSeq::ShowCursor.to_string(), "\x1b[?25h");
    assert_eq!(EscSeq::HideCursor.to_string(), "\x1b[?25l");
    assert_eq!(EscSeq::ScrollUp.to_string(), "\x1b[1T");
    assert_eq!(EscSeq::ScrollDown.to_string(), "\x1b[1S");
    assert_eq!(EscSeq::MvLeft.to_string(), "\x1b[1D");
    assert_eq!(EscSeq::MvRight.to_string(), "\x1b[1C");
    assert_eq!(EscSeq::MvUp.to_string(), "\x1b[1A");
    assert_eq!(EscSeq::MvDown.to_string(), "\x1b[1B");
}

#[test]
fn request_asks_for_the_cursor_position() {
    assert_eq!(request(), "\x1b[6n");
}

#[test]
fn valid_part_of_a_buffer_becomes_text() {
    let buf: &[u8] = &[27, 91, 50, 51, 50, 59, 51, 49, 52, 82];
    assert_eq!(from_utf8_escape_seq(buf, 0, buf.len()), Some("\u{1b}[232;314R"));
    assert_eq!(from_utf8_escape_seq(buf, 2, 5), Some("232"));
    assert_eq!(from_utf8_escape_seq(buf, 6, 9), Some("314"));
    assert_eq!(from_utf8_escape_seq(buf, 4, 4), Some(""));
    assert_eq!(from_utf8_escape_seq("é€".as_bytes(), 0, 5), Some("é€"));
}

#[test]
fn invalid_part_is_cut_to_a_long_enough_valid_start() {
    // invalid from the seventh byte on: six valid bytes are more than five
    let buf: &[u8] = &[b'a', b'b', b'c', b'd', b'e', b'f', 0xFF, b'g'];
    assert_eq!(from_utf8_escape_seq(buf, 0, 8), Some("abcdef"));
    assert_eq!(from_utf8_escape_seq(buf, 1, 8), None);
    assert_eq!(from_utf8_escape_seq(buf, 0, 7), Some("abcdef"));
    assert_eq!(from_utf8_escape_seq(buf, 6, 7), None);
    // a character that is cut in two is left out
    let mut cut = b"12345".to_vec();
    cut.extend_from_slice("é€".as_bytes());
    assert_eq!(from_utf8_escape_seq(&cut, 0, 9), Some("12345é"));
    assert_eq!(from_utf8_escape_seq(&cut, 0, 6), None);
    let invalid: &[u8] = &[27, 91, 50, 0xC0, 59, 51, 82];
    assert_eq!(from_utf8_escape_seq(invalid, 0, 7), None);
}
