use mr_text::event::{DecodeError, Key, KeyEvent, ParseKey, ReadKey};
use mr_text::source::{ByteSource, ReadFault, ReadItem, ReadOutcome};

fn decode(bytes: &[u8]) -> (Result<Key, DecodeError>, usize) {
    let mut iter = ByteSource::from_bytes(bytes);
    let first = iter.next().unwrap().unwrap();
    let key = KeyEvent::parse_key(first, &mut iter);
    (key, iter.len())
}

#[test]
fn control_bytes_map_to_letters() {
    for b in 0x01u8..=0x1A {
        if b == 0x08 || b == 0x09 || b == 0x0A {
            continue;
        }
        let expected = Key::CtrlKey((b'a' + b - 1) as char);
        assert_eq!(decode(&[b]), (Ok(expected), 0));
        // whatever follows is left in the stream
        assert_eq!(decode(&[b, b'x', b'y']), (Ok(expected), 2));
    }
    assert_eq!(decode(&[0x11]).0, Ok(Key::CtrlKey('q')));
}

#[test]
fn fixed_single_bytes() {
    assert_eq!(decode(&[0x08]), (Ok(Key::Backspace), 0));
    assert_eq!(decode(&[0x09]), (Ok(Key::Tab('\t')), 0));
    assert_eq!(decode(&[0x0A]), (Ok(Key::Enter('\n')), 0));
    assert_eq!(decode(&[0x7F]), (Ok(Key::Delete), 0));
    assert_eq!(decode(&[0x00]), (Ok(Key::Letter('\0')), 0));
}

#[test]
fn alt_with_any_ascii_letter() {
    for letter in (b'a'..=b'z').chain(b'A'..=b'Z') {
        assert_eq!(decode(&[0x1B, letter]), (Ok(Key::AltKey(letter as char)), 0));
        assert_eq!(decode(&[0x1B, letter, b'!']), (Ok(Key::AltKey(letter as char)), 1));
    }
}

#[test]
fn alt_with_multi_byte_scalar() {
    let mut bytes = vec![0x1Bu8];
    bytes.extend_from_slice("€".as_bytes());
    bytes.push(b'z');
    assert_eq!(decode(&bytes), (Ok(Key::AltKey('€')), 1));
}

#[test]
fn bare_escape_at_end_of_stream() {
    assert_eq!(decode(&[0x1B]), (Ok(Key::Escape), 0));
}

#[test]
fn function_keys_after_escape_zero() {
    assert_eq!(decode(b"\x1b\x30\x50"), (Ok(Key::F(1)), 0));
    assert_eq!(decode(b"\x1b\x30\x53rest"), (Ok(Key::F(4)), 4));
    assert_eq!(decode(b"\x1b\x30\x54"), (Err(DecodeError::KeyEvent), 0));
    assert_eq!(decode(b"\x1b\x30"), (Err(DecodeError::KeyEvent), 0));
}

#[test]
fn control_sequence_after_doubled_escape() {
    assert_eq!(decode(b"\x1b[x\x1bD"), (Ok(Key::Left), 0));
    assert_eq!(decode(b"\x1b[x\x1bC"), (Ok(Key::Right), 0));
    assert_eq!(decode(b"\x1b[x\x1bA"), (Ok(Key::Up), 0));
    assert_eq!(decode(b"\x1b[x\x1bB"), (Ok(Key::Down), 0));
    assert_eq!(decode(b"\x1b[x\x1bH"), (Ok(Key::Home), 0));
    assert_eq!(decode(b"\x1b[x\x1bF"), (Ok(Key::End), 0));
    assert_eq!(decode(b"\x1b[x\x1bZ!"), (Ok(Key::TabBack), 1));
    assert_eq!(decode(b"\x1b[x\x1b[A"), (Ok(Key::F(1)), 0));
    assert_eq!(decode(b"\x1b[x\x1b[E"), (Ok(Key::F(5)), 0));
    assert_eq!(decode(b"\x1b[x\x1b[F"), (Err(DecodeError::EscapeSequence), 0));
    assert_eq!(decode(b"\x1b[xD"), (Err(DecodeError::EscapeSequence), 0));
    assert_eq!(decode(b"\x1b[x\x1bQ"), (Err(DecodeError::EscapeSequence), 0));
    assert_eq!(decode(b"\x1b[x"), (Err(DecodeError::EscapeSequence), 0));
    assert_eq!(decode(b"\x1b["), (Err(DecodeError::KeyEvent), 0));
}

#[test]
fn cursor_report_stops_at_terminator() {
    assert_eq!(decode(b"\x1b[23;23R"), (Ok(Key::CursorPos((23, 23))), 0));
    assert_eq!(decode(b"\x1b[1;80Rab"), (Ok(Key::CursorPos((1, 80))), 2));
    assert_eq!(decode(b"\x1b[65535;1R"), (Ok(Key::CursorPos((65535, 1))), 0));
    assert_eq!(decode(b"\x1b[0;7R"), (Ok(Key::CursorPos((0, 7))), 0));
    assert_eq!(decode(b"\x1b[12;34"), (Ok(Key::CursorPos((12, 34))), 0));
}

#[test]
fn cursor_report_that_holds_no_position() {
    assert_eq!(decode(b"\x1b[2323R"), (Err(DecodeError::CursorPos), 0));
    assert_eq!(decode(b"\x1b[0;0R"), (Err(DecodeError::CursorPos), 0));
    assert_eq!(decode(b"\x1b[65536;1R"), (Err(DecodeError::CursorPos), 0));
    assert_eq!(decode(b"\x1b[1;99999999999R"), (Err(DecodeError::CursorPos), 0));
    assert_eq!(decode(b"\x1b[5R;7"), (Err(DecodeError::CursorPos), 2));
}

#[test]
fn invalid_utf8_gives_up_after_four_bytes() {
    assert_eq!(decode(&[0x80, b'a', b'b', b'c', b'd']), (Err(DecodeError::InvalidUtf8), 1));
    assert_eq!(decode(&[0xC3]), (Err(DecodeError::InvalidUtf8), 0));
    assert_eq!(decode(&[0xE2, 0x82]), (Err(DecodeError::InvalidUtf8), 0));
    // an overlong encoding is no scalar value
    assert_eq!(decode(&[0xC0, 0x80, b'a', b'b', b'c']), (Err(DecodeError::InvalidUtf8), 1));
}

#[test]
fn scalars_of_every_width() {
    for ch in ['a', 'é', '€', '😀', '\u{7FF}', '\u{800}', '\u{FFFF}', '\u{10000}', '\u{10FFFF}'] {
        let mut bytes = ch.to_string().into_bytes();
        bytes.push(b'#');
        assert_eq!(decode(&bytes), (Ok(Key::Letter(ch)), 1));
    }
}

#[test]
fn failed_read_ends_the_key_only() {
    let mut source = ByteSource::new();
    source.push_read(&ReadOutcome::Data(vec![0xE2, 0x82]));
    source.push_read(&ReadOutcome::Failed);
    source.push_read(&ReadOutcome::Data(vec![b'k']));
    assert_eq!(source.len(), 4);
    let mut keys = source.read_key();
    assert_eq!(keys.next(), Some(Err(DecodeError::InvalidUtf8)));
    assert_eq!(keys.next(), Some(Ok(Key::Letter('k'))));
    assert_eq!(keys.next(), None);
}

#[test]
fn failed_first_read_is_reported_once() {
    let mut source = ByteSource::new();
    source.push_read(&ReadOutcome::Failed);
    source.push_read(&ReadOutcome::Data(vec![b'a']));
    let mut keys = source.read_key();
    assert_eq!(keys.next(), Some(Err(DecodeError::ReadBuffer)));
    assert_eq!(keys.next(), Some(Ok(Key::Letter('a'))));
    assert_eq!(keys.next(), None);
}

#[test]
fn interrupted_read_leaves_no_trace() {
    let mut source = ByteSource::new();
    source.push_read(&ReadOutcome::Data(vec![0xC3]));
    source.push_read(&ReadOutcome::Interrupted);
    source.push_read(&ReadOutcome::Data(vec![0xA9]));
    assert_eq!(source.len(), 2);
    let mut keys = source.read_key();
    assert_eq!(keys.next(), Some(Ok(Key::Letter('é'))));
    assert_eq!(keys.next(), None);
}

#[test]
fn second_byte_of_a_read_starts_the_next_key() {
    let mut keys = ByteSource::from_bytes(b"a\x1bb").read_key();
    assert_eq!(keys.next(), Some(Ok(Key::Letter('a'))));
    // the escape byte was carried over; input that arrives now follows it
    keys.push_read(&ReadOutcome::Data(vec![b'q']));
    assert_eq!(keys.next(), Some(Ok(Key::AltKey('b'))));
    assert_eq!(keys.next(), Some(Ok(Key::Letter('q'))));
    assert_eq!(keys.next(), None);
}

#[test]
fn source_hands_out_items_in_order() {
    let mut source = ByteSource::from_bytes(&[1, 2]);
    source.push_read(&ReadOutcome::Failed);
    assert_eq!(source.peek(), Some(ReadItem::Byte(1)));
    assert_eq!(source.next(), Some(Ok(1)));
    assert_eq!(source.next(), Some(Ok(2)));
    assert_eq!(source.peek(), Some(ReadItem::Fault));
    assert_eq!(source.next(), Some(Err(ReadFault)));
    assert_eq!(source.next(), None);
    assert_eq!(source.peek(), None);
}

fn poll_all(keys: &mut ParseKey, closed: bool, out: &mut Vec<Result<Key, DecodeError>>) {
    while let Some(event) = keys.poll(closed) {
        out.push(event);
    }
}

#[test]
fn scalar_split_across_reads_is_waited_for() {
    let mut keys = ByteSource::new().read_key();
    keys.push_read(&ReadOutcome::Data(vec![0xE2]));
    assert_eq!(keys.poll(false), None);
    keys.push_read(&ReadOutcome::Data(vec![0x82]));
    assert_eq!(keys.poll(false), None);
    keys.push_read(&ReadOutcome::Interrupted);
    assert_eq!(keys.poll(false), None);
    keys.push_read(&ReadOutcome::Data(vec![0xAC, b'x']));
    assert_eq!(keys.poll(false), Some(Ok(Key::Letter('€'))));
    assert_eq!(keys.poll(false), Some(Ok(Key::Letter('x'))));
    assert_eq!(keys.poll(false), None);
    assert_eq!(keys.poll(true), None);
}

#[test]
fn escape_is_the_escape_key_only_at_the_end_of_the_stream() {
    let mut keys = ByteSource::from_bytes(&[0x1B]).read_key();
    assert_eq!(keys.poll(false), None);
    assert_eq!(keys.poll(false), None);
    assert_eq!(keys.poll(true), Some(Ok(Key::Escape)));
    assert_eq!(keys.poll(true), None);

    let mut keys = ByteSource::from_bytes(&[0x1B]).read_key();
    assert_eq!(keys.poll(false), None);
    keys.push_read(&ReadOutcome::Data(vec![b'x']));
    assert_eq!(keys.poll(false), Some(Ok(Key::AltKey('x'))));
}

#[test]
fn report_in_pieces_is_waited_for() {
    let mut keys = ByteSource::from_bytes(b"\x1b[2").read_key();
    assert_eq!(keys.poll(false), None);
    keys.push_read(&ReadOutcome::Data(b"3;2".to_vec()));
    assert_eq!(keys.poll(false), None);
    keys.push_read(&ReadOutcome::Data(b"3".to_vec()));
    assert_eq!(keys.poll(false), None);
    keys.push_read(&ReadOutcome::Data(b"Rq".to_vec()));
    assert_eq!(keys.poll(false), Some(Ok(Key::CursorPos((23, 23)))));
    assert_eq!(keys.poll(false), Some(Ok(Key::Letter('q'))));
    assert_eq!(keys.poll(false), None);
}

#[test]
fn broken_off_key_is_decoded_as_it_stands_once_the_stream_is_closed() {
    let mut keys = ByteSource::from_bytes(b"\x1b[12;5").read_key();
    assert_eq!(keys.poll(false), None);
    assert_eq!(keys.poll(true), Some(Ok(Key::CursorPos((12, 5)))));
    let mut keys = ByteSource::from_bytes(&[0xC3]).read_key();
    assert_eq!(keys.poll(false), None);
    assert_eq!(keys.poll(true), Some(Err(DecodeError::InvalidUtf8)));
    let mut keys = ByteSource::from_bytes(b"\x1b[x\x1b").read_key();
    assert_eq!(keys.poll(false), None);
    assert_eq!(keys.poll(true), Some(Err(DecodeError::EscapeSequence)));
    assert_eq!(keys.poll(true), None);
}

#[test]
fn failure_that_needs_no_more_input_is_not_waited_for() {
    let mut keys = ByteSource::from_bytes(b"\x1b\x30\x54").read_key();
    assert_eq!(keys.poll(false), Some(Err(DecodeError::KeyEvent)));
    let mut source = ByteSource::from_bytes(&[0xE2]);
    source.push_read(&ReadOutcome::Failed);
    let mut keys = source.read_key();
    assert_eq!(keys.poll(false), Some(Err(DecodeError::InvalidUtf8)));
    assert_eq!(keys.poll(false), None);
}

#[test]
fn stream_cut_anywhere_decodes_to_the_same_keys() {
    let input = "\x61\x1b\x62\x1b[23;23R\x62é\x1b[x\x1bD\x1b\x30\x50€\x11".as_bytes();
    let mut whole = Vec::new();
    poll_all(&mut ByteSource::from_bytes(input).read_key(), true, &mut whole);
    assert_eq!(
        whole,
        vec![
            Ok(Key::Letter('a')),
            Ok(Key::AltKey('b')),
            Ok(Key::CursorPos((23, 23))),
            Ok(Key::Letter('b')),
            Ok(Key::Letter('é')),
            Ok(Key::Left),
            Ok(Key::F(1)),
            Ok(Key::Letter('€')),
            Ok(Key::CtrlKey('q')),
        ]
    );
    for cut in 0..=input.len() {
        for second in cut..=input.len() {
            let mut keys = ByteSource::new().read_key();
            let mut pieces = Vec::new();
            keys.push_read(&ReadOutcome::Data(input[..cut].to_vec()));
            poll_all(&mut keys, false, &mut pieces);
            keys.push_read(&ReadOutcome::Data(input[cut..second].to_vec()));
            poll_all(&mut keys, false, &mut pieces);
            keys.push_read(&ReadOutcome::Data(input[second..].to_vec()));
            poll_all(&mut keys, false, &mut pieces);
            poll_all(&mut keys, true, &mut pieces);
            assert_eq!(pieces, whole);
        }
    }
}

#[test]
fn source_remembers_that_it_ran_dry() {
    let mut source = ByteSource::from_bytes(&[7]);
    assert!(!source.has_run_dry());
    assert_eq!(source.peek(), Some(ReadItem::Byte(7)));
    assert_eq!(source.next(), Some(Ok(7)));
    assert!(!source.has_run_dry());
    assert_eq!(source.peek(), None);
    assert!(!source.has_run_dry());
    assert_eq!(source.next(), None);
    assert!(source.has_run_dry());
    source.push_bytes(&[8, 9]);
    assert!(source.has_run_dry());
    let copy = source.snapshot();
    source.refill();
    assert!(!source.has_run_dry());
    assert!(copy.has_run_dry());
    assert_eq!(source.next(), Some(Ok(8)));
    assert_eq!(copy.len(), 2);
    assert_eq!(copy.peek(), Some(ReadItem::Byte(8)));
    assert_eq!(source.len(), 1);
}

#[test]
fn decoding_a_whole_key_leaves_the_source_wet() {
    let mut iter = ByteSource::from_bytes("é!".as_bytes());
    let first = iter.next().unwrap().unwrap();
    assert_eq!(KeyEvent::parse_char(first, &mut iter), Ok('é'));
    assert!(!iter.has_run_dry());
    let mut iter = ByteSource::from_bytes(&[0x1B]);
    let first = iter.next().unwrap().unwrap();
    assert_eq!(KeyEvent::parse_key(first, &mut iter), Ok(Key::Escape));
    assert!(iter.has_run_dry());
    let mut iter = ByteSource::from_bytes(b"1;2");
    assert_eq!(KeyEvent::parse_cursor_pos(b'9', &mut iter), Ok(Key::CursorPos((91, 2))));
    assert!(iter.has_run_dry());
    let mut iter = ByteSource::from_bytes(b"1;2R");
    assert_eq!(KeyEvent::parse_cursor_pos(b'9', &mut iter), Ok(Key::CursorPos((91, 2))));
    assert!(!iter.has_run_dry());
}

#[test]
fn failed_read_inside_a_report_gives_no_position() {
    let mut iter = ByteSource::from_bytes(b";2");
    iter.push_read(&ReadOutcome::Failed);
    iter.push_read(&ReadOutcome::Data(b"3Rk".to_vec()));
    assert_eq!(KeyEvent::parse_cursor_pos(b'2', &mut iter), Err(DecodeError::CursorPos));
    assert!(!iter.has_run_dry());
    // the failed read went with the report; what lies behind it is left
    assert_eq!(iter.len(), 3);
    assert_eq!(iter.next(), Some(Ok(b'3')));

    // the same digits with a terminator in place of the failure
    let mut iter = ByteSource::from_bytes(b";2Rk");
    assert_eq!(KeyEvent::parse_cursor_pos(b'2', &mut iter), Ok(Key::CursorPos((2, 2))));
    assert_eq!(iter.len(), 1);
}

#[test]
fn decoder_goes_on_behind_a_report_cut_by_a_failed_read() {
    let mut source = ByteSource::from_bytes(b"\x1b[23;23");
    source.push_read(&ReadOutcome::Failed);
    source.push_read(&ReadOutcome::Data(b"k".to_vec()));
    let mut keys = source.read_key();
    assert_eq!(keys.poll(false), Some(Err(DecodeError::CursorPos)));
    assert_eq!(keys.poll(false), Some(Ok(Key::Letter('k'))));
    assert_eq!(keys.poll(false), None);

    let mut source = ByteSource::from_bytes(b"\x1b[7");
    source.push_read(&ReadOutcome::Failed);
    let mut keys = source.read_key();
    assert_eq!(keys.next(), Some(Err(DecodeError::CursorPos)));
    assert_eq!(keys.next(), None);
}
