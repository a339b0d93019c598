use pty_host::bytes::{bytes_eq, parse_u16};
use pty_host::command::{decode, Command, DecodeError, Dimension, Header, Record};

fn header(name: &str, value: &str) -> Header {
    Header::new(name.as_bytes().to_vec(), value.as_bytes().to_vec())
}

fn record(headers: Vec<Header>, body: &[u8]) -> Record {
    Record::new(headers, body.to_vec())
}

fn window(rows: &str, cols: &str) -> Record {
    record(
        vec![header("type", "window"), header("rows", rows), header("cols", cols)],
        b"",
    )
}

#[test]
fn keystroke_carries_body() {
    let r = record(vec![header("type", "keystroke")], b"ls\n");
    match decode(&r) {
        Ok(Command::Keystroke(b)) => assert_eq!(b, b"ls\n".to_vec()),
        other => panic!("unexpected {:?}", other),
    }
}

#[test]
fn keystroke_keeps_raw_bytes() {
    let body = vec![0u8, 255, 27, 91, 65, 200];
    let r = record(vec![header("type", "keystroke"), header("extra", "x")], &body);
    match decode(&r) {
        Ok(Command::Keystroke(b)) => assert_eq!(b, body),
        other => panic!("unexpected {:?}", other),
    }
}

#[test]
fn keystroke_with_empty_body() {
    let r = record(vec![header("type", "keystroke")], b"");
    match decode(&r) {
        Ok(Command::Keystroke(b)) => assert!(b.is_empty()),
        other => panic!("unexpected {:?}", other),
    }
}

#[test]
fn window_gives_dimensions() {
    match decode(&window("40", "100")) {
        Ok(Command::WindowResize { rows, cols }) => {
            assert_eq!(rows, 40);
            assert_eq!(cols, 100);
        }
        other => panic!("unexpected {:?}", other),
    }
}

#[test]
fn window_extremes() {
    match decode(&window("0", "65535")) {
        Ok(Command::WindowResize { rows, cols }) => {
            assert_eq!(rows, 0);
            assert_eq!(cols, 65535);
        }
        other => panic!("unexpected {:?}", other),
    }
}

#[test]
fn window_out_of_range() {
    assert_eq!(decode(&window("65536", "80")).unwrap_err(), DecodeError::InvalidNumber);
    assert_eq!(decode(&window("24", "99999999999")).unwrap_err(), DecodeError::InvalidNumber);
}

#[test]
fn window_non_numeric() {
    assert_eq!(decode(&window("abc", "80")).unwrap_err(), DecodeError::InvalidNumber);
    assert_eq!(decode(&window("24", "")).unwrap_err(), DecodeError::InvalidNumber);
    assert_eq!(decode(&window("-1", "80")).unwrap_err(), DecodeError::InvalidNumber);
    assert_eq!(decode(&window(" 24", "80")).unwrap_err(), DecodeError::InvalidNumber);
}

#[test]
fn window_misordered_headers() {
    let r = record(
        vec![header("type", "window"), header("cols", "80"), header("rows", "24")],
        b"",
    );
    assert_eq!(decode(&r).unwrap_err(), DecodeError::MissingHeader(Dimension::Rows));
}

#[test]
fn window_missing_headers() {
    let r = record(vec![header("type", "window")], b"");
    assert_eq!(decode(&r).unwrap_err(), DecodeError::MissingHeader(Dimension::Rows));
    let r = record(vec![header("type", "window"), header("rows", "24")], b"");
    assert_eq!(decode(&r).unwrap_err(), DecodeError::MissingHeader(Dimension::Cols));
    let r = record(
        vec![header("type", "window"), header("rows", "24"), header("width", "80")],
        b"",
    );
    assert_eq!(decode(&r).unwrap_err(), DecodeError::MissingHeader(Dimension::Cols));
}

#[test]
fn no_headers() {
    let r = record(vec![], b"ls\n");
    assert_eq!(decode(&r).unwrap_err(), DecodeError::NoHeaders);
}

#[test]
fn first_header_not_type() {
    let r = record(vec![header("kind", "keystroke")], b"ls\n");
    assert_eq!(decode(&r).unwrap_err(), DecodeError::FirstHeaderNotType);
    let r = record(vec![header("rows", "24"), header("type", "keystroke")], b"ls\n");
    assert_eq!(decode(&r).unwrap_err(), DecodeError::FirstHeaderNotType);
}

#[test]
fn unrecognized_type() {
    let r = record(vec![header("type", "mouse")], b"");
    assert_eq!(decode(&r).unwrap_err(), DecodeError::UnrecognizedType);
    let r = record(vec![header("type", "Keystroke")], b"");
    assert_eq!(decode(&r).unwrap_err(), DecodeError::UnrecognizedType);
    let r = record(vec![header("type", "kéystroke")], b"");
    assert_eq!(decode(&r).unwrap_err(), DecodeError::UnrecognizedType);
}

#[test]
fn invalid_encoding() {
    let r = record(vec![Header::new(b"type".to_vec(), vec![0xff, 0xfe])], b"");
    assert_eq!(decode(&r).unwrap_err(), DecodeError::InvalidEncoding);
    let r = record(
        vec![
            header("type", "window"),
            Header::new(b"rows".to_vec(), vec![0x32, 0xc0]),
            header("cols", "80"),
        ],
        b"",
    );
    assert_eq!(decode(&r).unwrap_err(), DecodeError::InvalidEncoding);
}

#[test]
fn non_ascii_text_is_text() {
    let r = record(vec![header("type", "fenêtre")], b"");
    assert_eq!(decode(&r).unwrap_err(), DecodeError::UnrecognizedType);
    assert_eq!(decode(&window("２４", "80")).unwrap_err(), DecodeError::InvalidNumber);
    let r = record(
        vec![header("type", "window"), header("rows", "24"), Header::new(b"cols".to_vec(), vec![0xe2, 0x82])],
        b"",
    );
    assert_eq!(decode(&r).unwrap_err(), DecodeError::InvalidEncoding);
}

#[test]
fn parse_decimal() {
    assert_eq!(parse_u16(b"0"), Some(0));
    assert_eq!(parse_u16(b"007"), Some(7));
    assert_eq!(parse_u16(b"+12"), Some(12));
    assert_eq!(parse_u16(b"65535"), Some(65535));
    assert_eq!(parse_u16(b"65536"), None);
    assert_eq!(parse_u16(b""), None);
    assert_eq!(parse_u16(b"+"), None);
    assert_eq!(parse_u16(b"1a"), None);
    assert_eq!(parse_u16(b"++1"), None);
}

#[test]
fn parse_agrees_with_std() {
    for s in ["0", "1", "99", "255", "1000", "65535", "65536", "70000", "+5", "", "x", "12x"] {
        assert_eq!(parse_u16(s.as_bytes()), s.parse::<u16>().ok(), "{}", s);
    }
}

#[test]
fn byte_equality() {
    assert!(bytes_eq(b"type", b"type"));
    assert!(!bytes_eq(b"type", b"typo"));
    assert!(!bytes_eq(b"type", b"types"));
    assert!(bytes_eq(b"", b""));
}
