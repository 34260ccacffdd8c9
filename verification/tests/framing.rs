//! The line framing of the wire format.

use battlebots::rpc::{frame_line, split_line};

#[test]
fn frame_appends_one_newline() {
    let framed = frame_line(&vec![b'a', b'b']).expect("framable");
    assert_eq!(framed, vec![b'a', b'b', b'\n']);
}

#[test]
fn frame_refuses_embedded_newline() {
    assert!(frame_line(&vec![b'a', b'\n', b'b']).is_none());
}

#[test]
fn split_takes_the_first_line_and_leaves_the_rest() {
    let buf = vec![b'h', b'i', b'\n', b'y', b'o', b'\n'];
    let (line, rest) = split_line(&buf).expect("complete line");
    assert_eq!(line, vec![b'h', b'i']);
    assert_eq!(rest, vec![b'y', b'o', b'\n']);
    let (line2, rest2) = split_line(&rest).expect("second line");
    assert_eq!(line2, vec![b'y', b'o']);
    assert!(rest2.is_empty());
}

#[test]
fn split_without_newline_reports_incomplete() {
    assert!(split_line(&vec![b'p', b'a', b'r', b't']).is_none());
    assert!(split_line(&Vec::new()).is_none());
}

#[test]
fn frame_then_split_round_trips() {
    let payload = vec![1u8, 2, 3, 200];
    let framed = frame_line(&payload).expect("framable");
    let (line, rest) = split_line(&framed).expect("complete");
    assert_eq!(line, payload);
    assert!(rest.is_empty());
}
