use xp_tlk::buffer::{write_binary, write_empty_text, write_text};
use xp_tlk::error::Failure;
use xp_tlk::reply::text_reply;

#[test]
fn text_that_fits_is_written_with_terminator() {
    let mut buf = [0xAAu8; 8];
    assert!(write_text(&mut buf, b"Hello"));
    assert_eq!(buf, [b'H', b'e', b'l', b'l', b'o', 0, 0xAA, 0xAA]);
}

#[test]
fn text_of_capacity_minus_one_is_not_written() {
    let mut buf = [0xAAu8; 6];
    assert!(!write_text(&mut buf, b"Hello"));
    assert_eq!(buf, [0xAAu8; 6]);
}

#[test]
fn text_of_capacity_minus_two_is_written() {
    let mut buf = [0xAAu8; 7];
    assert!(write_text(&mut buf, b"Hello"));
    assert_eq!(buf, [b'H', b'e', b'l', b'l', b'o', 0, 0xAA]);
}

#[test]
fn text_longer_than_buffer_leaves_it_untouched() {
    let mut buf = [1u8, 2, 3];
    assert!(!write_text(&mut buf, b"Hello, world"));
    assert_eq!(buf, [1, 2, 3]);
    let mut same = [7u8; 5];
    assert!(!write_text(&mut same, b"Hello"));
    assert_eq!(same, [7u8; 5]);
}

#[test]
fn empty_text_needs_two_bytes() {
    let mut two = [9u8, 9];
    assert!(write_text(&mut two, b""));
    assert_eq!(two, [0, 9]);
    let mut one = [9u8];
    assert!(!write_text(&mut one, b""));
    assert_eq!(one, [9]);
}

#[test]
fn zero_capacity_buffer_is_a_no_op() {
    let mut none: [u8; 0] = [];
    assert!(!write_text(&mut none, b""));
    assert!(!write_text(&mut none, b"abc"));
    assert!(!write_empty_text(&mut none));
    assert!(!text_reply(&mut none, Err(Failure::NoResolver)));
    assert!(write_binary(&mut none, b""));
    assert!(!write_binary(&mut none, b"a"));
    assert_eq!(none.len(), 0);
}

#[test]
fn later_writes_keep_the_tail() {
    let mut buf = [0xEEu8; 10];
    assert!(write_text(&mut buf, b"abcdef"));
    assert!(write_text(&mut buf, b"xy"));
    assert_eq!(buf, [b'x', b'y', 0, b'd', b'e', b'f', 0, 0xEE, 0xEE, 0xEE]);
}

#[test]
fn binary_is_written_without_terminator() {
    let mut exact = [0xAAu8; 4];
    assert!(write_binary(&mut exact, &[1, 2, 3, 4]));
    assert_eq!(exact, [1, 2, 3, 4]);
    let mut wide = [0xAAu8; 6];
    assert!(write_binary(&mut wide, &[1, 2, 3, 4]));
    assert_eq!(wide, [1, 2, 3, 4, 0xAA, 0xAA]);
    let mut small = [0xAAu8; 3];
    assert!(!write_binary(&mut small, &[1, 2, 3, 4]));
    assert_eq!(small, [0xAA; 3]);
}

#[test]
fn failed_text_request_gives_empty_text() {
    let mut buf = [b'o', b'l', b'd', 0];
    assert!(text_reply(&mut buf, Err(Failure::UnknownFunction)));
    assert_eq!(buf, [0, b'l', b'd', 0]);
    let mut other = [5u8; 3];
    assert!(write_empty_text(&mut other));
    assert_eq!(other, [0, 5, 5]);
    let mut two = [5u8; 2];
    assert!(text_reply(&mut two, Err(Failure::NoResolver)));
    assert_eq!(two, [0, 5]);
}

#[test]
fn failed_text_request_leaves_a_one_byte_buffer_untouched() {
    let mut one = [7u8];
    assert!(!text_reply(&mut one, Err(Failure::NoResolver)));
    assert_eq!(one, [7]);
    assert!(!text_reply(&mut one, Err(Failure::UnknownFunction)));
    assert_eq!(one, [7]);
    assert!(!write_empty_text(&mut one));
    assert_eq!(one, [7]);
    assert!(!text_reply(&mut one, Ok(b"")));
    assert_eq!(one, [7]);
}

#[test]
fn text_reply_writes_or_drops_whole_values() {
    let mut buf = [0x11u8; 6];
    assert!(text_reply(&mut buf, Ok(b"Hi")));
    assert_eq!(buf, [b'H', b'i', 0, 0x11, 0x11, 0x11]);
    assert!(!text_reply(&mut buf, Ok(b"Hello")));
    assert_eq!(buf, [b'H', b'i', 0, 0x11, 0x11, 0x11]);
    assert!(text_reply(&mut buf, Ok(b"")));
    assert_eq!(buf, [0, b'i', 0, 0x11, 0x11, 0x11]);
}
