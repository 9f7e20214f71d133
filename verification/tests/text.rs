use xp_tlk::text::{append, bytes_eq, copy_all, copy_range, find_break, nth_field, token_at};

#[test]
fn bytes_compare_by_content() {
    assert!(bytes_eq(b"", b""));
    assert!(bytes_eq(b"load", b"load"));
    assert!(!bytes_eq(b"load", b"loaf"));
    assert!(!bytes_eq(b"load", b"loa"));
    assert!(!bytes_eq(b"load", b"Load"));
    assert!(!bytes_eq(b"load", b"loaded"));
}

#[test]
fn ranges_are_copied() {
    assert_eq!(copy_range(b"hello", 1, 4), b"ell".to_vec());
    assert_eq!(copy_range(b"hello", 0, 5), b"hello".to_vec());
    assert_eq!(copy_range(b"hello", 5, 5), Vec::<u8>::new());
}

#[test]
fn breaks_are_found() {
    assert_eq!(find_break(b"ab\ncd\n", 0), 2);
    assert_eq!(find_break(b"ab\ncd\n", 2), 2);
    assert_eq!(find_break(b"ab\ncd\n", 3), 5);
    assert_eq!(find_break(b"ab\ncd", 3), 5);
    assert_eq!(find_break(b"", 0), 0);
}

#[test]
fn fields_are_split_at_newlines() {
    let s = b"main\nbase.tlk\n\nuser.tlk";
    assert_eq!(nth_field(s, 0), Some(b"main".to_vec()));
    assert_eq!(nth_field(s, 1), Some(b"base.tlk".to_vec()));
    assert_eq!(nth_field(s, 2), Some(Vec::new()));
    assert_eq!(nth_field(s, 3), Some(b"user.tlk".to_vec()));
    assert_eq!(nth_field(s, 4), None);
}

#[test]
fn empty_text_has_one_empty_field() {
    assert_eq!(nth_field(b"", 0), Some(Vec::new()));
    assert_eq!(nth_field(b"", 1), None);
    assert_eq!(nth_field(b"\n", 0), Some(Vec::new()));
    assert_eq!(nth_field(b"\n", 1), Some(Vec::new()));
    assert_eq!(nth_field(b"\n", 2), None);
    assert_eq!(nth_field(b"key", 1), None);
}

#[test]
fn tokens_are_found_where_they_stand() {
    assert!(token_at(b"a${X}b", 1, b"${X}"));
    assert!(!token_at(b"a${X}b", 0, b"${X}"));
    assert!(!token_at(b"a${X}b", 2, b"${X}"));
    assert!(!token_at(b"a${X", 1, b"${X}"));
    assert!(!token_at(b"abc", 1, b""));
    assert!(!token_at(b"abc", 3, b"c"));
}

#[test]
fn bytes_are_appended() {
    let mut out = b"ab".to_vec();
    append(&mut out, b"cd");
    append(&mut out, b"");
    assert_eq!(out, b"abcd".to_vec());
    assert_eq!(copy_all(b"xyz"), b"xyz".to_vec());
    assert_eq!(copy_all(b""), Vec::<u8>::new());
}
