use std::io::ErrorKind;

use io_peek::bytes::{copy_unread, peek_into};

#[test]
fn peek_into_copies_what_fits() {
    let mut buf = [0u8; 5];
    assert_eq!(peek_into(&[1, 2, 3], &mut buf), 3);
    assert_eq!(buf, [1, 2, 3, 0, 0]);

    let mut small = [9u8; 2];
    assert_eq!(peek_into(&[1, 2, 3], &mut small), 2);
    assert_eq!(small, [1, 2]);
}

#[test]
fn peek_into_from_nothing_leaves_buffer() {
    let mut buf = [4u8, 5, 6];
    assert_eq!(peek_into(&[], &mut buf), 0);
    assert_eq!(buf, [4, 5, 6]);
}

#[test]
fn peek_into_is_repeatable() {
    let src = [10u8, 20, 30, 40];
    let mut buf = [0u8; 3];
    let n1 = peek_into(&src, &mut buf);
    let after_first = buf;
    let n2 = peek_into(&src, &mut buf);
    assert_eq!(n1, n2);
    assert_eq!(buf, after_first);
}

#[test]
fn peek_into_sees_appended_bytes() {
    let mut buf = [0u8; 5];
    let n1 = peek_into(&[1, 2, 3], &mut buf);
    let before = buf;
    let n2 = peek_into(&[1, 2, 3, 4], &mut buf);
    assert!(n1 <= n2);
    assert_eq!(buf[..n1], before[..n1]);
    assert_eq!(buf, [1, 2, 3, 4, 0]);
}

#[test]
fn copy_unread_fits() {
    let mut buf = [0u8; 4];
    let n = copy_unread(&[7, 8, 9], &mut buf).unwrap();
    assert_eq!(n, 3);
    assert_eq!(buf, [7, 8, 9, 0]);
}

#[test]
fn copy_unread_too_long_is_write_zero() {
    let mut buf = [0u8; 2];
    let err = copy_unread(&[7, 8, 9], &mut buf).unwrap_err();
    assert_eq!(err.kind(), ErrorKind::WriteZero);
    assert_eq!(buf, [7, 8]);
}
