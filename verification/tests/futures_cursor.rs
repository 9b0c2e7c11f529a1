use std::io;
use std::io::ErrorKind;
use std::pin::Pin;
use std::task::Context;

use futures_executor::block_on;
use futures_util::io::{AsyncReadExt as _, Cursor};

use io_peek::futures_util_io_peek::{poll_peek_cursor, AsyncPeek, AsyncPeekExt as _, Peek};

#[test]
fn futures_cursor_sample() -> io::Result<()> {
    block_on(async {
        let mut cursor = Cursor::new(vec![1, 2, 3]);
        let mut buf = vec![0; 5];

        let n = cursor.peek_async(&mut buf).await?;
        assert_eq!(buf, vec![1, 2, 3, 0, 0]);
        assert_eq!(n, 3);

        cursor.get_mut().push(4);

        let n = cursor.peek_async(&mut buf).await?;
        assert_eq!(buf, vec![1, 2, 3, 4, 0]);
        assert_eq!(n, 4);

        let n = cursor.read(&mut buf).await?;
        assert_eq!(buf, vec![1, 2, 3, 4, 0]);
        assert_eq!(n, 4);

        Ok(())
    })
}

#[test]
fn futures_cursor_short_buffer_is_write_zero() {
    block_on(async {
        let mut cursor = Cursor::new(vec![1, 2, 3]);
        let mut buf = vec![0; 2];
        let err = cursor.peek_async(&mut buf).await.unwrap_err();
        assert_eq!(err.kind(), ErrorKind::WriteZero);
        assert_eq!(buf, vec![1, 2]);
        assert_eq!(cursor.position(), 0);
    })
}

#[test]
fn futures_cursor_from_position() {
    block_on(async {
        let mut cursor = Cursor::new(vec![1, 2, 3, 4]);
        cursor.set_position(2);
        let mut buf = vec![0; 3];
        let n = cursor.peek_async(&mut buf).await.unwrap();
        assert_eq!(n, 2);
        assert_eq!(buf, vec![3, 4, 0]);
        assert_eq!(cursor.position(), 2);
    })
}

#[test]
fn peek_future_new_resolves() {
    block_on(async {
        let mut cursor = Cursor::new(vec![5, 6]);
        let mut buf = vec![0; 2];
        let n = Peek::new(&mut cursor, &mut buf).await.unwrap();
        assert_eq!(n, 2);
        assert_eq!(buf, vec![5, 6]);
    })
}

#[test]
fn forwarding_impls_peek_the_same() {
    block_on(async {
        let mut boxed: Box<Cursor<Vec<u8>>> = Box::new(Cursor::new(vec![1, 2, 3]));
        let mut buf = vec![0; 3];
        assert_eq!(boxed.peek_async(&mut buf).await.unwrap(), 3);
        assert_eq!(buf, vec![1, 2, 3]);

        let mut inner = Cursor::new(vec![4, 5, 6]);
        let mut by_ref: &mut Cursor<Vec<u8>> = &mut inner;
        let mut buf = vec![0; 3];
        assert_eq!(by_ref.peek_async(&mut buf).await.unwrap(), 3);
        assert_eq!(buf, vec![4, 5, 6]);

        let mut pinned: Pin<Box<Cursor<Vec<u8>>>> = Box::pin(Cursor::new(vec![7, 8, 9]));
        let mut buf = vec![0; 3];
        assert_eq!(pinned.peek_async(&mut buf).await.unwrap(), 3);
        assert_eq!(buf, vec![7, 8, 9]);

        let mut direct = Cursor::new(vec![1]);
        let mut buf = vec![0; 1];
        let n = futures_util::future::poll_fn(|cx| Pin::new(&mut direct).poll_peek(cx, &mut buf))
            .await
            .unwrap();
        assert_eq!(n, 1);
    })
}

#[test]
fn poll_peek_cursor_reports_each_outcome() {
    let mut cx = Context::from_waker(futures_util::task::noop_waker_ref());
    let mut cursor = Cursor::new(vec![1, 2, 3]);

    let mut buf = vec![0; 4];
    let n = poll_peek_cursor(&mut cursor, &mut cx, &mut buf).unwrap().unwrap();
    assert_eq!(n, 3);
    assert_eq!(buf, vec![1, 2, 3, 0]);

    let mut short = vec![0; 2];
    let err = poll_peek_cursor(&mut cursor, &mut cx, &mut short).unwrap().unwrap_err();
    assert_eq!(err.kind(), ErrorKind::WriteZero);
    assert_eq!(short, vec![1, 2]);

    let again = poll_peek_cursor(&mut cursor, &mut cx, &mut short).unwrap().unwrap_err();
    assert_eq!(again.kind(), ErrorKind::WriteZero);
    assert_eq!(short, vec![1, 2]);
    assert_eq!(cursor.position(), 0);
}

#[test]
fn futures_cursor_peek_keeps_position_and_data() {
    block_on(async {
        let mut cursor = Cursor::new(vec![1, 2, 3]);
        let mut buf = vec![0; 5];
        cursor.peek_async(&mut buf).await.unwrap();
        cursor.get_mut().push(4);
        assert_eq!(cursor.peek_async(&mut buf).await.unwrap(), 4);
        assert_eq!(cursor.position(), 0);
        assert_eq!(cursor.get_ref(), &vec![1, 2, 3, 4]);

        cursor.set_position(10);
        let mut short = vec![7; 2];
        assert_eq!(cursor.peek_async(&mut short).await.unwrap(), 0);
        assert_eq!(short, vec![7, 7]);
        assert_eq!(cursor.position(), 10);
    })
}

#[test]
fn futures_peek_dropped_unpolled_changes_nothing() {
    let mut cursor = Cursor::new(vec![1, 2, 3]);
    let mut buf = vec![5; 3];
    let future = cursor.peek_async(&mut buf);
    drop(future);
    assert_eq!(buf, vec![5, 5, 5]);
    assert_eq!(cursor.position(), 0);
}
