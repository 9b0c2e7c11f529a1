//! Peeking for asynchronous readers: a poll-based `AsyncPeek`, its forwarding
//! impls for pointers, an impl for `futures_util::io::Cursor`, and the `Peek`
//! future that `AsyncPeekExt::peek_async` returns.

use std::future::Future;
use std::io;
use std::ops::DerefMut;
use std::pin::Pin;
use std::task::{Context, Poll};

use futures_util::io::AsyncBufRead;
use futures_util::io::Cursor as AsyncCursor;
use vstd::prelude::*;

use crate::bytes::{copy_unread, peeked};
use crate::externs::{io_error_kind, pin_as_mut, pin_get_mut, pin_new};

verus! {

/// A reader whose next bytes can be looked at, by polling, without consuming
/// them.
pub trait AsyncPeek {
    /// Attempts to copy the bytes that the next read would return into `buf`,
    /// returning how many were copied once ready. Nothing is consumed.
    fn poll_peek(self: Pin<&mut Self>, cx: &mut Context<'_>, buf: &mut [u8]) -> (r: Poll<
        io::Result<usize>,
    >)
        ensures
            r matches Poll::Ready(Ok(n)) ==> n <= old(buf)@.len(),
    ;
}

impl<T: ?Sized + AsyncPeek + Unpin> AsyncPeek for Box<T> {
    fn poll_peek(self: Pin<&mut Self>, cx: &mut Context<'_>, buf: &mut [u8]) -> (r: Poll<
        io::Result<usize>,
    >)
        ensures
            exists|q: (Pin<&mut T>, &mut Context<'_>, &mut [u8])|
                #[trigger] <T as AsyncPeek>::poll_peek.ensures(q, r) && q.2@ == old(buf)@
                    && final(q.2)@ == final(buf)@,
    {
        let this: &mut Box<T> = pin_get_mut(self);
        let inner_poll_peek = <T as AsyncPeek>::poll_peek;
        inner_poll_peek(pin_new(&mut **this), cx, buf)
    }
}

impl<T: ?Sized + AsyncPeek + Unpin> AsyncPeek for &mut T {
    fn poll_peek(self: Pin<&mut Self>, cx: &mut Context<'_>, buf: &mut [u8]) -> (r: Poll<
        io::Result<usize>,
    >)
        ensures
            exists|q: (Pin<&mut T>, &mut Context<'_>, &mut [u8])|
                #[trigger] <T as AsyncPeek>::poll_peek.ensures(q, r) && q.2@ == old(buf)@
                    && final(q.2)@ == final(buf)@,
    {
        let this: &mut &mut T = pin_get_mut(self);
        let inner_poll_peek = <T as AsyncPeek>::poll_peek;
        inner_poll_peek(pin_new(&mut **this), cx, buf)
    }
}

impl<P> AsyncPeek for Pin<P> where P: DerefMut + Unpin, P::Target: AsyncPeek, Pin<P>: Unpin {
    fn poll_peek(self: Pin<&mut Self>, cx: &mut Context<'_>, buf: &mut [u8]) -> (r: Poll<
        io::Result<usize>,
    >)
        ensures
            exists|q: (Pin<&mut P::Target>, &mut Context<'_>, &mut [u8])|
                #[trigger] <P::Target as AsyncPeek>::poll_peek.ensures(q, r) && q.2@ == old(buf)@
                    && final(q.2)@ == final(buf)@,
    {
        let this: &mut Pin<P> = pin_get_mut(self);
        let inner_poll_peek = <P::Target as AsyncPeek>::poll_peek;
        inner_poll_peek(pin_as_mut(this), cx, buf)
    }
}

#[verifier::external_type_specification]
#[verifier::external_body]
#[verifier::reject_recursive_types(T)]
pub struct ExAsyncCursor<T>(AsyncCursor<T>);

/// The bytes of an asynchronous cursor over a byte vector that have not been
/// read yet: what `AsyncBufRead::poll_fill_buf` hands out for it.
pub uninterp spec fn async_cursor_unread(c: AsyncCursor<Vec<u8>>) -> Seq<u8>;

/// The unread bytes of an asynchronous cursor reached through a pinned
/// reference: what `AsyncBufRead::poll_fill_buf` hands out for it.
pub uninterp spec fn pinned_cursor_unread(p: Pin<&mut AsyncCursor<Vec<u8>>>) -> Seq<u8>;

/// `AsyncBufRead::poll_fill_buf` on a `futures_util::io::Cursor<Vec<u8>>`, with
/// the poll turned into an `Option` (`None` for pending). Trusted to be always
/// ready (the crate's source wraps the inner std cursor's `fill_buf` in
/// `Poll::Ready`), to succeed (std's `fill_buf` fails only when an underlying
/// reader fails, and an in-memory cursor reads from none), to give the
/// cursor's unread bytes, and to leave the cursor as it was.
#[verifier::external_body]
fn cursor_poll_fill_buf<'a>(c: &'a mut AsyncCursor<Vec<u8>>, cx: &mut Context<'_>) -> (r: Option<
    io::Result<&'a [u8]>,
>)
    ensures
        r matches Some(Ok(s)) && s@ == async_cursor_unread(*old(c)),
        *final(c) == *old(c),
{
    match AsyncBufRead::poll_fill_buf(Pin::new(c), cx) {
        Poll::Ready(r) => Some(r),
        Poll::Pending => None,
    }
}

/// `Pin::get_mut` for the cursor, which is `Unpin` although the declared type
/// does not show it: it unpins a pinned reference to it. Trusted to reach the same cursor,
/// so that its unread bytes are those of the pinned one.
#[verifier::external_body]
fn cursor_get_mut<'a>(p: Pin<&'a mut AsyncCursor<Vec<u8>>>) -> (r: &'a mut AsyncCursor<Vec<u8>>)
    ensures
        async_cursor_unread(*r) == pinned_cursor_unread(p),
{
    Pin::get_mut(p)
}

/// One poll of a peek on an asynchronous cursor, `None` standing for pending.
/// It is always ready; all unread bytes are copied into `buf` when they fit,
/// and the result is their count; when they do not fit, `buf` is filled with
/// the first of them and the result is an error of kind `WriteZero`. The
/// cursor is left as it was.
pub fn poll_peek_cursor(c: &mut AsyncCursor<Vec<u8>>, cx: &mut Context<'_>, buf: &mut [u8]) -> (r:
    Option<io::Result<usize>>)
    ensures
        r is Some,
        *final(c) == *old(c),
        final(buf)@ == peeked(async_cursor_unread(*old(c)), old(buf)@),
        r matches Some(Ok(_)) <==> async_cursor_unread(*old(c)).len() <= old(buf)@.len(),
        r matches Some(Ok(n)) ==> n == async_cursor_unread(*old(c)).len(),
        r matches Some(Err(e)) ==> io_error_kind(e) == io::ErrorKind::WriteZero,
{
    match cursor_poll_fill_buf(c, cx) {
        Some(Ok(unread)) => Some(copy_unread(unread, buf)),
        Some(Err(e)) => Some(Err(e)),
        None => None,
    }
}

impl AsyncPeek for AsyncCursor<Vec<u8>> {
    fn poll_peek(self: Pin<&mut Self>, cx: &mut Context<'_>, buf: &mut [u8]) -> (r: Poll<
        io::Result<usize>,
    >)
        ensures
            r is Ready,
            final(buf)@ == peeked(pinned_cursor_unread(self), old(buf)@),
            r matches Poll::Ready(Ok(_)) <==> pinned_cursor_unread(self).len() <= old(buf)@.len(),
            r matches Poll::Ready(Ok(n)) ==> n == pinned_cursor_unread(self).len(),
            r matches Poll::Ready(Err(e)) ==> io_error_kind(e) == io::ErrorKind::WriteZero,
    {
        let c: &mut AsyncCursor<Vec<u8>> = cursor_get_mut(self);
        match poll_peek_cursor(c, cx, buf) {
            Some(r) => Poll::Ready(r),
            None => Poll::Pending,
        }
    }
}

/// `r` is the reference that unpinning `p` gives back.
pub closed spec fn unpinned_to<T: ?Sized + Unpin>(p: Pin<&mut T>, r: &mut T) -> bool {
    pin_get_mut::<T>.ensures((p,), r)
}

/// The future of one peek into `buf` from `reader`.
pub struct Peek<'a, R: ?Sized> {
    reader: &'a mut R,
    buf: &'a mut [u8],
}

impl<R: ?Sized + Unpin> Unpin for Peek<'_, R> {}

impl<'a, R: ?Sized> Peek<'a, R> {
    /// The reader that the future peeks from.
    pub closed spec fn reader(&self) -> &R {
        &*self.reader
    }

    /// The buffer that the future peeks into.
    pub closed spec fn buffer(&self) -> Seq<u8> {
        self.buf@
    }
}

impl<'a, R: AsyncPeek + ?Sized + Unpin> Peek<'a, R> {
    /// The future that peeks from `reader` into `buf` when polled. Until it is
    /// polled, the reader and the buffer are left as they are: one dropped
    /// unpolled hands both back unchanged.
    pub fn new(reader: &'a mut R, buf: &'a mut [u8]) -> (p: Self)
        ensures
            p.reader() == &*old(reader),
            p.buffer() == old(buf)@,
            has_resolved(p) ==> &*final(reader) == &*old(reader) && final(buf)@ == old(buf)@,
    {
        Peek { reader, buf }
    }
}

impl<R: AsyncPeek + ?Sized + Unpin> Future for Peek<'_, R> {
    type Output = io::Result<usize>;

    /// Polls the reader's peek (through `&mut R`, as `AsyncPeek` for `&mut T`
    /// does) with the whole buffer that the future holds: the result is one
    /// that the reader's `poll_peek` gives for that buffer, which it leaves as
    /// that poll left it.
    fn poll(self: Pin<&mut Self>, cx: &mut Context<'_>) -> (r: Poll<Self::Output>)
        ensures
            exists|this: &mut Peek<'_, R>|
                #[trigger] unpinned_to(self, this)
                && exists|q: (Pin<&mut &mut R>, &mut Context<'_>, &mut [u8])|
                    #[trigger] <&mut R as AsyncPeek>::poll_peek.ensures(q, r)
                    && q.2@ == this.buffer()
                    && final(q.2)@ == final(this).buffer(),
    {
        let ghost pinned = self;
        let unpin = pin_get_mut::<Peek<'_, R>>;
        let this: &mut Peek<'_, R> = unpin(self);
        assert(unpinned_to(pinned, this));
        let reader_poll_peek = <&mut R as AsyncPeek>::poll_peek;
        let r = reader_poll_peek(pin_new(&mut this.reader), cx, &mut *this.buf);
        r
    }
}

/// Peeking through a `Box` is transparent: whatever holds of every poll of the
/// boxed reader's own `poll_peek` (of its result, and of the buffer before and
/// after) holds of a poll through the box, on the caller's whole buffer.
pub proof fn lemma_box_poll_peek_transparent<T: ?Sized + AsyncPeek + Unpin>(
    holds: spec_fn(Seq<u8>, Seq<u8>, Poll<io::Result<usize>>) -> bool,
    q: (Pin<&mut Box<T>>, &mut Context<'_>, &mut [u8]),
    r: Poll<io::Result<usize>>,
)
    requires
        forall|qi: (Pin<&mut T>, &mut Context<'_>, &mut [u8]), ri: Poll<io::Result<usize>>|
            #[trigger] <T as AsyncPeek>::poll_peek.ensures(qi, ri) ==> holds(qi.2@, final(qi.2)@, ri),
        <Box<T> as AsyncPeek>::poll_peek.ensures(q, r),
    ensures
        holds(old(q.2)@, final(q.2)@, r),
{
}

/// Peeking through a `&mut` is transparent: whatever holds of every poll of
/// the referenced reader's own `poll_peek` holds of a poll through the
/// reference, on the caller's whole buffer.
pub proof fn lemma_ref_poll_peek_transparent<T: ?Sized + AsyncPeek + Unpin>(
    holds: spec_fn(Seq<u8>, Seq<u8>, Poll<io::Result<usize>>) -> bool,
    q: (Pin<&mut &mut T>, &mut Context<'_>, &mut [u8]),
    r: Poll<io::Result<usize>>,
)
    requires
        forall|qi: (Pin<&mut T>, &mut Context<'_>, &mut [u8]), ri: Poll<io::Result<usize>>|
            #[trigger] <T as AsyncPeek>::poll_peek.ensures(qi, ri) ==> holds(qi.2@, final(qi.2)@, ri),
        <&mut T as AsyncPeek>::poll_peek.ensures(q, r),
    ensures
        holds(old(q.2)@, final(q.2)@, r),
{
}

/// Peeking through a pinned pointer is transparent: whatever holds of every
/// poll of the pointed-to reader's own `poll_peek` holds of a poll through the
/// pin, on the caller's whole buffer.
pub proof fn lemma_pin_poll_peek_transparent<P>(
    holds: spec_fn(Seq<u8>, Seq<u8>, Poll<io::Result<usize>>) -> bool,
    q: (Pin<&mut Pin<P>>, &mut Context<'_>, &mut [u8]),
    r: Poll<io::Result<usize>>,
) where P: DerefMut + Unpin, P::Target: AsyncPeek, Pin<P>: Unpin
    requires
        forall|qi: (Pin<&mut P::Target>, &mut Context<'_>, &mut [u8]), ri: Poll<io::Result<usize>>|
            #[trigger] <P::Target as AsyncPeek>::poll_peek.ensures(qi, ri) ==> holds(
                qi.2@,
                final(qi.2)@,
                ri,
            ),
        <Pin<P> as AsyncPeek>::poll_peek.ensures(q, r),
    ensures
        holds(old(q.2)@, final(q.2)@, r),
{
}

/// Polling a peek future peeks its reader with the whole buffer that the
/// future holds. `Future::poll` of `Peek` ensures that its result comes from
/// a poll of the `&mut` reader over the future's buffer (before and after);
/// from that, whatever holds of every poll of the reader's own `poll_peek`
/// holds of the future's poll, over the future's buffer.
pub proof fn lemma_peek_future_transparent<'a, R: AsyncPeek + ?Sized + Unpin>(
    holds: spec_fn(Seq<u8>, Seq<u8>, Poll<io::Result<usize>>) -> bool,
    future: &mut Peek<'a, R>,
    q: (Pin<&mut &mut R>, &mut Context<'_>, &mut [u8]),
    r: Poll<io::Result<usize>>,
)
    requires
        forall|qi: (Pin<&mut R>, &mut Context<'_>, &mut [u8]), ri: Poll<io::Result<usize>>|
            #[trigger] <R as AsyncPeek>::poll_peek.ensures(qi, ri) ==> holds(qi.2@, final(qi.2)@, ri),
        <&mut R as AsyncPeek>::poll_peek.ensures(q, r),
        q.2@ == old(future).buffer(),
        final(q.2)@ == final(future).buffer(),
    ensures
        holds(old(future).buffer(), final(future).buffer(), r),
{
    lemma_ref_poll_peek_transparent(holds, q, r);
}

/// Adds `peek_async` to every `AsyncPeek`.
pub trait AsyncPeekExt: AsyncPeek {
    /// A future that peeks into `buf`: it resolves to the number of bytes
    /// copied, and consumes nothing. One dropped unpolled leaves the reader and
    /// the buffer unchanged.
    fn peek_async<'a>(&'a mut self, buf: &'a mut [u8]) -> (p: Peek<'a, Self>) where Self: Unpin
        ensures
            p.reader() == &*old(self),
            p.buffer() == old(buf)@,
            has_resolved(p) ==> &*final(self) == &*old(self) && final(buf)@ == old(buf)@,
    {
        Peek::new(self, buf)
    }
}

impl<R: AsyncPeek + ?Sized> AsyncPeekExt for R {}


} // verus!
