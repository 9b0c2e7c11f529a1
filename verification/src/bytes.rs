//! The byte-level core shared by the blocking and the asynchronous peeks:
//! copying the not-yet-consumed bytes of a source into a caller's buffer
//! without consuming them.

use vstd::prelude::*;

use crate::externs::{io_error_kind, slice_write_all};

verus! {

/// How many bytes a peek hands out: as many unread bytes as fit in a buffer
/// of `room` bytes.
pub open spec fn peek_len(unread: Seq<u8>, room: nat) -> nat {
    if unread.len() <= room {
        unread.len()
    } else {
        room
    }
}

/// The buffer after a peek: its first `peek_len` bytes are the first unread
/// bytes, the rest of it is left as it was.
pub open spec fn peeked(unread: Seq<u8>, buf: Seq<u8>) -> Seq<u8> {
    let n = peek_len(unread, buf.len()) as int;
    unread.take(n) + buf.skip(n)
}

/// Copies the first unread bytes of `unread` into `buf`, as many as fit, and
/// returns how many were copied; the bytes of `buf` past them are untouched.
/// This is what reading from a byte slice into a buffer does.
pub fn peek_into(unread: &[u8], buf: &mut [u8]) -> (n: usize)
    ensures
        n == peek_len(unread@, old(buf)@.len()),
        final(buf)@ == peeked(unread@, old(buf)@),
{
    let n: usize = if unread.len() <= buf.len() {
        unread.len()
    } else {
        buf.len()
    };
    let mut i: usize = 0;
    while i < n
        invariant
            n == peek_len(unread@, old(buf)@.len()),
            n <= unread@.len(),
            n <= old(buf)@.len(),
            i <= n,
            buf@.len() == old(buf)@.len(),
            forall|k: int| 0 <= k < i ==> buf@[k] == unread@[k],
            forall|k: int| i <= k < buf@.len() ==> buf@[k] == old(buf)@[k],
        decreases n - i,
    {
        buf[i] = unread[i];
        i = i + 1;
    }
    assert(buf@ =~= peeked(unread@, old(buf)@));
    n
}

/// Copies all of `unread` into `buf`, as copying a reader over `unread` into
/// the byte slice `buf` does. When it fits, the result is `Ok` with the number
/// of bytes copied; when it does not, `buf` is filled with the first unread
/// bytes that fit and the result is an error of kind `WriteZero`.
pub fn copy_unread(unread: &[u8], buf: &mut [u8]) -> (r: std::io::Result<usize>)
    ensures
        final(buf)@ == peeked(unread@, old(buf)@),
        r is Ok <==> unread@.len() <= old(buf)@.len(),
        r matches Ok(n) ==> n == unread@.len(),
        r matches Err(e) ==> io_error_kind(e) == std::io::ErrorKind::WriteZero,
{
    let n = unread.len();
    match slice_write_all(buf, unread) {
        Ok(()) => Ok(n),
        Err(e) => Err(e),
    }
}

/// A peek keeps the buffer's length, puts the first unread bytes at its front,
/// and leaves the rest of it as it was.
pub proof fn lemma_peek_gives_unread_prefix(unread: Seq<u8>, buf: Seq<u8>)
    ensures
        peek_len(unread, buf.len()) <= unread.len(),
        peek_len(unread, buf.len()) <= buf.len(),
        peeked(unread, buf).len() == buf.len(),
        peeked(unread, buf).take(peek_len(unread, buf.len()) as int) == unread.take(
            peek_len(unread, buf.len()) as int,
        ),
        peeked(unread, buf).skip(peek_len(unread, buf.len()) as int) == buf.skip(
            peek_len(unread, buf.len()) as int,
        ),
{
    let n = peek_len(unread, buf.len()) as int;
    let p = peeked(unread, buf);
    assert(p.take(n) =~= unread.take(n));
    assert(p.skip(n) =~= buf.skip(n));
}

/// A peek hands out every unread byte exactly when they all fit, and fills
/// the whole buffer otherwise.
pub proof fn lemma_peek_len_cases(unread: Seq<u8>, room: nat)
    ensures
        unread.len() <= room ==> peek_len(unread, room) == unread.len(),
        room < unread.len() ==> peek_len(unread, room) == room,
{
}

/// Peeking again, with nothing read in between, gives the same count and the
/// same buffer: a peek consumes nothing.
pub proof fn lemma_peek_repeatable(unread: Seq<u8>, buf: Seq<u8>)
    ensures
        peek_len(unread, peeked(unread, buf).len()) == peek_len(unread, buf.len()),
        peeked(unread, peeked(unread, buf)) == peeked(unread, buf),
{
    lemma_peek_gives_unread_prefix(unread, buf);
    assert(peeked(unread, peeked(unread, buf)) =~= peeked(unread, buf));
}

/// When more bytes arrive behind the unread ones, a peek into a buffer of the
/// same size hands out at least as many bytes, and the ones handed out before
/// come out again in front.
pub proof fn lemma_peek_sees_appended(unread: Seq<u8>, more: Seq<u8>, buf: Seq<u8>)
    ensures
        peek_len(unread, buf.len()) <= peek_len(unread + more, buf.len()),
        peeked(unread + more, buf).take(peek_len(unread, buf.len()) as int) == peeked(
            unread,
            buf,
        ).take(peek_len(unread, buf.len()) as int),
{
    let n = peek_len(unread, buf.len()) as int;
    assert(peeked(unread + more, buf).take(n) =~= peeked(unread, buf).take(n));
}

} // verus!
