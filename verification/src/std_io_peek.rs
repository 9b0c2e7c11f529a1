//! Peeking for blocking readers: the bytes that the next read would return
//! are copied out without being consumed.

use std::io;
use std::io::Cursor;
use vstd::prelude::*;

use crate::bytes::{peek_into, peek_len, peeked};

verus! {

#[verifier::external_type_specification]
#[verifier::external_body]
#[verifier::reject_recursive_types(T)]
pub struct ExCursor<T>(Cursor<T>);

/// The bytes of a cursor over a byte vector that have not been read yet:
/// what `BufRead::fill_buf` hands out for it.
pub uninterp spec fn cursor_unread(c: Cursor<Vec<u8>>) -> Seq<u8>;

/// `std::io::BufRead::fill_buf` on a `Cursor<Vec<u8>>`. Trusted to succeed
/// (std documents that `fill_buf` fails only when an underlying reader fails,
/// and an in-memory cursor reads from none), to give the cursor's unread
/// bytes, and to leave the cursor as it was (`fill_buf` consumes nothing; on a
/// cursor it only borrows the remaining slice).
#[verifier::external_body]
fn cursor_fill_buf(c: &mut Cursor<Vec<u8>>) -> (r: io::Result<&[u8]>)
    ensures
        r matches Ok(s) && s@ == cursor_unread(*old(c)),
        *final(c) == *old(c),
{
    io::BufRead::fill_buf(c)
}

/// A reader whose next bytes can be looked at without consuming them.
pub trait Peek {
    /// Copies the bytes that the next read would return into `buf`, as many as
    /// fit, and returns how many were copied. Nothing is consumed.
    fn peek_sync(&mut self, buf: &mut [u8]) -> (r: io::Result<usize>)
        ensures
            r matches Ok(n) ==> n <= old(buf)@.len(),
    ;
}

impl Peek for Cursor<Vec<u8>> {
    fn peek_sync(&mut self, buf: &mut [u8]) -> (r: io::Result<usize>)
        ensures
            r matches Ok(n) && n == peek_len(cursor_unread(*old(self)), old(buf)@.len()),
            final(buf)@ == peeked(cursor_unread(*old(self)), old(buf)@),
            *final(self) == *old(self),
    {
        match cursor_fill_buf(self) {
            Ok(unread) => {
                let n = peek_into(unread, buf);
                Ok(n)
            },
            Err(e) => Err(e),
        }
    }
}

} // verus!
