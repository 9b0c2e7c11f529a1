//! Declarations of the std types that the library's signatures carry, and
//! the std functions that it calls, each with what it is trusted to do.

use std::io;
use std::ops::DerefMut;
use std::pin::Pin;
use std::task::{Context, Poll};
use vstd::prelude::*;

use crate::bytes::peeked;

verus! {

#[verifier::external_type_specification]
#[verifier::external_body]
#[verifier::reject_recursive_types(Ptr)]
pub struct ExPin<Ptr>(Pin<Ptr>);

#[verifier::external_type_specification]
#[verifier::reject_recursive_types(T)]
pub struct ExPoll<T>(Poll<T>);

#[verifier::external_type_specification]
#[verifier::external_body]
pub struct ExContext<'a>(Context<'a>);

#[verifier::external_type_specification]
#[verifier::external_body]
pub struct ExIoError(io::Error);

#[verifier::external_type_specification]
pub struct ExIoErrorKind(io::ErrorKind);

/// The kind of an I/O error: what `std::io::Error::kind` returns for it.
pub uninterp spec fn io_error_kind(e: io::Error) -> io::ErrorKind;

/// `std::io::Write::write_all` of `src` into the byte slice `dst`. Trusted,
/// from std's documentation of `Write` for `&mut [u8]` and of `write_all`, to
/// copy into `dst` the first bytes of `src` that fit, to succeed exactly when
/// all of `src` fits, and otherwise to fail with an error of kind `WriteZero`.
#[verifier::external_body]
pub(crate) fn slice_write_all(dst: &mut [u8], src: &[u8]) -> (r: io::Result<()>)
    ensures
        final(dst)@ == peeked(src@, old(dst)@),
        r is Ok <==> src@.len() <= old(dst)@.len(),
        r matches Err(e) ==> io_error_kind(e) == io::ErrorKind::WriteZero,
{
    let mut writer: &mut [u8] = dst;
    io::Write::write_all(&mut writer, src)
}

/// `Pin::get_mut`: unpins a pinned mutable reference to a value that may move.
/// Nothing is claimed beyond the type.
#[verifier::external_body]
pub(crate) fn pin_get_mut<'a, T: ?Sized + Unpin>(p: Pin<&'a mut T>) -> &'a mut T {
    Pin::get_mut(p)
}

/// `Pin::new`: pins a mutable reference to a value that may move. Nothing is
/// claimed beyond the type.
#[verifier::external_body]
pub(crate) fn pin_new<'a, T: ?Sized + Unpin>(r: &'a mut T) -> Pin<&'a mut T> {
    Pin::new(r)
}

/// `Pin::as_mut`: reborrows the pinned target of a pinned pointer. Nothing is
/// claimed beyond the type.
#[verifier::external_body]
pub(crate) fn pin_as_mut<'a, P: DerefMut>(p: &'a mut Pin<P>) -> Pin<&'a mut P::Target> {
    p.as_mut()
}

} // verus!
