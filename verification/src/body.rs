//! Message bodies: immutable byte buffers of the `bytes` crate, seen by the
//! verifier through the sequence of bytes they hold.

use bytes::Buf;
use bytes::Bytes;
use vstd::prelude::*;

verus! {

/// `bytes::Bytes`, declared so that it can stand in signatures and fields.
/// The verifier sees nothing inside a value of it but what [`contents`]
/// names.
#[verifier::external_type_specification]
#[verifier::external_body]
pub struct ExBytes(Bytes);

/// The bytes that a buffer holds, front to back.
pub uninterp spec fn contents(b: Bytes) -> Seq<u8>;

/// `Buf::has_remaining` on `Bytes`: true exactly when at least one byte is
/// left to read.
#[verifier::external_body]
pub(crate) fn has_remaining(b: &Bytes) -> (r: bool)
    ensures
        r == (contents(*b).len() > 0),
{
    b.has_remaining()
}

/// `Buf::get_u8` on `Bytes`: hands out the front byte and advances the
/// buffer past it. The outside function panics on an empty buffer, which the
/// precondition rules out.
#[verifier::external_body]
pub(crate) fn get_u8(b: &mut Bytes) -> (r: u8)
    requires
        contents(*old(b)).len() > 0,
    ensures
        r == contents(*old(b))[0],
        contents(*final(b)) == contents(*old(b)).skip(1),
{
    b.get_u8()
}

/// `Clone::clone` on `Bytes`: a second handle on the same bytes.
#[verifier::external_body]
pub(crate) fn share(b: &Bytes) -> (r: Bytes)
    ensures
        contents(r) == contents(*b),
{
    b.clone()
}

} // verus!
