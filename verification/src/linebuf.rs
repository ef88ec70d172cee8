//! The bounded line buffer: an `arrayvec::ArrayVec` of 128 bytes, held
//! behind trusted declarations. Its contents are modelled as the byte
//! sequence accumulated for the line being read.

use vstd::prelude::*;

verus! {

#[verifier::external_type_specification]
#[verifier::external_body]
#[verifier::reject_recursive_types(T)]
pub struct ExArrayVec<T, const CAP: usize>(arrayvec::ArrayVec<T, CAP>);

/// The bytes the line buffer holds, in order.
pub uninterp spec fn linebuf_view(v: arrayvec::ArrayVec<u8, 128>) -> Seq<u8>;

/// Relies on `arrayvec::ArrayVec::new`: a new empty vector.
#[verifier::external_body]
pub(crate) fn linebuf_new() -> (v: arrayvec::ArrayVec<u8, 128>)
    ensures
        linebuf_view(v) == Seq::<u8>::empty(),
{
    arrayvec::ArrayVec::new()
}

/// Relies on `arrayvec::ArrayVec::len`: the number of elements, which
/// never exceeds the vector's compile-time capacity.
#[verifier::external_body]
pub(crate) fn linebuf_len(v: &arrayvec::ArrayVec<u8, 128>) -> (n: usize)
    ensures
        n == linebuf_view(*v).len(),
        n <= 128,
{
    v.len()
}

/// Relies on `arrayvec::ArrayVec::push`: appends the element; the buffer
/// is known not to be full here, so the call cannot panic.
#[verifier::external_body]
pub(crate) fn linebuf_push(v: &mut arrayvec::ArrayVec<u8, 128>, b: u8)
    requires
        linebuf_view(*old(v)).len() < 128,
    ensures
        linebuf_view(*final(v)) == linebuf_view(*old(v)).push(b),
{
    v.push(b);
}

/// Relies on `arrayvec::ArrayVec::clear`: removes every element.
#[verifier::external_body]
pub(crate) fn linebuf_clear(v: &mut arrayvec::ArrayVec<u8, 128>)
    ensures
        linebuf_view(*final(v)) == Seq::<u8>::empty(),
{
    v.clear();
}

/// Relies on `arrayvec::ArrayVec::as_slice`: the elements as a slice.
#[verifier::external_body]
pub(crate) fn linebuf_as_slice(v: &arrayvec::ArrayVec<u8, 128>) -> (s: &[u8])
    ensures
        s@ == linebuf_view(*v),
{
    v.as_slice()
}

} // verus!
