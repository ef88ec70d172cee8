//! The per-pixel dirty markers: a bit set from the `bit_set` crate, held
//! in an opaque wrapper behind trusted declarations. Its contents are
//! modelled as the set of pixel indices written since the markers were
//! last cleared.

use vstd::prelude::*;

verus! {

/// An opaque holder for `bit_set::BitSet`: Verus refuses to declare that
/// type itself (it carries a defaulted block-type parameter), so the set
/// lives in this hidden field and is reached only through the trusted
/// functions below.
#[verifier::external_body]
pub struct DirtySet {
    inner: bit_set::BitSet,
}

/// The set of indices that the bit set holds.
pub uninterp spec fn dirty_contents(s: DirtySet) -> Set<usize>;

/// Relies on `bit_set::BitSet::with_capacity`: a set with initially no
/// contents, able to hold `nbits` elements without resizing.
#[verifier::external_body]
pub(crate) fn dirty_new(nbits: usize) -> (s: DirtySet)
    ensures
        dirty_contents(s) == Set::<usize>::empty(),
{
    DirtySet { inner: bit_set::BitSet::with_capacity(nbits) }
}

/// Relies on `bit_set::BitSet::insert`: adds the value to the set, growing
/// the backing storage as needed.
#[verifier::external_body]
pub(crate) fn dirty_insert(s: &mut DirtySet, value: usize)
    ensures
        dirty_contents(*final(s)) == dirty_contents(*old(s)).insert(value),
{
    s.inner.insert(value);
}

/// Relies on `bit_set::BitSet::contains`: whether the set holds the value.
#[verifier::external_body]
pub(crate) fn dirty_contains(s: &DirtySet, value: usize) -> (r: bool)
    ensures
        r == dirty_contents(*s).contains(value),
{
    s.inner.contains(value)
}

/// Relies on `bit_set::BitSet::make_empty`: clears every bit, leaving the
/// set with no contents.
#[verifier::external_body]
pub(crate) fn dirty_clear(s: &mut DirtySet)
    ensures
        dirty_contents(*final(s)) == Set::<usize>::empty(),
{
    s.inner.make_empty();
}

} // verus!
