//! Iteration forwarded to the live variant.
//!
//! When both payload types produce a lazy sequence with the same element
//! type, the union produces that sequence too: every advance goes to
//! whichever variant is live, and the two sequences are never merged or
//! interleaved.  The secondary operations (size hint, reverse advance,
//! exact remaining count) are forwarded as well, never synthesized.

use vstd::prelude::*;
use vstd::std_specs::iter::IteratorSpec;

use crate::Either;

verus! {

/// Relies on `Iterator::size_hint`.  The standard library documents the
/// pair as advisory bounds that a caller must not rely on for
/// correctness, so nothing is assumed of the returned values.
#[verifier::external_body]
fn size_hint_of<I: Iterator>(it: &I) -> (r: (usize, Option<usize>)) {
    it.size_hint()
}

/// Relies on `ExactSizeIterator::len`, documented to return the exact
/// number of items remaining in the iterator.
#[verifier::external_body]
fn len_of<I: Iterator + ExactSizeIterator>(it: &I) -> (r: usize)
    ensures
        it.obeys_prophetic_iter_laws() ==> r == IteratorSpec::remaining(it).len(),
{
    it.len()
}

impl<L, R> Either<L, R> where L: Iterator, R: Iterator<Item = <L as Iterator>::Item> {
    /// Advance the live variant and return its next element, or `None`
    /// once it is exhausted.  The variant never changes, and the
    /// element comes from the front of the live variant's remaining
    /// sequence, exactly as if that variant were iterated directly.
    pub fn next(&mut self) -> (ret: Option<<L as Iterator>::Item>)
        ensures
            (*final(self) is Left) == (*old(self) is Left),
            *old(self) is Left ==> ({
                let i0 = (*old(self))->Left_0;
                let i1 = (*final(self))->Left_0;
                &&& i1.obeys_prophetic_iter_laws() == i0.obeys_prophetic_iter_laws()
                &&& (i0.obeys_prophetic_iter_laws() ==> i1.will_return_none()
                    == i0.will_return_none())
                &&& (i0.obeys_prophetic_iter_laws() ==> (if i0.remaining().len() > 0 {
                    i1.remaining() == i0.remaining().drop_first() && ret == Some(
                        i0.remaining()[0],
                    )
                } else {
                    i1.remaining() == i0.remaining() && ret is None
                }))
            }),
            *old(self) is Right ==> ({
                let i0 = (*old(self))->Right_0;
                let i1 = (*final(self))->Right_0;
                &&& i1.obeys_prophetic_iter_laws() == i0.obeys_prophetic_iter_laws()
                &&& (i0.obeys_prophetic_iter_laws() ==> i1.will_return_none()
                    == i0.will_return_none())
                &&& (i0.obeys_prophetic_iter_laws() ==> (if i0.remaining().len() > 0 {
                    i1.remaining() == i0.remaining().drop_first() && ret == Some(
                        i0.remaining()[0],
                    )
                } else {
                    i1.remaining() == i0.remaining() && ret is None
                }))
            }),
    {
        match self {
            Either::Left(inner) => inner.next(),
            Either::Right(inner) => inner.next(),
        }
    }

    /// Forward the live variant's size hint unchanged.  The standard
    /// library makes the hint advisory, so no bound is promised here
    /// beyond the forwarding itself.
    pub fn size_hint(&self) -> (r: (usize, Option<usize>)) {
        match self {
            Either::Left(inner) => size_hint_of(inner),
            Either::Right(inner) => size_hint_of(inner),
        }
    }
}

impl<L, R> Either<L, R> where
    L: DoubleEndedIterator,
    R: DoubleEndedIterator<Item = <L as Iterator>::Item>,
 {
    /// Advance the live variant from the back and return its last
    /// element, or `None` once it is exhausted.  The variant never
    /// changes, and the element comes from the back of the live
    /// variant's remaining sequence.
    pub fn next_back(&mut self) -> (ret: Option<<L as Iterator>::Item>)
        ensures
            (*final(self) is Left) == (*old(self) is Left),
            *old(self) is Left ==> ({
                let i0 = (*old(self))->Left_0;
                let i1 = (*final(self))->Left_0;
                &&& i1.obeys_prophetic_iter_laws() == i0.obeys_prophetic_iter_laws()
                &&& (i0.obeys_prophetic_iter_laws() ==> i1.will_return_none()
                    == i0.will_return_none())
                &&& (i0.obeys_prophetic_iter_laws() ==> (if i0.remaining().len() > 0 {
                    i1.remaining() == i0.remaining().drop_last() && ret == Some(
                        i0.remaining().last(),
                    )
                } else {
                    i1.remaining() == i0.remaining() && ret is None
                }))
            }),
            *old(self) is Right ==> ({
                let i0 = (*old(self))->Right_0;
                let i1 = (*final(self))->Right_0;
                &&& i1.obeys_prophetic_iter_laws() == i0.obeys_prophetic_iter_laws()
                &&& (i0.obeys_prophetic_iter_laws() ==> i1.will_return_none()
                    == i0.will_return_none())
                &&& (i0.obeys_prophetic_iter_laws() ==> (if i0.remaining().len() > 0 {
                    i1.remaining() == i0.remaining().drop_last() && ret == Some(
                        i0.remaining().last(),
                    )
                } else {
                    i1.remaining() == i0.remaining() && ret is None
                }))
            }),
    {
        match self {
            Either::Left(inner) => inner.next_back(),
            Either::Right(inner) => inner.next_back(),
        }
    }
}

impl<L, R> Either<L, R> where
    L: Iterator + ExactSizeIterator,
    R: Iterator<Item = <L as Iterator>::Item> + ExactSizeIterator,
 {
    /// Forward the live variant's exact remaining count: when the live
    /// variant's iteration obeys the standard laws, the count equals the
    /// length of its remaining sequence.
    pub fn len(&self) -> (r: usize)
        ensures
            self is Left ==> (self->Left_0.obeys_prophetic_iter_laws() ==> r
                == IteratorSpec::remaining(&self->Left_0).len()),
            self is Right ==> (self->Right_0.obeys_prophetic_iter_laws() ==> r
                == IteratorSpec::remaining(&self->Right_0).len()),
    {
        match self {
            Either::Left(inner) => len_of(inner),
            Either::Right(inner) => len_of(inner),
        }
    }
}

} // verus!
