//! A two-variant tagged union that treats both sides equally.
//!
//! `Either<L, R>` holds exactly one value, of type `L` (the `Left`
//! variant) or of type `R` (the `Right` variant).  Neither variant is a
//! default or an error case.  When both payload types share a standard
//! capability (iteration, byte-stream reading or writing, reference
//! coercion), the union forwards that capability to whichever variant
//! is live, so that code generic over the capability accepts a union
//! wherever it would accept a bare `L` or `R`.

use vstd::prelude::*;

pub mod convert;
pub mod io;
pub mod iter;

pub use Either::Left;
pub use Either::Right;

verus! {

/// `Either` represents an alternative holding one value out of
/// either of the two possible values.
///
/// `Either` treats the two cases `Left` and `Right` equally, with
/// no priority.
#[derive(Copy, Clone, PartialEq, Eq, PartialOrd, Ord, Hash, Debug)]
pub enum Either<L, R> {
    /// A value of type `L`.
    Left(L),
    /// A value of type `R`.
    Right(R),
}

impl<L, R> Either<L, R> {
    /// True exactly when the `Left` variant is live.
    pub fn is_left(&self) -> (r: bool)
        ensures
            r == (self is Left),
    {
        match *self {
            Either::Left(_) => true,
            Either::Right(_) => false,
        }
    }

    /// True exactly when the `Right` variant is live.
    pub fn is_right(&self) -> (r: bool)
        ensures
            r == (self is Right),
    {
        !self.is_left()
    }

    /// Consume the union; yield the `Left` payload if that variant is
    /// live, `None` otherwise.  Never fails at runtime.
    pub fn left(self) -> (r: Option<L>)
        ensures
            r == (match self {
                Either::Left(l) => Some(l),
                Either::Right(_) => None::<L>,
            }),
    {
        match self {
            Either::Left(l) => Some(l),
            Either::Right(_) => None,
        }
    }

    /// Consume the union; yield the `Right` payload if that variant is
    /// live, `None` otherwise.  Never fails at runtime.
    pub fn right(self) -> (r: Option<R>)
        ensures
            r == (match self {
                Either::Left(_) => None::<R>,
                Either::Right(rr) => Some(rr),
            }),
    {
        match self {
            Either::Left(_) => None,
            Either::Right(r) => Some(r),
        }
    }

    /// Borrow the live payload without consuming the union: the result
    /// holds a shared reference to the payload, under the same variant.
    pub fn as_ref(&self) -> (r: Either<&L, &R>)
        ensures
            r == spec_as_ref(self),
    {
        match *self {
            Either::Left(ref inner) => Either::Left(inner),
            Either::Right(ref inner) => Either::Right(inner),
        }
    }

    /// Borrow the live payload exclusively without consuming the union:
    /// the result holds a mutable reference to the payload, under the
    /// same variant.  Writes through the reference land in the original
    /// union's payload; the variant itself cannot change.
    pub fn as_mut(&mut self) -> (r: Either<&mut L, &mut R>)
        ensures
            (r is Left) == (*old(self) is Left),
            r matches Either::Left(m) ==> *m == (*old(self))->Left_0 && *final(self)
                == Either::Left::<L, R>(*final(m)),
            r matches Either::Right(m) ==> *m == (*old(self))->Right_0 && *final(self)
                == Either::Right::<L, R>(*final(m)),
    {
        match *self {
            Either::Left(ref mut inner) => Either::Left(inner),
            Either::Right(ref mut inner) => Either::Right(inner),
        }
    }

    /// Exchange the two variants: a `Left` payload becomes the `Right`
    /// payload of the flipped union and vice versa.  Pure relabeling,
    /// the payload itself is untouched.
    pub fn flip(self) -> (r: Either<R, L>)
        ensures
            r == spec_flip(self),
    {
        match self {
            Either::Left(l) => Either::Right(l),
            Either::Right(r) => Either::Left(r),
        }
    }
}

/// What `as_ref` returns: the same variant, holding a borrow of the
/// payload.
pub open spec fn spec_as_ref<L, R>(e: &Either<L, R>) -> Either<&L, &R> {
    match e {
        Either::Left(l) => Either::Left(l),
        Either::Right(r) => Either::Right(r),
    }
}

/// What `flip` returns: the same payload under the other variant.
pub open spec fn spec_flip<L, R>(e: Either<L, R>) -> Either<R, L> {
    match e {
        Either::Left(l) => Either::Right(l),
        Either::Right(r) => Either::Left(r),
    }
}

/// What `from_result` returns: the failure value under `Left`, the
/// success value under `Right`.
pub open spec fn spec_from_result<L, R>(r: Result<R, L>) -> Either<L, R> {
    match r {
        Err(e) => Either::Left(e),
        Ok(o) => Either::Right(o),
    }
}

/// What `into_result` returns: the `Left` payload as the failure value,
/// the `Right` payload as the success value.
pub open spec fn spec_into_result<L, R>(e: Either<L, R>) -> Result<R, L> {
    match e {
        Either::Left(l) => Err(l),
        Either::Right(r) => Ok(r),
    }
}

impl<L, R> Either<L, R> {
    /// Convert from a two-case result, mapping the failure value to
    /// `Left` and the success value to `Right`.  The mapping is a
    /// convention with no logical priority; `into_result` inverts it
    /// exactly.
    pub fn from_result(r: Result<R, L>) -> (e: Either<L, R>)
        ensures
            e == spec_from_result(r),
    {
        match r {
            Err(e) => Either::Left(e),
            Ok(o) => Either::Right(o),
        }
    }

    /// Convert to a two-case result, mapping `Left` to the failure value
    /// and `Right` to the success value; the exact inverse of
    /// `from_result`.
    pub fn into_result(self) -> (r: Result<R, L>)
        ensures
            r == spec_into_result(self),
    {
        match self {
            Either::Left(l) => Err(l),
            Either::Right(r) => Ok(r),
        }
    }
}

/// The two discriminant predicates are mutually exclusive and together
/// exhaustive: a union is `Left` exactly when it is not `Right`.
pub proof fn lemma_variants_exclusive_exhaustive<L, R>(e: Either<L, R>)
    ensures
        (e is Left) <==> !(e is Right),
{
}

/// Converting a two-case result to a union and back yields the original
/// result, for every failure and every success value.
pub proof fn lemma_result_round_trip<L, R>(r: Result<R, L>)
    ensures
        spec_into_result(spec_from_result(r)) == r,
{
}

/// Converting a union to a two-case result and back yields the original
/// union, variant and payload unchanged.
pub proof fn lemma_union_round_trip<L, R>(e: Either<L, R>)
    ensures
        spec_from_result(spec_into_result(e)) == e,
{
}

/// Exchanging the variants twice yields the original union, variant and
/// payload unchanged.
pub proof fn lemma_flip_involutive<L, R>(e: Either<L, R>)
    ensures
        spec_flip(spec_flip(e)) == e,
{
}

/// A borrowed view reports the same discriminant as the union it was
/// taken from, which it leaves intact.
pub proof fn lemma_view_preserves_discriminant<L, R>(e: &Either<L, R>)
    ensures
        (spec_as_ref(e) is Left) == (e is Left),
        (spec_as_ref(e) is Right) == (e is Right),
{
}

} // verus!
