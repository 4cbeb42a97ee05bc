//! Reference coercion forwarded to the live variant.
//!
//! When both payload types coerce to a reference of the same target
//! type, the union coerces too, by handing out whatever reference the
//! live variant's own coercion chooses.  Shared and exclusive coercion
//! are conditioned independently.

use vstd::prelude::*;

use crate::Either;

verus! {

/// Relies on `AsRef::as_ref` of the live variant.  The coercion is the
/// variant's own; nothing is assumed of the reference it chooses.
#[verifier::external_body]
fn as_ref_of<T: AsRef<Target>, Target: ?Sized>(x: &T) -> (r: &Target) {
    x.as_ref()
}

/// Relies on `AsMut::as_mut` of the live variant.  The coercion is the
/// variant's own; nothing is assumed of the reference it chooses.
#[verifier::external_body]
fn as_mut_of<T: AsMut<Target>, Target: ?Sized>(x: &mut T) -> (r: &mut Target) {
    x.as_mut()
}

impl<L, R> Either<L, R> {
    /// Coerce to a shared reference of the target type by forwarding to
    /// the live variant's own coercion.
    pub fn as_target<Target: ?Sized>(&self) -> &Target where
        L: AsRef<Target>,
        R: AsRef<Target>,
     {
        match self {
            Either::Left(inner) => as_ref_of(inner),
            Either::Right(inner) => as_ref_of(inner),
        }
    }

    /// Coerce to an exclusive reference of the target type by forwarding
    /// to the live variant's own coercion.
    pub fn as_target_mut<Target: ?Sized>(&mut self) -> (r: &mut Target) where
        L: AsMut<Target>,
        R: AsMut<Target>,
        ensures
            (*final(self) is Left) == (*old(self) is Left),
    {
        match self {
            Either::Left(inner) => as_mut_of(inner),
            Either::Right(inner) => as_mut_of(inner),
        }
    }
}

} // verus!
