//! A comonoid capability for owned values.
//!
//! A comonoid is the dual of a monoid: it consists of a *counit*, a function
//! from `T` to `()`, and a *comultiplication*, a function from `T` to
//! `(T, T)`. Within an ownership type system it captures a type whose values
//! can be both destroyed and copied.
//!
//! Every `Clone` type supports the capability through the free functions
//! [`discard`] and [`duplicate`], and the [`Comonoidal`] newtype wrapper
//! turns any cloneable type into a [`Comonoid`] instance, with `discard` as
//! its counit and `duplicate` as its comultiplication.

use vstd::prelude::*;
use vstd::pervasive::cloned;

verus! {

/// Takes ownership of a value and returns `()`, rendering it unusable.
pub fn discard<T>(_a: T) {
}

/// Takes ownership of a value and returns a pair made of a clone of the
/// value and the value itself. Each component is equal to the consumed
/// value whenever `T::clone` returns a value equal to its argument.
pub fn duplicate<T: Clone>(a: T) -> (r: (T, T))
    ensures
        cloned(a, r.0),
        r.1 == a,
{
    (a.clone(), a)
}

/// Both components of the pair `duplicate` returns are equal to the
/// consumed value, and hence to each other, for any type whose `clone` can
/// only return a value equal to its argument (as is the case for all the
/// primitive types and for `String`).
pub proof fn lemma_duplicate_equal<T: Clone>(v: T, r: (T, T))
    requires
        forall|x: &T, y: T| #[trigger] call_ensures(T::clone, (x,), y) ==> y == *x,
        cloned(v, r.0),
        r.1 == v,
    ensures
        r.0 == v,
        r.1 == v,
        r.0 == r.1,
{
}

/// The comonoid capability: a counit, which consumes a value, and a
/// comultiplication, which turns a value into a pair of copies.
///
/// Each implementor picks the relation [`Comonoid::copy_of`] that holds
/// between the consumed value and each component of the pair its
/// comultiplication returns.
pub trait Comonoid: Sized {
    /// Holds of the value `comult` consumes and each component it returns.
    spec fn copy_of(a: Self, b: Self) -> bool;

    /// The dual to the monoidal unit: consumes the value, returns nothing.
    fn counit(self);

    /// The dual to the monoidal multiplication: consumes the value and
    /// returns a pair, each component a copy of it.
    fn comult(self) -> (r: (Self, Self))
        ensures
            Self::copy_of(self, r.0),
            Self::copy_of(self, r.1),
    ;
}

/// A newtype wrapper to make a comonoid out of any cloneable type.
pub struct Comonoidal<T>(pub T);

impl<T> Comonoidal<T> {
    /// Borrows the wrapped value.
    pub fn as_ref(&self) -> (r: &T)
        ensures
            r == &self.0,
    {
        &self.0
    }

    /// Borrows the wrapped value mutably.
    pub fn as_mut(&mut self) -> (r: &mut T)
        ensures
            *r == old(self).0,
            *final(self) == (Comonoidal(*final(r))),
    {
        &mut self.0
    }
}

impl<T> From<T> for Comonoidal<T> {
    fn from(a: T) -> (r: Comonoidal<T>) {
        Comonoidal(a)
    }
}

impl<T> vstd::std_specs::convert::FromSpecImpl<T> for Comonoidal<T> {
    open spec fn obeys_from_spec() -> bool {
        true
    }

    open spec fn from_spec(a: T) -> Comonoidal<T> {
        Comonoidal(a)
    }
}

impl<T: Clone> Clone for Comonoidal<T> {
    /// Clones the wrapped value; the copy is as close to the original as
    /// `T::clone` makes it.
    fn clone(&self) -> (r: Self)
        ensures
            cloned(self.0, r.0),
    {
        let a = self.0.clone();
        Comonoidal(a)
    }
}

impl<T: Clone> Comonoid for Comonoidal<T> {
    /// The components comult returns wrap clones of the consumed value.
    open spec fn copy_of(a: Self, b: Self) -> bool {
        cloned(a.0, b.0)
    }

    fn counit(self) {
        discard(self)
    }

    fn comult(self) -> (r: (Self, Self)) {
        duplicate(self)
    }
}

} // verus!
