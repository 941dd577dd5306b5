use core::convert::Infallible;
use vstd::prelude::*;

verus! {

/// A value of one of two types.
#[derive(Debug, Clone, Copy, PartialEq, Eq, PartialOrd, Ord, Hash)]
pub enum Either<A, B> {
    A(A),
    B(B),
}

impl<A> Either<A, Infallible> {
    /// The `A` value. No value of `Infallible` exists, so the `B` side never occurs; Verus does
    /// not know that type to be empty, which is why the precondition names the variant.
    pub fn into_a(self) -> (r: A)
        requires
            self is A,
        ensures
            self == Either::<A, Infallible>::A(r),
    {
        match self {
            Either::A(a) => a,
            Either::B(_) => vstd::pervasive::unreached(),
        }
    }
}

impl<B> Either<Infallible, B> {
    /// The `B` value; see [`Either::into_a`] for the precondition.
    pub fn into_b(self) -> (r: B)
        requires
            self is B,
        ensures
            self == Either::<Infallible, B>::B(r),
    {
        match self {
            Either::A(_) => vstd::pervasive::unreached(),
            Either::B(b) => b,
        }
    }
}

impl<A> Either<A, A> {
    /// The value held, whichever side holds it.
    pub fn unify(self) -> (r: A)
        ensures
            r == self.spec_unify(),
    {
        match self {
            Either::A(value) => value,
            Either::B(value) => value,
        }
    }

    pub open spec fn spec_unify(self) -> A {
        match self {
            Either::A(value) => value,
            Either::B(value) => value,
        }
    }
}

impl<A, B> Either<A, B> {
    /// Applies `f` to an `A` value; a `B` value is kept as it is.
    pub fn map_a<T, F>(self, f: F) -> (r: Either<T, B>)
        where
            F: FnOnce(A) -> T,
        requires
            self matches Either::A(a) ==> f.requires((a,)),
        ensures
            match self {
                Either::A(a) => r matches Either::A(t) && f.ensures((a,), t),
                Either::B(b) => r == Either::<T, B>::B(b),
            },
    {
        match self {
            Either::A(a) => Either::A(f(a)),
            Either::B(b) => Either::B(b),
        }
    }

    /// Applies `f` to a `B` value; an `A` value is kept as it is.
    pub fn map_b<T, F>(self, f: F) -> (r: Either<A, T>)
        where
            F: FnOnce(B) -> T,
        requires
            self matches Either::B(b) ==> f.requires((b,)),
        ensures
            match self {
                Either::A(a) => r == Either::<A, T>::A(a),
                Either::B(b) => r matches Either::B(t) && f.ensures((b,), t),
            },
    {
        match self {
            Either::A(a) => Either::A(a),
            Either::B(b) => Either::B(f(b)),
        }
    }
}

} // verus!
