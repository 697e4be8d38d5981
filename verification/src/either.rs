use vstd::prelude::*;

verus! {

/// A value that is exactly one of two alternatives.
///
/// Unlike a pair of independent `Option`s, the shape itself guarantees that
/// exactly one side is populated.
#[derive(Debug)]
pub enum Either<L, R> {
    /// The first alternative.
    Left(L),
    /// The second alternative.
    Right(R),
}

impl<L, R> Either<L, R> {
    /// Constructs the left alternative.
    pub fn l(a: L) -> (r: Self)
        ensures
            r == Either::<L, R>::Left(a),
    {
        Either::Left(a)
    }

    /// Constructs the right alternative.
    pub fn r(b: R) -> (r: Self)
        ensures
            r == Either::<L, R>::Right(b),
    {
        Either::Right(b)
    }
}

impl<L: Clone, R: Clone> Clone for Either<L, R> {
    /// Clones whichever side is populated; the copy keeps the shape, and each
    /// carried value is whatever its own `clone` produces.
    fn clone(&self) -> (r: Self)
        ensures
            (self matches Either::Left(a) ==> (r matches Either::Left(b) && cloned::<L>(*a, b))),
            (self matches Either::Right(a) ==> (r matches Either::Right(b) && cloned::<R>(*a, b))),
    {
        match self {
            Either::Left(a) => Either::Left(a.clone()),
            Either::Right(b) => Either::Right(b.clone()),
        }
    }
}

impl<L> Either<L, L> {
    /// Collapses an `Either` whose two sides carry the same type, returning
    /// whichever value is present.
    pub fn to_normal(self) -> (r: L)
        ensures
            r == (match self {
                Either::Left(l) => l,
                Either::Right(other) => other,
            }),
    {
        match self {
            Either::Left(l) => l,
            Either::Right(other) => other,
        }
    }
}

} // verus!
