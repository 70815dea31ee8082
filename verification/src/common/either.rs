//! A value of one of two types, used where two branches produce outputs of
//! different types.

use vstd::prelude::*;

verus! {

/// Either the left value or the right one.
#[derive(Debug, Clone, Copy, PartialEq, Eq)]
pub enum Either<L, R> {
    Left(L),
    Right(R),
}

impl<L, R> Either<L, R> {
    /// A borrowing view: the same side, holding a reference.
    pub fn as_ref(&self) -> (r: Either<&L, &R>)
        ensures
            match r {
                Either::Left(l) => self matches Either::Left(sl) && l == sl,
                Either::Right(rr) => self matches Either::Right(sr) && rr == sr,
            },
    {
        match self {
            Either::Left(t) => Either::Left(t),
            Either::Right(t) => Either::Right(t),
        }
    }

    /// A mutably borrowing view: the same side, holding a mutable reference.
    pub fn as_mut(&mut self) -> (r: Either<&mut L, &mut R>)
        ensures
            match r {
                Either::Left(l) => *old(self) matches Either::Left(x) && *l == x && *final (self)
                    == Either::<L, R>::Left(*final (l)),
                Either::Right(rr) => *old(self) matches Either::Right(x) && *rr == x
                    && *final (self) == Either::<L, R>::Right(*final (rr)),
            },
    {
        match self {
            Either::Left(t) => Either::Left(t),
            Either::Right(t) => Either::Right(t),
        }
    }
}

impl<T> Either<T, T> {
    /// When both sides share one type, hands the value out whichever side
    /// holds it.
    pub fn into_inner(self) -> (r: T)
        ensures
            match self {
                Either::Left(l) => r == l,
                Either::Right(rr) => r == rr,
            },
    {
        match self {
            Either::Left(l) => l,
            Either::Right(r) => r,
        }
    }
}

} // verus!
