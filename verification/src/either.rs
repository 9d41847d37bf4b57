//! A two-variant sum type.

use vstd::prelude::*;

verus! {

/// A value of one of two types.
#[derive(Debug, Clone)]
pub enum Either<L, R> {
    Left(L),
    Right(R),
}

impl<L, R> Either<L, R> {
    /// The left value, if this is a `Left`.
    pub fn left(&self) -> (r: Option<&L>)
        ensures
            r == (match *self {
                Either::Left(v) => Some(&v),
                Either::Right(_) => None,
            }),
    {
        match self {
            Either::Left(v) => Some(v),
            _ => None,
        }
    }

    /// The right value, if this is a `Right`.
    pub fn right(&self) -> (r: Option<&R>)
        ensures
            r == (match *self {
                Either::Right(v) => Some(&v),
                Either::Left(_) => None,
            }),
    {
        match self {
            Either::Right(v) => Some(v),
            _ => None,
        }
    }
}

} // verus!
