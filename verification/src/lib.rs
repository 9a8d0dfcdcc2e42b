//! Generic operational transformation.
//!
//! A value that can be operated upon implements [`Operand`] and names the one
//! operation type that may change it. That operation implements
//! [`TransformableOperation`]: it can be applied to a value, and it can rewrite
//! a concurrent operation so that the latter stays valid once the former has
//! been applied.
//!
//! [`CommitableData`] and [`Commit`] add validation on top of a bare value and
//! a bare operation: a lineage token and a chain of commit identifiers that
//! must line up before anything is changed.
use vstd::prelude::*;

pub mod commit;

pub use commit::{Commit, CommitFailure, CommitableData};

verus! {

/// Marks a value type that can be operated upon. A type implements this once,
/// so it has exactly one legal operation type.
pub trait Operand {
    /// The operation that changes this operand. That the operation in turn
    /// names this operand is demanded on the operation's side, by
    /// [`TransformableOperation::Operand`].
    type Operation;
}

/// An operation on one operand type.
///
/// Both methods are functions of their arguments alone. What a call does is
/// laid down by the two models, [`applied`](Self::applied) and
/// [`transformed`](Self::transformed): an implementation defines them, and
/// its methods follow them. A call that fails changes nothing.
pub trait TransformableOperation: Sized {
    /// The operand that this operation applies to, which names this operation
    /// as its own.
    type Operand: Operand<Operation = Self>;

    /// Why applying this operation can fail.
    type ApplicationFailure;

    /// Why transforming another operation by this one can fail.
    type TransformationFailure;

    /// What applying this operation to `to` gives: the new value, or the
    /// failure.
    spec fn applied(&self, to: Self::Operand) -> Result<Self::Operand, Self::ApplicationFailure>;

    /// What transforming `other` by this operation gives: the rewritten
    /// operation, or the failure.
    spec fn transformed(&self, other: Self) -> Result<Self, Self::TransformationFailure>;

    /// Applies this operation to `to` in place. On failure `to` is left as it
    /// was.
    fn apply(&self, to: &mut Self::Operand) -> (result: Result<(), Self::ApplicationFailure>)
        ensures
            self.applied(*old(to)) matches Ok(next) ==> result is Ok && *final(to) == next,
            self.applied(*old(to)) matches Err(failure) ==> result == Err::<(), _>(failure)
                && *final(to) == *old(to),
    ;

    /// Rewrites `other` in place so that it can be applied to a value to which
    /// this operation has been applied already. On failure `other` is left as
    /// it was.
    fn transform(&self, other: &mut Self) -> (result: Result<(), Self::TransformationFailure>)
        ensures
            self.transformed(*old(other)) matches Ok(next) ==> result is Ok && *final(other)
                == next,
            self.transformed(*old(other)) matches Err(failure) ==> result == Err::<(), _>(failure)
                && *final(other) == *old(other),
    ;
}

} // verus!
