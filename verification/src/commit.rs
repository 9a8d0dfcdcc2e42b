//! Commits: operations that are validated against the value that they are
//! applied to, and against each other when one is transformed by another.
use vstd::prelude::*;

use crate::commit::token::random_u128;
use crate::TransformableOperation;

pub mod chain;
pub mod data;
pub mod failure;
mod token;

pub use data::CommitableData;
pub use failure::CommitFailure;

verus! {

/// A validated operation: an operation bound to the lineage and the chain
/// head that it was made against, under an identifier of its own.
#[derive(Debug, Copy, Eq, PartialEq, Hash)]
pub struct Commit<O> {
    /// The lineage that this commit belongs to.
    pub issue: u64,
    /// The chain head that this commit expects its target to be at.
    pub base: u128,
    /// The identifier of this commit.
    pub id: u128,
    /// The operation that this commit carries out.
    pub operation: O,
}

impl<O: Clone> Clone for Commit<O> {
    /// Clones the operation and keeps the three tokens.
    fn clone(&self) -> (copy: Self)
        ensures
            copy.issue == self.issue,
            copy.base == self.base,
            copy.id == self.id,
            cloned(self.operation, copy.operation),
    {
        Commit {
            issue: self.issue,
            base: self.base,
            id: self.id,
            operation: self.operation.clone(),
        }
    }
}

impl<O> Commit<O> where O: TransformableOperation {
    /// Makes a commit of `operation` against `base` as it stands now, under a
    /// random identifier.
    pub fn on(base: &CommitableData<O::Operand>, operation: O) -> (commit: Commit<O>)
        ensures
            commit.issue == base.issue,
            commit.base == base.last_commit,
            commit.operation == operation,
    {
        let id: u128 = random_u128();
        Commit::with_id(base, operation, id)
    }

    /// Makes a commit of `operation` against `base` as it stands now, under
    /// the identifier given.
    pub fn with_id(base: &CommitableData<O::Operand>, operation: O, id: u128) -> (commit: Commit<O>)
        ensures
            commit == (Commit { issue: base.issue, base: base.last_commit, id, operation }),
    {
        Commit { issue: base.issue, base: base.last_commit, id, operation }
    }
}

impl<O> TransformableOperation for Commit<O> where O: TransformableOperation {
    type Operand = CommitableData<O::Operand>;

    type ApplicationFailure = CommitFailure<O::ApplicationFailure>;

    type TransformationFailure = CommitFailure<O::TransformationFailure>;

    /// The issue is compared first, then the base; only then is the wrapped
    /// operation asked. Success puts the new data under the old issue, with
    /// this commit as the chain head.
    open spec fn applied(&self, to: Self::Operand) -> Result<
        Self::Operand,
        Self::ApplicationFailure,
    > {
        if to.issue != self.issue {
            Err(CommitFailure::InvalidIssue)
        } else if to.last_commit != self.base {
            Err(CommitFailure::InvalidBase)
        } else {
            match self.operation.applied(to.data) {
                Ok(data) => Ok(CommitableData { data, issue: to.issue, last_commit: self.id }),
                Err(failure) => Err(CommitFailure::OperationFailure(failure)),
            }
        }
    }

    /// The issue is compared first, then the base; only then is the wrapped
    /// operation asked. Success puts the rewritten operation under the issue
    /// and the identifier of `other`, with this commit as its base.
    open spec fn transformed(&self, other: Self) -> Result<Self, Self::TransformationFailure> {
        if other.issue != self.issue {
            Err(CommitFailure::InvalidIssue)
        } else if other.base != self.base {
            Err(CommitFailure::InvalidBase)
        } else {
            match self.operation.transformed(other.operation) {
                Ok(operation) => Ok(
                    Commit { issue: other.issue, base: self.id, id: other.id, operation },
                ),
                Err(failure) => Err(CommitFailure::OperationFailure(failure)),
            }
        }
    }

    /// Applies the wrapped operation to `to.data` and moves the chain head to
    /// this commit, provided that `to` is of this commit's lineage and stands
    /// at this commit's base. Whatever fails, `to` is left as it was.
    fn apply(&self, to: &mut Self::Operand) -> (result: Result<(), Self::ApplicationFailure>)
        ensures
            old(to).issue != self.issue ==> result matches Err(CommitFailure::InvalidIssue),
            old(to).issue == self.issue && old(to).last_commit != self.base ==> result matches Err(
                CommitFailure::InvalidBase,
            ),
            old(to).issue == self.issue && old(to).last_commit == self.base ==> (match self.operation.applied(
                old(to).data,
            ) {
                Ok(data) => result is Ok && *final(to) == (CommitableData {
                    data,
                    issue: self.issue,
                    last_commit: self.id,
                }),
                Err(failure) => result == Err::<(), _>(CommitFailure::OperationFailure(failure)),
            }),
            result is Err ==> *final(to) == *old(to),
    {
        if to.issue != self.issue {
            return Err(CommitFailure::InvalidIssue);
        }
        if to.last_commit != self.base {
            return Err(CommitFailure::InvalidBase);
        }
        match self.operation.apply(&mut to.data) {
            Ok(()) => {
                to.last_commit = self.id;
                Ok(())
            },
            Err(failure) => Err(CommitFailure::from(failure)),
        }
    }

    /// Transforms the operation of `other` by the wrapped operation and moves
    /// the base of `other` to this commit, provided that both are of one
    /// lineage and share their base. Whatever fails, `other` is left as it was.
    fn transform(&self, other: &mut Self) -> (result: Result<(), Self::TransformationFailure>)
        ensures
            old(other).issue != self.issue ==> result matches Err(CommitFailure::InvalidIssue),
            old(other).issue == self.issue && old(other).base != self.base ==> result matches Err(
                CommitFailure::InvalidBase,
            ),
            old(other).issue == self.issue && old(other).base == self.base ==> (match self.operation.transformed(
                old(other).operation,
            ) {
                Ok(operation) => result is Ok && *final(other) == (Commit {
                    issue: self.issue,
                    base: self.id,
                    id: old(other).id,
                    operation,
                }),
                Err(failure) => result == Err::<(), _>(CommitFailure::OperationFailure(failure)),
            }),
            result is Err ==> *final(other) == *old(other),
    {
        if other.issue != self.issue {
            return Err(CommitFailure::InvalidIssue);
        }
        if other.base != self.base {
            return Err(CommitFailure::InvalidBase);
        }
        match self.operation.transform(&mut other.operation) {
            Ok(()) => {
                other.base = self.id;
                Ok(())
            },
            Err(failure) => Err(CommitFailure::from(failure)),
        }
    }
}

} // verus!
