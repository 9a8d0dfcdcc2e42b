//! How applying or transforming a commit can fail.
use vstd::prelude::*;

verus! {

/// Why applying or transforming a commit failed: the wrapped operation's own
/// failure, or one of the two structural mismatches.
#[derive(Debug, Copy, Eq, PartialEq, Hash)]
pub enum CommitFailure<F> {
    /// The wrapped operation failed; its failure is carried unchanged.
    OperationFailure(F),
    /// The two sides belong to different lineages.
    InvalidIssue,
    /// The two sides do not share a predecessor in the chain.
    InvalidBase,
}

impl<F: Clone> Clone for CommitFailure<F> {
    /// Keeps the variant and clones a wrapped failure.
    fn clone(&self) -> (copy: Self)
        ensures
            match *self {
                CommitFailure::OperationFailure(failure) => copy is OperationFailure && cloned(
                    failure,
                    copy->OperationFailure_0,
                ),
                CommitFailure::InvalidIssue => copy is InvalidIssue,
                CommitFailure::InvalidBase => copy is InvalidBase,
            },
    {
        match self {
            CommitFailure::OperationFailure(failure) => CommitFailure::OperationFailure(
                failure.clone(),
            ),
            CommitFailure::InvalidIssue => CommitFailure::InvalidIssue,
            CommitFailure::InvalidBase => CommitFailure::InvalidBase,
        }
    }
}

impl<F> From<F> for CommitFailure<F> {
    /// Wraps an operation's failure.
    fn from(from: F) -> (failure: CommitFailure<F>)
        ensures
            failure == CommitFailure::OperationFailure(from),
    {
        CommitFailure::OperationFailure(from)
    }
}

impl<F> vstd::std_specs::convert::FromSpecImpl<F> for CommitFailure<F> {
    open spec fn obeys_from_spec() -> bool {
        true
    }

    open spec fn from_spec(v: F) -> Self {
        CommitFailure::OperationFailure(v)
    }
}

} // verus!
