//! The value that commits are applied to, under its two tokens.
use vstd::prelude::*;

use crate::commit::token::{random_u128, random_u64};
use crate::commit::Commit;
use crate::Operand;

verus! {

/// A value together with the tokens that commits are validated against.
#[derive(Debug, Copy, Eq, PartialEq, Hash)]
pub struct CommitableData<T> {
    /// The value that commits are applied to.
    pub data: T,
    /// The lineage of this value; a commit must carry the same issue.
    pub issue: u64,
    /// The identifier of the commit applied last, the head of the chain.
    pub last_commit: u128,
}

impl<T> CommitableData<T> {
    /// Wraps `data` with a random `issue` and a random `last_commit`.
    pub fn new(data: T) -> (wrapped: CommitableData<T>)
        ensures
            wrapped.data == data,
    {
        let issue: u64 = random_u64();
        let last_commit: u128 = random_u128();
        CommitableData::with_tokens(data, issue, last_commit)
    }

    /// Wraps `data` with the tokens given, for a caller that draws or keeps
    /// them itself.
    pub fn with_tokens(data: T, issue: u64, last_commit: u128) -> (wrapped: CommitableData<T>)
        ensures
            wrapped == (CommitableData { data, issue, last_commit }),
    {
        CommitableData { data, issue, last_commit }
    }
}

impl<T: Clone> Clone for CommitableData<T> {
    /// Clones the data and keeps both tokens.
    fn clone(&self) -> (copy: Self)
        ensures
            cloned(self.data, copy.data),
            copy.issue == self.issue,
            copy.last_commit == self.last_commit,
    {
        CommitableData {
            data: self.data.clone(),
            issue: self.issue,
            last_commit: self.last_commit,
        }
    }
}

impl<T> Operand for CommitableData<T> where T: Operand {
    type Operation = Commit<T::Operation>;
}

} // verus!
