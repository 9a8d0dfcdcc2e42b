//! What holds of the chain of commits on one value: a commit is applied at
//! most once, and a commit that was transformed lines up with the chain head
//! that the transforming commit left behind.
use vstd::prelude::*;

use crate::commit::{Commit, CommitFailure, CommitableData};
use crate::TransformableOperation;

verus! {

/// Whether `later`, once transformed by `earlier`, can be applied to `value`
/// after `earlier` has been applied to it. It is for the author of an
/// operation type to make this hold of the pairs that are made for one value.
pub open spec fn rebases_onto<O: TransformableOperation>(
    later: O,
    earlier: O,
    value: O::Operand,
) -> bool {
    match (earlier.applied(value), earlier.transformed(later)) {
        (Ok(advanced), Ok(rebased)) => rebased.applied(advanced) is Ok,
        _ => true,
    }
}

/// Whether the two orders of `first` and `second` on `value` end alike:
/// `first` and then `second` transformed by it, or `second` and then `first`
/// transformed by it. Nothing is said of a pair for which one of the two
/// applications to `value` or one of the two transformations fails. It is for
/// the author of an operation type to make this hold.
pub open spec fn converges<O: TransformableOperation>(
    first: O,
    second: O,
    value: O::Operand,
) -> bool {
    match (
        first.applied(value),
        first.transformed(second),
        second.applied(value),
        second.transformed(first),
    ) {
        (Ok(after_first), Ok(second_rebased), Ok(after_second), Ok(first_rebased)) => {
            second_rebased.applied(after_first) == first_rebased.applied(after_second)
        },
        _ => true,
    }
}

/// A commit that was applied has moved the chain head to its own identifier,
/// so it cannot be applied to the result again: the second attempt is refused
/// for its base. This needs the commit's identifier to differ from its base.
pub proof fn lemma_no_second_application<O: TransformableOperation>(
    commit: Commit<O>,
    target: CommitableData<O::Operand>,
)
    requires
        commit.id != commit.base,
    ensures
        (commit.applied(target) matches Ok(advanced) ==> {
            &&& advanced.issue == target.issue
            &&& advanced.last_commit == commit.id
            &&& commit.applied(advanced) matches Err(CommitFailure::InvalidBase)
        }),
{
}

/// Once `earlier` has been applied to `target` and has transformed `later`,
/// the rewritten commit lines up with the new chain head: applying it is
/// never refused for its issue or its base, and gives what the rewritten
/// operation gives on the new data, under the identifier of `later`.
pub proof fn lemma_transformed_commit_lines_up<O: TransformableOperation>(
    later: Commit<O>,
    earlier: Commit<O>,
    target: CommitableData<O::Operand>,
)
    ensures
        match (earlier.applied(target), earlier.transformed(later)) {
            (Ok(advanced), Ok(rebased)) => {
                &&& later.issue == target.issue
                &&& later.base == target.last_commit
                &&& rebased.issue == advanced.issue
                &&& rebased.base == advanced.last_commit
                &&& rebased.id == later.id
                &&& rebased.applied(advanced) == match rebased.operation.applied(advanced.data) {
                    Ok(data) => Ok(
                        CommitableData { data, issue: target.issue, last_commit: later.id },
                    ),
                    Err(failure) => Err(CommitFailure::OperationFailure(failure)),
                }
            },
            _ => true,
        },
{
}

/// Commits rebase wherever their operations do: if the operation of `later`
/// rebases onto that of `earlier` on the data of `target`, then `later`
/// rebases onto `earlier` on `target`.
pub proof fn lemma_commit_rebases<O: TransformableOperation>(
    later: Commit<O>,
    earlier: Commit<O>,
    target: CommitableData<O::Operand>,
)
    requires
        rebases_onto(later.operation, earlier.operation, target.data),
    ensures
        rebases_onto(later, earlier, target),
{
}

/// Two commits made against one state of `target` can be applied in either
/// order, the second each time transformed by the first, and both orders end
/// in the same data. This needs operations that rebase and converge on the
/// data of `target`. Then, where `earlier` was applied and has transformed
/// `later`, and the first two steps of the other order succeed as well, the
/// last step succeeds in both orders; both give the same data in the lineage
/// of `target`, and each leaves the chain head at the commit applied last.
pub proof fn lemma_commit_orders_converge<O: TransformableOperation>(
    later: Commit<O>,
    earlier: Commit<O>,
    target: CommitableData<O::Operand>,
)
    requires
        rebases_onto(later.operation, earlier.operation, target.data),
        converges(later.operation, earlier.operation, target.data),
    ensures
        match (
            earlier.applied(target),
            earlier.transformed(later),
            later.applied(target),
            later.transformed(earlier),
        ) {
            (Ok(after_earlier), Ok(later_rebased), Ok(after_later), Ok(earlier_rebased)) => {
                match (
                    later_rebased.applied(after_earlier),
                    earlier_rebased.applied(after_later),
                ) {
                    (Ok(one_way), Ok(other_way)) => {
                        &&& one_way.data == other_way.data
                        &&& one_way.issue == target.issue
                        &&& other_way.issue == target.issue
                        &&& one_way.last_commit == later.id
                        &&& other_way.last_commit == earlier.id
                    },
                    _ => false,
                }
            },
            _ => true,
        },
{
}

} // verus!
