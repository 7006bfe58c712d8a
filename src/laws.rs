//! Laws of the pending transaction lifecycle, stated over the outcomes that
//! the operations' contracts give.
use vstd::prelude::*;

use crate::consensus::rpc_of;
use crate::error::PendingError;
use crate::consensus::tx_id_of;
use crate::pending::{
    commit_outcome, notifier_calls, step, submit_outcome, transport_calls, PendingTransaction,
    PendingView, Step,
};

verus! {

/// The outcomes of `n` commits in a row on an instance whose commit flag is
/// `committed`: each commit leaves the instance committed.
pub open spec fn commit_run(committed: bool, n: nat) -> Seq<Result<(), PendingError>>
    decreases n,
{
    if n == 0 {
        Seq::empty()
    } else {
        seq![commit_outcome(committed)] + commit_run(true, (n - 1) as nat)
    }
}

/// Commit succeeds at most once: in any run of commits on one instance, at most
/// one succeeds, and every commit after the first is a double commit.
pub proof fn lemma_commit_at_most_once(committed: bool, n: nat)
    ensures
        commit_run(committed, n).len() == n,
        forall|i: int, j: int|
            0 <= i < n && 0 <= j < n && #[trigger] commit_run(committed, n)[i] is Ok
                && #[trigger] commit_run(committed, n)[j] is Ok ==> i == j,
        forall|i: int|
            1 <= i < n ==> #[trigger] commit_run(committed, n)[i] == Err::<(), PendingError>(
                PendingError::DoubleCommit,
            ),
    decreases n,
{
    if n > 0 {
        lemma_commit_at_most_once(true, (n - 1) as nat);
        let run = commit_run(committed, n);
        let rest = commit_run(true, (n - 1) as nat);
        assert forall|i: int| 1 <= i < n implies #[trigger] run[i] == Err::<(), PendingError>(
            PendingError::DoubleCommit,
        ) by {
            assert(run[i] == rest[i - 1]);
            if i >= 2 {
                assert(rest[i - 1] == Err::<(), PendingError>(PendingError::DoubleCommit));
            } else {
                assert(rest[0] == commit_outcome(true));
            }
        }
    }
}

/// The state after a run of operations, in order.
pub open spec fn run(v: PendingView, steps: Seq<Step>) -> PendingView
    decreases steps.len(),
{
    if steps.len() == 0 {
        v
    } else {
        run(step(v, steps[0]), steps.drop_first())
    }
}

/// How many operations of a run commit the instance: submissions that find it
/// uncommitted.
pub open spec fn successful_commits(v: PendingView, steps: Seq<Step>) -> nat
    decreases steps.len(),
{
    if steps.len() == 0 {
        0
    } else {
        (if steps[0] is Submit && !v.committed {
            1nat
        } else {
            0nat
        }) + successful_commits(step(v, steps[0]), steps.drop_first())
    }
}

/// On one instance, at most one operation of a run commits successfully, the
/// commit flag is never reset, and on a committed instance no operation
/// commits again.
pub proof fn lemma_one_successful_commit(v: PendingView, steps: Seq<Step>)
    ensures
        successful_commits(v, steps) <= 1,
        v.committed ==> successful_commits(v, steps) == 0,
        v.committed ==> run(v, steps).committed,
        successful_commits(v, steps) == 1 ==> run(v, steps).committed,
    decreases steps.len(),
{
    if steps.len() > 0 {
        let next = step(v, steps[0]);
        lemma_one_successful_commit(next, steps.drop_first());
    }
}

/// Over any run of operations none of which installs a signed body, the
/// transaction body, and so the identifier, stays what it was.
pub proof fn lemma_identifier_kept_without_signing_run(v: PendingView, steps: Seq<Step>)
    requires
        forall|i: int| 0 <= i < steps.len() ==> !(#[trigger] steps[i] is Signed),
    ensures
        run(v, steps).tx == v.tx,
        tx_id_of(run(v, steps).tx) == tx_id_of(v.tx),
    decreases steps.len(),
{
    if steps.len() > 0 {
        assert(!(steps[0] is Signed));
        let rest = steps.drop_first();
        assert forall|i: int| 0 <= i < rest.len() implies !(#[trigger] rest[i] is Signed) by {
            assert(rest[i] == steps[i + 1]);
        }
        lemma_identifier_kept_without_signing_run(step(v, steps[0]), rest);
    }
}

/// The identifier depends on the payload alone: two instances holding one
/// transaction body have one identifier.
pub proof fn lemma_identifier_of_payload(a: PendingTransaction, b: PendingTransaction)
    requires
        a@.tx == b@.tx,
    ensures
        a.identifier() == b.identifier(),
{
}

/// Only signing moves the identifier: a change of state that keeps the
/// transaction body, such as committing or a failed signing attempt, keeps the
/// identifier.
pub proof fn lemma_identifier_kept_without_signing(before: PendingTransaction, after: PendingTransaction)
    requires
        after@ == (PendingView { committed: after@.committed, ..before@ }),
    ensures
        after.identifier() == before.identifier(),
{
}

/// An instance is a batch element exactly when it is not final.
pub proof fn lemma_batch_iff_not_final(p: PendingTransaction)
    ensures
        p.batch() == !p@.is_final,
{
}

/// Submitting an uncommitted instance commits it, calls the notifier once when
/// one is bound, and hands exactly one wire projection, that of the current
/// payload, to the transport.
pub proof fn lemma_submit_uncommitted(before: PendingView, notifier_bound: bool)
    requires
        !before.committed,
    ensures
        submit_outcome(before.committed, notifier_bound, before.tx) matches Ok(plan)
            && plan.wire == rpc_of(before.tx),
        notifier_calls(submit_outcome(before.committed, notifier_bound, before.tx)) == (if notifier_bound {
            1nat
        } else {
            0nat
        }),
        transport_calls(submit_outcome(before.committed, notifier_bound, before.tx)) == 1,
{
}

/// Submitting one instance twice: the second submission is a double commit,
/// and the two together call the transport at most once and the notifier at
/// most once.
pub proof fn lemma_submit_twice(before: PendingView, notifier_bound: bool)
    ensures
        ({
            let after = PendingView { committed: true, ..before };
            let first = submit_outcome(before.committed, notifier_bound, before.tx);
            let second = submit_outcome(after.committed, notifier_bound, after.tx);
            &&& second == Err::<crate::pending::SubmitPlan, PendingError>(PendingError::DoubleCommit)
            &&& transport_calls(first) + transport_calls(second) <= 1
            &&& notifier_calls(first) + notifier_calls(second) <= 1
        }),
{
}

} // verus!
