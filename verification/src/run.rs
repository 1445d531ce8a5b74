//! Whole reconciliations: every sequence of steps that the platform's replies
//! can lead to, and what holds of all of them.

use vstd::prelude::*;
use crate::api::Reply;
use crate::controller::{
    action_for,
    first_step,
    next_step,
    Action,
    QueueAction,
    RequestView,
    Stage,
    StepView,
    REQUEUE_SECONDS,
};
use crate::crd::QueueView;
use crate::finalizer::{add_request, delete_request};
use crate::queue::{desired_replica_set, DeleteRequestView};

verus! {

/// The steps of the reconciliation of `queue` when the platform answers its
/// calls with `replies`, in order: the opening step, then one step for every
/// reply, for as long as the step before was a call. Replies that come after
/// the verdict are not read.
pub open spec fn steps<E>(queue: QueueView, replies: Seq<Reply<E>>) -> Seq<StepView<E>>
    decreases replies.len(),
{
    if replies.len() == 0 {
        seq![first_step(queue)]
    } else {
        let earlier = steps(queue, replies.drop_last());
        match earlier.last() {
            StepView::Call { pending, .. } => earlier.push(next_step(pending, replies.last())),
            StepView::Done(_) => earlier,
        }
    }
}

/// A call goes with the stage that waits for it.
spec fn paired<E>(step: StepView<E>) -> bool {
    step matches StepView::Call { request, pending } ==> match pending.stage {
        Stage::AddingFinalizer => request == RequestView::Patch(
            add_request(pending.name, pending.namespace),
        ),
        Stage::Deploying => request is Create,
        Stage::TearingDown => request == RequestView::Delete(
            DeleteRequestView { namespace: pending.namespace, name: pending.name },
        ),
        Stage::RemovingFinalizer => request == RequestView::Patch(
            delete_request(pending.name, pending.namespace),
        ),
    }
}

/// The shape of a run: it opens with the opening step, every step but the last
/// is a call, the step after a call is the answer to the reply to that call, and
/// a run that has not come to its verdict has read every reply.
proof fn lemma_run<E>(queue: QueueView, replies: Seq<Reply<E>>)
    ensures
        1 <= steps(queue, replies).len() <= replies.len() + 1,
        steps(queue, replies)[0] == first_step::<E>(queue),
        steps(queue, replies).last() is Call ==> steps(queue, replies).len() == replies.len() + 1,
        forall|i: int|
            0 <= i < steps(queue, replies).len() ==> paired(#[trigger] steps(queue, replies)[i]),
        forall|i: int|
            0 <= i < steps(queue, replies).len() - 1 ==> {
                &&& (#[trigger] steps(queue, replies)[i]) is Call
                &&& steps(queue, replies)[i + 1] == next_step(
                    steps(queue, replies)[i]->pending,
                    replies[i],
                )
            },
    decreases replies.len(),
{
    if replies.len() > 0 {
        lemma_run(queue, replies.drop_last());
    }
}

/// Teardown comes before release. In every run, whatever the platform answers,
/// the call that removes the finalizers of the queue is issued only in answer to
/// the reply to the call that deletes the queue's replica set, and only where
/// that reply says that the replica set was deleted or was already absent.
pub proof fn lemma_teardown_precedes_release<E>(
    queue: QueueView,
    replies: Seq<Reply<E>>,
    i: int,
)
    requires
        0 <= i < steps(queue, replies).len(),
        steps(queue, replies)[i].releases(),
    ensures
        0 < i <= replies.len(),
        steps(queue, replies)[i - 1].tears_down(),
        replies[i - 1] is Ok || replies[i - 1]->Err_0.not_found(),
        steps(queue, replies)[i - 1]->request == RequestView::Delete(
            DeleteRequestView {
                namespace: queue.metadata.namespace->0,
                name: queue.metadata.name_any(),
            },
        ),
{
    lemma_run(queue, replies);
    let run = steps(queue, replies);
    assert(paired(run[i]));
    if i > 0 {
        assert(paired(run[i - 1]));
        if i > 1 {
            assert(paired(run[i - 2]));
        }
    }
}

/// Marking comes before deployment. In every run, whatever the platform
/// answers, the call that creates the replica set is issued only in answer to
/// the reply to the call that marks the queue with the finalizer, and only where
/// that call succeeded.
pub proof fn lemma_mark_precedes_deploy<E>(queue: QueueView, replies: Seq<Reply<E>>, i: int)
    requires
        0 <= i < steps(queue, replies).len(),
        steps(queue, replies)[i].deploys(),
    ensures
        0 < i <= replies.len(),
        steps(queue, replies)[i - 1].marks(),
        replies[i - 1] is Ok,
        steps(queue, replies)[i - 1]->request == RequestView::Patch(
            add_request(queue.metadata.name_any(), queue.metadata.namespace->0),
        ),
{
    lemma_run(queue, replies);
    let run = steps(queue, replies);
    assert(paired(run[i]));
    if i > 0 {
        assert(paired(run[i - 1]));
        if i > 1 {
            assert(paired(run[i - 2]));
        }
    }
}

/// A reconciliation is short: it issues two calls at most, and has come to its
/// verdict once two replies are in.
pub proof fn lemma_two_calls_at_most<E>(queue: QueueView, replies: Seq<Reply<E>>)
    ensures
        steps(queue, replies).len() <= 3,
        replies.len() >= 2 ==> steps(queue, replies).last() is Done,
        forall|i: int|
            2 <= i < steps(queue, replies).len() ==> (#[trigger] steps(queue, replies)[i]) is Done,
{
    lemma_run(queue, replies);
    let run = steps(queue, replies);
    if run.len() > 2 {
        // The first call waits in one of two stages, and neither of the two
        // stages that follow them leads to a third call.
        assert(paired(run[0]));
        assert(paired(run[1]));
        assert(run[2] is Done);
    }
}

/// The run that sets a queue up. Where both calls succeed, a queue that lives
/// in a namespace and calls for creation is marked, then its replica set is
/// created, and the queue is looked at again later.
pub proof fn lemma_creation_run<E>(queue: QueueView)
    requires
        queue.metadata.namespace is Some,
        action_for(queue.metadata) == QueueAction::Create,
    ensures
        steps::<E>(queue, seq![Ok(()), Ok(())]).len() == 3,
        steps::<E>(queue, seq![Ok(()), Ok(())])[0].marks(),
        steps::<E>(queue, seq![Ok(()), Ok(())])[0]->request == RequestView::Patch(
            add_request(queue.metadata.name_any(), queue.metadata.namespace->0),
        ),
        steps::<E>(queue, seq![Ok(()), Ok(())])[1]->request == RequestView::Create(
            desired_replica_set(
                queue.metadata.name_any(),
                queue.spec.replicas,
                queue.metadata.namespace->0,
            ),
        ),
        steps::<E>(queue, seq![Ok(()), Ok(())])[2] == StepView::<E>::Done(
            Ok(Action::Requeue { seconds: REQUEUE_SECONDS }),
        ),
{
    let replies: Seq<Reply<E>> = seq![Ok(()), Ok(())];
    reveal_with_fuel(steps, 3);
    assert(replies.drop_last() =~= seq![Ok(())]);
    assert(replies.drop_last().drop_last() =~= Seq::<Reply<E>>::empty());
}

/// The run that takes a queue down. Where the platform deletes the replica set
/// or says that there is none, and the patch succeeds, a queue that lives in a
/// namespace and is being deleted has its replica set deleted, then is
/// released, and is not looked at again until it changes.
pub proof fn lemma_deletion_run<E>(queue: QueueView, teardown: Reply<E>)
    requires
        queue.metadata.namespace is Some,
        queue.metadata.deletion_timestamp is Some,
        teardown is Ok || teardown->Err_0.not_found(),
    ensures
        steps(queue, seq![teardown, Ok(())]).len() == 3,
        steps(queue, seq![teardown, Ok(())])[0]->request == RequestView::Delete(
            DeleteRequestView {
                namespace: queue.metadata.namespace->0,
                name: queue.metadata.name_any(),
            },
        ),
        steps(queue, seq![teardown, Ok(())])[1].releases(),
        steps(queue, seq![teardown, Ok(())])[1]->request == RequestView::Patch(
            delete_request(queue.metadata.name_any(), queue.metadata.namespace->0),
        ),
        steps(queue, seq![teardown, Ok(())])[2] == StepView::<E>::Done(Ok(Action::AwaitChange)),
{
    let replies: Seq<Reply<E>> = seq![teardown, Ok(())];
    reveal_with_fuel(steps, 3);
    assert(replies.drop_last() =~= seq![teardown]);
    assert(replies.drop_last().drop_last() =~= Seq::<Reply<E>>::empty());
}

} // verus!
