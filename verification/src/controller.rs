//! The decisions of one reconciliation: what a snapshot calls for, which call
//! to issue next, and what to tell the runtime at the end.
//!
//! A reconciliation is a short conversation with the platform. [`reconcile`]
//! opens it, [`resume`] takes every reply, and each of them answers with a
//! [`Step`]: either the next call to perform or the final verdict. Nothing is
//! remembered between reconciliations; every one starts from the snapshot.

use vstd::prelude::*;
use crate::api::{Failure, Reply};
use crate::crd::{ObjectMetaView, Queue, QueueView};
use crate::finalizer::{
    add_request,
    delete_request,
    FinalizerPatchView,
    PatchRequest,
    PatchRequestView,
    FINALIZER,
};
use crate::queue::{
    desired_replica_set,
    teardown_outcome,
    torn_down,
    DeleteRequest,
    DeleteRequestView,
    ReplicaSet,
    ReplicaSetView,
};

verus! {

/// Seconds after which a queue in its steady state is looked at again.
pub const REQUEUE_SECONDS: u64 = 10;

/// Seconds after which a failed reconciliation is tried again.
pub const RETRY_SECONDS: u64 = 5;

/// Why a queue without a namespace cannot be reconciled.
pub const NAMESPACE_REQUIRED: &'static str =
    "Expected Queue resource to be namespaced. Can't deploy to an unknown namespace.";

/// What a `Queue` snapshot calls for.
#[derive(Clone, Copy, Debug, PartialEq, Eq)]
pub enum QueueAction {
    /// Mark the queue with the finalizer and bring up its replica set.
    Create,
    /// Take the replica set down and release the queue.
    Delete,
    /// Nothing to change.
    NoOp,
}

/// The action a snapshot with metadata `meta` calls for. A deletion request
/// outranks everything else; without one, a queue that carries no finalizer has
/// not been set up yet.
pub open spec fn action_for(meta: ObjectMetaView) -> QueueAction {
    if meta.deletion_timestamp is Some {
        QueueAction::Delete
    } else if meta.has_no_finalizer() {
        QueueAction::Create
    } else {
        QueueAction::NoOp
    }
}

/// Classifies a snapshot by its metadata alone.
pub fn determine_action(queue: &Queue) -> (action: QueueAction)
    ensures
        action == action_for(queue@.metadata),
        queue@.metadata.deletion_timestamp is Some ==> action == QueueAction::Delete,
        queue@.metadata.deletion_timestamp is None && (queue@.metadata.finalizers is None
            || queue@.metadata.finalizers->0.len() == 0) ==> action == QueueAction::Create,
        queue@.metadata.deletion_timestamp is None && queue@.metadata.finalizers is Some
            && queue@.metadata.finalizers->0.len() > 0 ==> action == QueueAction::NoOp,
{
    if queue.meta().deletion_timestamp.is_some() {
        QueueAction::Delete
    } else {
        let unmarked = match &queue.meta().finalizers {
            Some(finalizers) => finalizers.len() == 0,
            None => true,
        };
        if unmarked {
            QueueAction::Create
        } else {
            QueueAction::NoOp
        }
    }
}

/// What the runtime is to do with a queue once a reconciliation is over.
#[derive(Clone, Copy, Debug, PartialEq, Eq)]
pub enum Action {
    /// Reconcile again after so many seconds, even if nothing changes meanwhile.
    Requeue { seconds: u64 },
    /// Reconcile again only when the queue changes.
    AwaitChange,
}

impl Action {
    /// Reconcile again after `seconds`, even if nothing changes meanwhile.
    pub fn requeue(seconds: u64) -> (action: Action)
        ensures
            action == (Action::Requeue { seconds }),
    {
        Action::Requeue { seconds }
    }

    /// Reconcile again only when the queue changes.
    pub fn await_change() -> (action: Action)
        ensures
            action == Action::AwaitChange,
    {
        Action::AwaitChange
    }
}

/// Why a reconciliation failed.
#[derive(Clone, Debug, PartialEq, Eq)]
pub enum Error<E> {
    /// A call on the platform failed; `source` is the failure as the client
    /// reported it.
    KubeError { source: E },
    /// The queue itself is at fault.
    UserInputError(String),
}

/// Mathematical value of an [`Error`].
pub enum ErrorView<E> {
    KubeError { source: E },
    UserInputError(Seq<char>),
}

impl<E> View for Error<E> {
    type V = ErrorView<E>;

    open spec fn view(&self) -> ErrorView<E> {
        match self {
            Error::KubeError { source } => ErrorView::KubeError { source: *source },
            Error::UserInputError(message) => ErrorView::UserInputError(message@),
        }
    }
}

/// A call on the platform.
#[derive(Clone, Debug, PartialEq, Eq)]
pub enum Request {
    /// Merge a patch into the finalizers of a queue.
    Patch(PatchRequest),
    /// Create a replica set.
    Create(ReplicaSet),
    /// Delete a replica set.
    Delete(DeleteRequest),
}

/// Mathematical value of a [`Request`].
pub enum RequestView {
    Patch(PatchRequestView),
    Create(ReplicaSetView),
    Delete(DeleteRequestView),
}

impl View for Request {
    type V = RequestView;

    open spec fn view(&self) -> RequestView {
        match self {
            Request::Patch(request) => RequestView::Patch(request@),
            Request::Create(replicaset) => RequestView::Create(replicaset@),
            Request::Delete(request) => RequestView::Delete(request@),
        }
    }
}

/// The call a reconciliation waits for.
#[derive(Clone, Copy, Debug, PartialEq, Eq)]
pub enum Stage {
    /// The patch that marks the queue with the finalizer is under way.
    AddingFinalizer,
    /// The creation of the replica set is under way.
    Deploying,
    /// The deletion of the replica set is under way.
    TearingDown,
    /// The patch that releases the queue is under way.
    RemovingFinalizer,
}

/// A reconciliation between two calls: the queue it is about, as resolved from
/// the snapshot, and the call it waits for.
#[derive(Clone, Debug, PartialEq, Eq)]
pub struct Reconciliation {
    pub name: String,
    pub namespace: String,
    pub replicas: i32,
    pub stage: Stage,
}

/// Mathematical value of a [`Reconciliation`].
pub struct ReconciliationView {
    pub name: Seq<char>,
    pub namespace: Seq<char>,
    pub replicas: i32,
    pub stage: Stage,
}

impl View for Reconciliation {
    type V = ReconciliationView;

    open spec fn view(&self) -> ReconciliationView {
        ReconciliationView {
            name: self.name@,
            namespace: self.namespace@,
            replicas: self.replicas,
            stage: self.stage,
        }
    }
}

/// One move of a reconciliation.
#[derive(Debug, PartialEq, Eq)]
pub enum Step<E> {
    /// Perform `request` and hand the reply, with `pending`, to [`resume`].
    Call { request: Request, pending: Reconciliation },
    /// The reconciliation is over.
    Done(Result<Action, Error<E>>),
}

/// Mathematical value of a [`Step`].
pub enum StepView<E> {
    Call { request: RequestView, pending: ReconciliationView },
    Done(Result<Action, ErrorView<E>>),
}

impl<E> View for Step<E> {
    type V = StepView<E>;

    open spec fn view(&self) -> StepView<E> {
        match self {
            Step::Call { request, pending } => StepView::Call {
                request: request@,
                pending: pending@,
            },
            Step::Done(Ok(action)) => StepView::Done(Ok(*action)),
            Step::Done(Err(error)) => StepView::Done(Err(error@)),
        }
    }
}

impl<E> StepView<E> {
    /// The step asks for the deletion of a replica set.
    pub open spec fn tears_down(self) -> bool {
        self matches StepView::Call { request: RequestView::Delete(_), .. }
    }

    /// The step asks for the removal of the finalizers of a queue.
    pub open spec fn releases(self) -> bool {
        self matches StepView::Call { request: RequestView::Patch(request), .. }
            && request.patch is Clear
    }

    /// The step asks for the creation of a replica set.
    pub open spec fn deploys(self) -> bool {
        self matches StepView::Call { request: RequestView::Create(_), .. }
    }

    /// The step asks for the patch that marks a queue with the finalizer.
    pub open spec fn marks(self) -> bool {
        self matches StepView::Call { request: RequestView::Patch(request), .. }
            && request.patch == FinalizerPatchView::Replace(seq![FINALIZER@])
    }
}

/// The verdict on a reconciliation one of whose calls failed: the failure goes
/// to the runtime as the client reported it.
pub open spec fn failed<E>(failure: Failure<E>) -> StepView<E> {
    StepView::Done(Err(ErrorView::KubeError { source: failure.source }))
}

/// How the reconciliation of a snapshot opens.
///
/// A queue without a namespace is refused before any call. Otherwise the
/// snapshot's action decides: creation starts by marking the queue, deletion
/// starts by taking the replica set down, and a queue in its steady state is
/// looked at again later.
pub open spec fn first_step<E>(queue: QueueView) -> StepView<E> {
    match queue.metadata.namespace {
        None => StepView::Done(Err(ErrorView::UserInputError(NAMESPACE_REQUIRED@))),
        Some(namespace) => {
            let name = queue.metadata.name_any();
            let replicas = queue.spec.replicas;
            match action_for(queue.metadata) {
                QueueAction::Create => StepView::Call {
                    request: RequestView::Patch(add_request(name, namespace)),
                    pending: ReconciliationView {
                        name,
                        namespace,
                        replicas,
                        stage: Stage::AddingFinalizer,
                    },
                },
                QueueAction::Delete => StepView::Call {
                    request: RequestView::Delete(DeleteRequestView { namespace, name }),
                    pending: ReconciliationView {
                        name,
                        namespace,
                        replicas,
                        stage: Stage::TearingDown,
                    },
                },
                QueueAction::NoOp => StepView::Done(
                    Ok(Action::Requeue { seconds: REQUEUE_SECONDS }),
                ),
            }
        },
    }
}

/// How a reconciliation goes on once the platform has answered the call it
/// waited for.
///
/// A failed call ends it, with one exception: a replica set that was already
/// gone counts as taken down. The replica set is created only once the queue is
/// marked, and the queue is released only once the replica set is gone.
pub open spec fn next_step<E>(pending: ReconciliationView, reply: Reply<E>) -> StepView<E> {
    match pending.stage {
        Stage::AddingFinalizer => match reply {
            Ok(()) => StepView::Call {
                request: RequestView::Create(
                    desired_replica_set(pending.name, pending.replicas, pending.namespace),
                ),
                pending: ReconciliationView { stage: Stage::Deploying, ..pending },
            },
            Err(failure) => failed(failure),
        },
        Stage::Deploying => match reply {
            Ok(()) => StepView::Done(Ok(Action::Requeue { seconds: REQUEUE_SECONDS })),
            Err(failure) => failed(failure),
        },
        Stage::TearingDown => match teardown_outcome(reply) {
            Ok(()) => StepView::Call {
                request: RequestView::Patch(delete_request(pending.name, pending.namespace)),
                pending: ReconciliationView { stage: Stage::RemovingFinalizer, ..pending },
            },
            Err(failure) => failed(failure),
        },
        Stage::RemovingFinalizer => match reply {
            Ok(()) => StepView::Done(Ok(Action::AwaitChange)),
            Err(failure) => failed(failure),
        },
    }
}

/// Opens the reconciliation of a snapshot.
pub fn reconcile<E>(queue: &Queue) -> (step: Step<E>)
    ensures
        step@ == first_step::<E>(queue@),
        queue@.metadata.namespace is None <==> step@ is Done && step@->Done_0 is Err,
        step@ is Done && step@->Done_0 is Ok <==> queue@.metadata.namespace is Some && action_for(
            queue@.metadata,
        ) == QueueAction::NoOp,
{
    let namespace = match queue.namespace() {
        None => {
            return Step::Done(Err(Error::UserInputError(NAMESPACE_REQUIRED.to_owned())));
        },
        Some(namespace) => namespace,
    };
    let name = queue.name_any();
    let replicas = queue.spec.replicas;
    match determine_action(queue) {
        QueueAction::Create => {
            let request = crate::finalizer::add(name.as_str(), namespace.as_str());
            Step::Call {
                request: Request::Patch(request),
                pending: Reconciliation { name, namespace, replicas, stage: Stage::AddingFinalizer },
            }
        },
        QueueAction::Delete => {
            let request = crate::queue::delete(name.as_str(), namespace.as_str());
            Step::Call {
                request: Request::Delete(request),
                pending: Reconciliation { name, namespace, replicas, stage: Stage::TearingDown },
            }
        },
        QueueAction::NoOp => Step::Done(Ok(Action::requeue(REQUEUE_SECONDS))),
    }
}

/// Takes the platform's reply to the call that `pending` waited for and says
/// how the reconciliation goes on.
pub fn resume<E>(pending: Reconciliation, reply: Reply<E>) -> (step: Step<E>)
    ensures
        step@ == next_step(pending@, reply),
        step@ is Done && step@->Done_0 is Err <==> reply is Err && !(pending.stage
            == Stage::TearingDown && reply->Err_0.not_found()),
        step@ matches StepView::Done(Err(error)) ==> error == (ErrorView::KubeError {
            source: reply->Err_0.source,
        }),
{
    let reply = match pending.stage {
        Stage::TearingDown => torn_down(reply),
        _ => reply,
    };
    match reply {
        Err(failure) => Step::Done(Err(Error::KubeError { source: failure.source })),
        Ok(()) => match pending.stage {
            Stage::AddingFinalizer => {
                let replicaset = crate::queue::deploy(
                    pending.name.as_str(),
                    pending.replicas,
                    pending.namespace.as_str(),
                );
                Step::Call {
                    request: Request::Create(replicaset),
                    pending: Reconciliation {
                        name: pending.name,
                        namespace: pending.namespace,
                        replicas: pending.replicas,
                        stage: Stage::Deploying,
                    },
                }
            },
            Stage::Deploying => Step::Done(Ok(Action::requeue(REQUEUE_SECONDS))),
            Stage::TearingDown => {
                let request = crate::finalizer::delete(
                    pending.name.as_str(),
                    pending.namespace.as_str(),
                );
                Step::Call {
                    request: Request::Patch(request),
                    pending: Reconciliation {
                        name: pending.name,
                        namespace: pending.namespace,
                        replicas: pending.replicas,
                        stage: Stage::RemovingFinalizer,
                    },
                }
            },
            Stage::RemovingFinalizer => Step::Done(Ok(Action::await_change())),
        },
    }
}

/// What the runtime is to do with a queue whose reconciliation failed: try
/// again soon, and sooner than it would look at a queue in its steady state,
/// whichever queue it is and whatever went wrong. The whole reconciliation is
/// run again; no progress is carried over.
#[allow(unused_variables)]
pub fn on_error<E>(queue: &Queue, error: &E) -> (action: Action)
    ensures
        action == (Action::Requeue { seconds: RETRY_SECONDS }),
        action matches Action::Requeue { seconds } && seconds < REQUEUE_SECONDS,
{
    Action::requeue(RETRY_SECONDS)
}

/// A queue is set up once. After the patch that marks it has been merged, a
/// queue that is not being deleted calls for no action, so that no later
/// reconciliation creates its replica set a second time.
pub proof fn lemma_marked_queue_is_left_alone(
    name: Seq<char>,
    namespace: Seq<char>,
    meta: ObjectMetaView,
)
    requires
        meta.deletion_timestamp is None,
    ensures
        action_for(add_request(name, namespace).patch.applied_to(meta)) == QueueAction::NoOp,
{
}

} // verus!
