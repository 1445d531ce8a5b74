use queue_controller::api::{Failure, Reply};
use queue_controller::controller::{
    on_error, reconcile, resume, Action, Error, Reconciliation, Request, Stage, Step,
    NAMESPACE_REQUIRED, REQUEUE_SECONDS, RETRY_SECONDS,
};
use queue_controller::crd::{ObjectMeta, Queue, QueueSpec};
use queue_controller::finalizer::FINALIZER;

fn queue(
    namespace: Option<&str>,
    replicas: i32,
    deletion_timestamp: Option<i64>,
    finalizers: Option<Vec<&str>>,
) -> Queue {
    Queue {
        metadata: ObjectMeta {
            name: Some("q1".to_string()),
            generate_name: None,
            namespace: namespace.map(String::from),
            deletion_timestamp,
            finalizers: finalizers.map(|list| list.into_iter().map(String::from).collect()),
        },
        spec: QueueSpec { replicas },
    }
}

/// Stands in for the platform: answers the calls of one reconciliation from a
/// script and keeps the calls in the order in which they were issued.
fn run(queue: &Queue, script: Vec<Reply<String>>) -> (Vec<Request>, Result<Action, Error<String>>) {
    let mut replies = script.into_iter();
    let mut calls = Vec::new();
    let mut step = reconcile::<String>(queue);
    loop {
        match step {
            Step::Done(verdict) => {
                assert!(replies.next().is_none(), "the script holds a reply that no call asked for");
                return (calls, verdict);
            }
            Step::Call { request, pending } => {
                calls.push(request);
                let reply = replies.next().expect("the script holds no reply to this call");
                step = resume(pending, reply);
            }
        }
    }
}

fn refused(status: u16, source: &str) -> Reply<String> {
    Err(Failure { status: Some(status), source: source.to_string() })
}

#[test]
fn a_new_queue_is_marked_and_then_deployed() {
    let q = queue(Some("default"), 3, None, Some(vec![]));
    let (calls, verdict) = run(&q, vec![Ok(()), Ok(())]);
    assert_eq!(
        calls,
        vec![
            Request::Patch(queue_controller::finalizer::add("q1", "default")),
            Request::Create(queue_controller::queue::deploy("q1", 3, "default")),
        ]
    );
    assert_eq!(verdict, Ok(Action::Requeue { seconds: 10 }));
}

#[test]
fn a_deleted_queue_is_torn_down_and_then_released() {
    let q = queue(Some("default"), 3, Some(1_700_000_000), Some(vec![FINALIZER]));
    let (calls, verdict) = run(&q, vec![Ok(()), Ok(())]);
    assert_eq!(
        calls,
        vec![
            Request::Delete(queue_controller::queue::delete("q1", "default")),
            Request::Patch(queue_controller::finalizer::delete("q1", "default")),
        ]
    );
    assert_eq!(verdict, Ok(Action::AwaitChange));
}

#[test]
fn a_marked_queue_is_left_alone() {
    let q = queue(Some("default"), 3, None, Some(vec![FINALIZER]));
    let (calls, verdict) = run(&q, vec![]);
    assert_eq!(calls, vec![]);
    assert_eq!(verdict, Ok(Action::Requeue { seconds: 10 }));
}

#[test]
fn a_queue_without_namespace_is_refused_before_any_call() {
    for (deletion_timestamp, finalizers) in
        [(None, None), (None, Some(vec![FINALIZER])), (Some(7), None), (Some(7), Some(vec![FINALIZER]))]
    {
        let q = queue(None, 3, deletion_timestamp, finalizers);
        let (calls, verdict) = run(&q, vec![]);
        assert_eq!(calls, vec![]);
        assert_eq!(
            verdict,
            Err(Error::UserInputError(
                "Expected Queue resource to be namespaced. Can't deploy to an unknown namespace."
                    .to_string()
            ))
        );
    }
    assert_eq!(
        NAMESPACE_REQUIRED,
        "Expected Queue resource to be namespaced. Can't deploy to an unknown namespace."
    );
}

#[test]
fn the_finalizer_goes_only_after_the_replica_set() {
    let q = queue(Some("default"), 3, Some(1), Some(vec![FINALIZER]));
    let step = reconcile::<String>(&q);
    let pending = match step {
        Step::Call { request: Request::Delete(request), pending } => {
            assert_eq!(request, queue_controller::queue::delete("q1", "default"));
            assert_eq!(pending.stage, Stage::TearingDown);
            pending
        }
        other => panic!("teardown must come first, not {:?}", other),
    };
    // Nothing but the reply to the delete call leads on to the release.
    match resume::<String>(pending, Ok(())) {
        Step::Call { request: Request::Patch(request), pending } => {
            assert_eq!(request, queue_controller::finalizer::delete("q1", "default"));
            assert_eq!(pending.stage, Stage::RemovingFinalizer);
        }
        other => panic!("release must follow the teardown, not {:?}", other),
    }
}

#[test]
fn a_failed_teardown_keeps_the_finalizer() {
    let q = queue(Some("default"), 3, Some(1), Some(vec![FINALIZER]));
    for status in [403, 409, 500, 503] {
        let (calls, verdict) = run(&q, vec![refused(status, "teardown failed")]);
        assert_eq!(calls, vec![Request::Delete(queue_controller::queue::delete("q1", "default"))]);
        assert_eq!(verdict, Err(Error::KubeError { source: "teardown failed".to_string() }));
    }
    let broken: Reply<String> = Err(Failure { status: None, source: "connection reset".to_string() });
    let (calls, verdict) = run(&q, vec![broken]);
    assert_eq!(calls.len(), 1);
    assert_eq!(verdict, Err(Error::KubeError { source: "connection reset".to_string() }));
}

#[test]
fn an_absent_replica_set_counts_as_torn_down() {
    let q = queue(Some("default"), 3, Some(1), Some(vec![FINALIZER]));
    let (calls, verdict) = run(&q, vec![refused(404, "replicasets \"q1\" not found"), Ok(())]);
    assert_eq!(
        calls,
        vec![
            Request::Delete(queue_controller::queue::delete("q1", "default")),
            Request::Patch(queue_controller::finalizer::delete("q1", "default")),
        ]
    );
    assert_eq!(verdict, Ok(Action::AwaitChange));
}

#[test]
fn a_deletion_is_served_even_if_the_queue_was_never_marked() {
    for finalizers in [None, Some(vec![])] {
        let q = queue(Some("default"), 3, Some(1), finalizers);
        let (calls, verdict) = run(&q, vec![refused(404, "gone"), Ok(())]);
        assert_eq!(calls.len(), 2);
        assert_eq!(calls[0], Request::Delete(queue_controller::queue::delete("q1", "default")));
        assert_eq!(verdict, Ok(Action::AwaitChange));
    }
}

#[test]
fn a_failed_release_is_reported() {
    let q = queue(Some("default"), 3, Some(1), Some(vec![FINALIZER]));
    let (calls, verdict) = run(&q, vec![Ok(()), refused(409, "conflict")]);
    assert_eq!(calls.len(), 2);
    assert_eq!(verdict, Err(Error::KubeError { source: "conflict".to_string() }));
}

#[test]
fn not_found_is_forgiven_for_the_teardown_only() {
    let q = queue(Some("default"), 3, Some(1), Some(vec![FINALIZER]));
    let (calls, verdict) = run(&q, vec![Ok(()), refused(404, "queue gone")]);
    assert_eq!(calls.len(), 2);
    assert_eq!(verdict, Err(Error::KubeError { source: "queue gone".to_string() }));

    let q = queue(Some("default"), 3, None, None);
    let (calls, verdict) = run(&q, vec![refused(404, "queue gone")]);
    assert_eq!(calls.len(), 1);
    assert_eq!(verdict, Err(Error::KubeError { source: "queue gone".to_string() }));

    let (calls, verdict) = run(&q, vec![Ok(()), refused(404, "namespace gone")]);
    assert_eq!(calls.len(), 2);
    assert_eq!(verdict, Err(Error::KubeError { source: "namespace gone".to_string() }));
}

#[test]
fn a_failed_mark_deploys_nothing() {
    let q = queue(Some("default"), 3, None, None);
    let (calls, verdict) = run(&q, vec![refused(403, "forbidden")]);
    assert_eq!(calls, vec![Request::Patch(queue_controller::finalizer::add("q1", "default"))]);
    assert_eq!(verdict, Err(Error::KubeError { source: "forbidden".to_string() }));
}

#[test]
fn a_second_deploy_fails_as_the_platform_says() {
    let q = queue(Some("default"), 3, None, None);
    let (calls, verdict) = run(&q, vec![Ok(()), refused(409, "replicasets \"q1\" already exists")]);
    assert_eq!(calls.len(), 2);
    assert_eq!(
        verdict,
        Err(Error::KubeError { source: "replicasets \"q1\" already exists".to_string() })
    );
}

#[test]
fn the_failure_is_handed_on_untouched() {
    let pending = Reconciliation {
        name: "q1".to_string(),
        namespace: "default".to_string(),
        replicas: 3,
        stage: Stage::Deploying,
    };
    let source = (17u64, vec![1u8, 2, 3]);
    let step = resume(pending, Err(Failure { status: Some(500), source: source.clone() }));
    assert_eq!(step, Step::Done(Err(Error::KubeError { source })));
}

#[test]
fn every_stage_goes_on_as_resolved_at_the_start() {
    let at = |stage| Reconciliation {
        name: "orders".to_string(),
        namespace: "shop".to_string(),
        replicas: 5,
        stage,
    };
    assert_eq!(
        resume::<()>(at(Stage::AddingFinalizer), Ok(())),
        Step::Call {
            request: Request::Create(queue_controller::queue::deploy("orders", 5, "shop")),
            pending: at(Stage::Deploying),
        }
    );
    assert_eq!(
        resume::<()>(at(Stage::Deploying), Ok(())),
        Step::Done(Ok(Action::Requeue { seconds: 10 }))
    );
    assert_eq!(
        resume::<()>(at(Stage::TearingDown), Ok(())),
        Step::Call {
            request: Request::Patch(queue_controller::finalizer::delete("orders", "shop")),
            pending: at(Stage::RemovingFinalizer),
        }
    );
    assert_eq!(resume::<()>(at(Stage::RemovingFinalizer), Ok(())), Step::Done(Ok(Action::AwaitChange)));
}

#[test]
fn a_queue_known_by_its_prefix_is_addressed_by_it() {
    let mut q = queue(Some("default"), 2, None, None);
    q.metadata.name = None;
    q.metadata.generate_name = Some("q-".to_string());
    let (calls, _) = run(&q, vec![Ok(()), Ok(())]);
    assert_eq!(
        calls,
        vec![
            Request::Patch(queue_controller::finalizer::add("q-", "default")),
            Request::Create(queue_controller::queue::deploy("q-", 2, "default")),
        ]
    );
}

#[test]
fn errors_are_retried_sooner_than_the_steady_state() {
    let q = queue(Some("default"), 3, None, None);
    let kube: Error<String> = Error::KubeError { source: "boom".to_string() };
    let user: Error<String> = Error::UserInputError("bad".to_string());
    assert_eq!(on_error(&q, &kube), Action::Requeue { seconds: 5 });
    assert_eq!(on_error(&q, &user), Action::Requeue { seconds: 5 });
    assert_eq!(RETRY_SECONDS, 5);
    assert_eq!(REQUEUE_SECONDS, 10);
    assert!(RETRY_SECONDS < REQUEUE_SECONDS);
}

#[test]
fn directives_are_what_their_builders_say() {
    assert_eq!(Action::requeue(10), Action::Requeue { seconds: 10 });
    assert_eq!(Action::requeue(0), Action::Requeue { seconds: 0 });
    assert_eq!(Action::await_change(), Action::AwaitChange);
}

#[test]
fn reprocessing_a_snapshot_gives_the_same_calls() {
    let q = queue(Some("default"), 3, Some(1), Some(vec![FINALIZER]));
    let first = run(&q, vec![Ok(()), Ok(())]);
    let second = run(&q, vec![refused(404, "already gone"), Ok(())]);
    assert_eq!(first, second);
}
