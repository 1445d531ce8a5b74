use queue_controller::controller::{determine_action, QueueAction};
use queue_controller::crd::{ObjectMeta, Queue, QueueSpec};

fn queue(deletion_timestamp: Option<i64>, finalizers: Option<Vec<&str>>) -> Queue {
    Queue {
        metadata: ObjectMeta {
            name: Some("q1".to_string()),
            generate_name: None,
            namespace: Some("default".to_string()),
            deletion_timestamp,
            finalizers: finalizers.map(|list| list.into_iter().map(String::from).collect()),
        },
        spec: QueueSpec { replicas: 3 },
    }
}

#[test]
fn deletion_outranks_every_finalizer_state() {
    let stamp = Some(1_700_000_000);
    assert_eq!(determine_action(&queue(stamp, None)), QueueAction::Delete);
    assert_eq!(determine_action(&queue(stamp, Some(vec![]))), QueueAction::Delete);
    assert_eq!(
        determine_action(&queue(stamp, Some(vec!["queues.example.com/finalizer"]))),
        QueueAction::Delete
    );
    assert_eq!(
        determine_action(&queue(stamp, Some(vec!["someone.else/finalizer", "another"]))),
        QueueAction::Delete
    );
}

#[test]
fn deletion_at_the_epoch_still_counts() {
    assert_eq!(determine_action(&queue(Some(0), None)), QueueAction::Delete);
    assert_eq!(determine_action(&queue(Some(-1), Some(vec![]))), QueueAction::Delete);
}

#[test]
fn absent_finalizers_call_for_creation() {
    assert_eq!(determine_action(&queue(None, None)), QueueAction::Create);
}

#[test]
fn empty_finalizers_call_for_creation() {
    assert_eq!(determine_action(&queue(None, Some(vec![]))), QueueAction::Create);
}

#[test]
fn own_finalizer_calls_for_nothing() {
    assert_eq!(
        determine_action(&queue(None, Some(vec!["queues.example.com/finalizer"]))),
        QueueAction::NoOp
    );
}

#[test]
fn any_finalizer_calls_for_nothing() {
    assert_eq!(
        determine_action(&queue(None, Some(vec!["someone.else/finalizer"]))),
        QueueAction::NoOp
    );
    assert_eq!(determine_action(&queue(None, Some(vec![""]))), QueueAction::NoOp);
}

#[test]
fn classification_reads_metadata_only() {
    let mut many = queue(None, None);
    many.spec.replicas = 1000;
    many.metadata.name = None;
    many.metadata.namespace = None;
    assert_eq!(determine_action(&many), QueueAction::Create);
}

#[test]
fn name_any_prefers_the_name() {
    let mut q = queue(None, None);
    q.metadata.generate_name = Some("q-".to_string());
    assert_eq!(q.name_any(), "q1");
}

#[test]
fn name_any_falls_back_on_the_prefix() {
    let mut q = queue(None, None);
    q.metadata.name = None;
    q.metadata.generate_name = Some("q-".to_string());
    assert_eq!(q.name_any(), "q-");
}

#[test]
fn name_any_is_empty_without_either() {
    let mut q = queue(None, None);
    q.metadata.name = None;
    assert_eq!(q.name_any(), "");
}

#[test]
fn namespace_is_handed_out_as_it_is() {
    let mut q = queue(None, None);
    assert_eq!(q.namespace(), Some("default".to_string()));
    q.metadata.namespace = None;
    assert_eq!(q.namespace(), None);
    assert_eq!(q.meta(), &q.metadata);
}
