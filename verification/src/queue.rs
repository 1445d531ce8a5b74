//! The replica set that realises a queue: its desired shape, and the calls that
//! bring it up and take it down.

use vstd::prelude::*;
use crate::api::Reply;
use crate::labels::{inserted, Labels};

verus! {

/// Key of the label by which a replica set selects its pods.
pub const APP_LABEL: &'static str = "app";

/// Image every worker runs.
pub const IMAGE: &'static str = "queue";

/// When the platform pulls the image.
pub const IMAGE_PULL_POLICY: &'static str = "IfNotPresent";

/// Port every worker listens on.
pub const CONTAINER_PORT: i32 = 8080;

/// A port that a container exposes.
#[derive(Clone, Copy, Debug, PartialEq, Eq)]
pub struct ContainerPort {
    pub container_port: i32,
}

/// A container of the pod template.
#[derive(Clone, Debug, PartialEq, Eq)]
pub struct Container {
    pub name: String,
    pub image: String,
    pub image_pull_policy: String,
    pub ports: Vec<ContainerPort>,
}

/// Mathematical value of a [`Container`].
pub struct ContainerView {
    pub name: Seq<char>,
    pub image: Seq<char>,
    pub image_pull_policy: Seq<char>,
    pub ports: Seq<ContainerPort>,
}

impl View for Container {
    type V = ContainerView;

    open spec fn view(&self) -> ContainerView {
        ContainerView {
            name: self.name@,
            image: self.image@,
            image_pull_policy: self.image_pull_policy@,
            ports: self.ports@,
        }
    }
}

/// The pods a replica set stamps out.
#[derive(Clone, Debug, PartialEq, Eq)]
pub struct PodTemplate {
    pub labels: Labels,
    pub containers: Vec<Container>,
}

/// Mathematical value of a [`PodTemplate`].
pub struct PodTemplateView {
    pub labels: Seq<(Seq<char>, Seq<char>)>,
    pub containers: Seq<ContainerView>,
}

impl View for PodTemplate {
    type V = PodTemplateView;

    open spec fn view(&self) -> PodTemplateView {
        PodTemplateView {
            labels: self.labels@,
            containers: self.containers@.map_values(|container: Container| container@),
        }
    }
}

/// A replica set, reduced to the fields the controller sets.
#[derive(Clone, Debug, PartialEq, Eq)]
pub struct ReplicaSet {
    pub name: String,
    pub namespace: String,
    pub labels: Labels,
    /// Number of pods to keep running.
    pub replicas: i32,
    /// Labels a pod must carry to count as one of this replica set's.
    pub match_labels: Labels,
    pub template: PodTemplate,
}

/// Mathematical value of a [`ReplicaSet`].
pub struct ReplicaSetView {
    pub name: Seq<char>,
    pub namespace: Seq<char>,
    pub labels: Seq<(Seq<char>, Seq<char>)>,
    pub replicas: i32,
    pub match_labels: Seq<(Seq<char>, Seq<char>)>,
    pub template: PodTemplateView,
}

impl View for ReplicaSet {
    type V = ReplicaSetView;

    open spec fn view(&self) -> ReplicaSetView {
        ReplicaSetView {
            name: self.name@,
            namespace: self.namespace@,
            labels: self.labels@,
            replicas: self.replicas,
            match_labels: self.match_labels@,
            template: self.template@,
        }
    }
}

/// The labels that tie a replica set, its selector and its pods to the queue
/// called `name`: the one label that binds [`APP_LABEL`] to the name.
pub open spec fn queue_labels(name: Seq<char>) -> Seq<(Seq<char>, Seq<char>)> {
    seq![(APP_LABEL@, name)]
}

/// The replica set that the queue `name` in `namespace` calls for when it asks
/// for `replicas` workers. It bears the queue's name, and so does its one
/// container.
pub open spec fn desired_replica_set(
    name: Seq<char>,
    replicas: i32,
    namespace: Seq<char>,
) -> ReplicaSetView {
    ReplicaSetView {
        name,
        namespace,
        labels: queue_labels(name),
        replicas,
        match_labels: queue_labels(name),
        template: PodTemplateView {
            labels: queue_labels(name),
            containers: seq![
                ContainerView {
                    name,
                    image: IMAGE@,
                    image_pull_policy: IMAGE_PULL_POLICY@,
                    ports: seq![ContainerPort { container_port: CONTAINER_PORT }],
                },
            ],
        },
    }
}

/// Builds the replica set to create for the queue `name` in `namespace`.
///
/// Creating is not idempotent: the platform refuses a second replica set of the
/// same name. The caller creates only for a queue that does not carry the
/// finalizer yet.
pub fn deploy(name: &str, replicas: i32, namespace: &str) -> (replicaset: ReplicaSet)
    ensures
        replicaset@ == desired_replica_set(name@, replicas, namespace@),
{
    let mut labels = Labels::new();
    labels.insert(APP_LABEL.to_owned(), name.to_owned());

    let mut ports: Vec<ContainerPort> = Vec::new();
    ports.push(ContainerPort { container_port: CONTAINER_PORT });
    let mut containers: Vec<Container> = Vec::new();
    containers.push(
        Container {
            name: name.to_owned(),
            image: IMAGE.to_owned(),
            image_pull_policy: IMAGE_PULL_POLICY.to_owned(),
            ports,
        },
    );
    let replicaset = ReplicaSet {
        name: name.to_owned(),
        namespace: namespace.to_owned(),
        labels: labels.clone(),
        replicas,
        match_labels: labels.clone(),
        template: PodTemplate { labels, containers },
    };
    proof {
        assert(inserted(Seq::empty(), APP_LABEL@, name@) =~= queue_labels(name@));
        assert(replicaset@.template.containers =~= desired_replica_set(
            name@,
            replicas,
            namespace@,
        ).template.containers);
    }
    replicaset
}

/// Which replica set to delete.
#[derive(Clone, Debug, PartialEq, Eq)]
pub struct DeleteRequest {
    pub namespace: String,
    pub name: String,
}

/// Mathematical value of a [`DeleteRequest`].
pub struct DeleteRequestView {
    pub namespace: Seq<char>,
    pub name: Seq<char>,
}

impl View for DeleteRequest {
    type V = DeleteRequestView;

    open spec fn view(&self) -> DeleteRequestView {
        DeleteRequestView { namespace: self.namespace@, name: self.name@ }
    }
}

/// Names the replica set to delete for the queue `name` in `namespace`.
pub fn delete(name: &str, namespace: &str) -> (request: DeleteRequest)
    ensures
        request@ == (DeleteRequestView { namespace: namespace@, name: name@ }),
{
    DeleteRequest { namespace: namespace.to_owned(), name: name.to_owned() }
}

/// What a reply to a delete call means for the teardown: the replica set is
/// gone when the platform deleted it and also when it was not there to begin
/// with. Any other failure stands.
pub open spec fn teardown_outcome<E>(reply: Reply<E>) -> Reply<E> {
    match reply {
        Ok(()) => Ok(()),
        Err(failure) => if failure.not_found() {
            Ok(())
        } else {
            Err(failure)
        },
    }
}

/// Judges the platform's reply to a delete call, so that a teardown may be
/// repeated: deleting what is already absent counts as success.
pub fn torn_down<E>(reply: Reply<E>) -> (outcome: Reply<E>)
    ensures
        outcome == teardown_outcome(reply),
        reply is Ok ==> outcome is Ok,
        reply matches Err(failure) && failure.not_found() ==> outcome is Ok,
        reply matches Err(failure) && !failure.not_found() ==> outcome == reply,
{
    match reply {
        Ok(()) => Ok(()),
        Err(failure) => if failure.is_not_found() {
            Ok(())
        } else {
            Err(failure)
        },
    }
}

} // verus!
