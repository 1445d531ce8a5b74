//! Snapshot of a `Queue` custom resource, holding the fields the controller reads.

use vstd::prelude::*;

verus! {

/// What the owner of a queue asks for.
#[derive(Clone, Copy, Debug, PartialEq, Eq)]
pub struct QueueSpec {
    /// Number of worker processes to keep running.
    pub replicas: i32,
}

/// Metadata the platform keeps for every object, reduced to what reconciliation reads.
#[derive(Clone, Debug, PartialEq, Eq)]
pub struct ObjectMeta {
    pub name: Option<String>,
    /// Prefix from which the platform derives a name when `name` is not given.
    pub generate_name: Option<String>,
    pub namespace: Option<String>,
    /// Seconds since the Unix epoch at which deletion was requested. Once set it
    /// is never cleared: the object is gone as soon as its finalizers are.
    pub deletion_timestamp: Option<i64>,
    /// Markers that block the permanent removal of the object.
    pub finalizers: Option<Vec<String>>,
}

/// Mathematical value of an [`ObjectMeta`].
pub struct ObjectMetaView {
    pub name: Option<Seq<char>>,
    pub generate_name: Option<Seq<char>>,
    pub namespace: Option<Seq<char>>,
    pub deletion_timestamp: Option<i64>,
    pub finalizers: Option<Seq<Seq<char>>>,
}

impl View for ObjectMeta {
    type V = ObjectMetaView;

    open spec fn view(&self) -> ObjectMetaView {
        ObjectMetaView {
            name: self.name.deep_view(),
            generate_name: self.generate_name.deep_view(),
            namespace: self.namespace.deep_view(),
            deletion_timestamp: self.deletion_timestamp,
            finalizers: self.finalizers.deep_view(),
        }
    }
}

impl ObjectMetaView {
    /// The name to address the object by: `name`, else `generate_name`, else the
    /// empty string.
    pub open spec fn name_any(self) -> Seq<char> {
        match self.name {
            Some(name) => name,
            None => match self.generate_name {
                Some(prefix) => prefix,
                None => Seq::empty(),
            },
        }
    }

    /// Whether the object carries no finalizer at all, be the list absent or empty.
    pub open spec fn has_no_finalizer(self) -> bool {
        match self.finalizers {
            Some(finalizers) => finalizers.len() == 0,
            None => true,
        }
    }
}

/// One observed state of a `Queue` object.
#[derive(Clone, Debug, PartialEq, Eq)]
pub struct Queue {
    pub metadata: ObjectMeta,
    pub spec: QueueSpec,
}

/// Mathematical value of a [`Queue`].
pub struct QueueView {
    pub metadata: ObjectMetaView,
    pub spec: QueueSpec,
}

impl View for Queue {
    type V = QueueView;

    open spec fn view(&self) -> QueueView {
        QueueView { metadata: self.metadata@, spec: self.spec }
    }
}

impl Queue {
    /// The metadata of the object.
    pub fn meta(&self) -> (meta: &ObjectMeta)
        ensures
            *meta == self.metadata,
    {
        &self.metadata
    }

    /// The namespace the object lives in, if it lives in one.
    pub fn namespace(&self) -> (namespace: Option<String>)
        ensures
            namespace.deep_view() == self@.metadata.namespace,
    {
        match &self.metadata.namespace {
            Some(namespace) => Some(namespace.clone()),
            None => None,
        }
    }

    /// The name to address the object by: its name, else the prefix that the
    /// platform derives its name from, else the empty string.
    pub fn name_any(&self) -> (name: String)
        ensures
            name@ == self@.metadata.name_any(),
    {
        match &self.metadata.name {
            Some(name) => name.clone(),
            None => match &self.metadata.generate_name {
                Some(prefix) => prefix.clone(),
                None => String::new(),
            },
        }
    }
}

} // verus!
