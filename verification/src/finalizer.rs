//! The finalizer protocol: the marker by which the controller tells the platform
//! that a queue may not be erased yet, and the patches that set and clear it.

use vstd::prelude::*;
use crate::crd::{ObjectMeta, ObjectMetaView};

verus! {

/// The marker this controller puts on a queue whose replica set it still has to
/// take down.
pub const FINALIZER: &'static str = "queues.example.com/finalizer";

/// A merge patch for the finalizers of an object. Merging replaces the list as a
/// whole: it neither appends to what the object has nor keeps any of it.
#[derive(Clone, Debug, PartialEq, Eq)]
pub enum FinalizerPatch {
    /// Make the finalizers exactly this list.
    Replace(Vec<String>),
    /// Remove the finalizers altogether.
    Clear,
}

/// Mathematical value of a [`FinalizerPatch`].
pub enum FinalizerPatchView {
    Replace(Seq<Seq<char>>),
    Clear,
}

impl View for FinalizerPatch {
    type V = FinalizerPatchView;

    open spec fn view(&self) -> FinalizerPatchView {
        match self {
            FinalizerPatch::Replace(finalizers) => FinalizerPatchView::Replace(finalizers.deep_view()),
            FinalizerPatch::Clear => FinalizerPatchView::Clear,
        }
    }
}

impl FinalizerPatchView {
    /// The finalizers of an object once the platform has merged the patch into it.
    pub open spec fn merged(self) -> Option<Seq<Seq<char>>> {
        match self {
            FinalizerPatchView::Replace(finalizers) => Some(finalizers),
            FinalizerPatchView::Clear => None,
        }
    }

    /// The metadata of an object once the platform has merged the patch into it.
    pub open spec fn applied_to(self, meta: ObjectMetaView) -> ObjectMetaView {
        ObjectMetaView { finalizers: self.merged(), ..meta }
    }
}

impl FinalizerPatch {
    /// Merges the patch into `meta` as the platform does.
    pub fn apply(&self, meta: ObjectMeta) -> (patched: ObjectMeta)
        ensures
            patched@ == self@.applied_to(meta@),
    {
        let finalizers = match self {
            FinalizerPatch::Replace(finalizers) => {
                let mut copy: Vec<String> = Vec::new();
                let mut at: usize = 0;
                while at < finalizers.len()
                    invariant
                        at <= finalizers.len(),
                        copy@ == finalizers@.take(at as int),
                    decreases finalizers.len() - at,
                {
                    copy.push(finalizers[at].clone());
                    proof {
                        assert(copy@ =~= finalizers@.take(at + 1));
                    }
                    at += 1;
                }
                proof {
                    assert(copy@ =~= finalizers@);
                }
                Some(copy)
            },
            FinalizerPatch::Clear => None,
        };
        ObjectMeta {
            name: meta.name,
            generate_name: meta.generate_name,
            namespace: meta.namespace,
            deletion_timestamp: meta.deletion_timestamp,
            finalizers,
        }
    }
}

/// A patch, and the queue to send it for.
#[derive(Clone, Debug, PartialEq, Eq)]
pub struct PatchRequest {
    pub namespace: String,
    pub name: String,
    pub patch: FinalizerPatch,
}

/// Mathematical value of a [`PatchRequest`].
pub struct PatchRequestView {
    pub namespace: Seq<char>,
    pub name: Seq<char>,
    pub patch: FinalizerPatchView,
}

impl View for PatchRequest {
    type V = PatchRequestView;

    open spec fn view(&self) -> PatchRequestView {
        PatchRequestView { namespace: self.namespace@, name: self.name@, patch: self.patch@ }
    }
}

/// The request that marks the queue `name` in `namespace` with [`FINALIZER`].
pub open spec fn add_request(name: Seq<char>, namespace: Seq<char>) -> PatchRequestView {
    PatchRequestView { namespace, name, patch: FinalizerPatchView::Replace(seq![FINALIZER@]) }
}

/// The request that releases the queue `name` in `namespace`.
pub open spec fn delete_request(name: Seq<char>, namespace: Seq<char>) -> PatchRequestView {
    PatchRequestView { namespace, name, patch: FinalizerPatchView::Clear }
}

/// Builds the request that marks the queue `name` in `namespace` with
/// [`FINALIZER`], so that the platform keeps the queue until the finalizer is
/// removed again.
pub fn add(name: &str, namespace: &str) -> (request: PatchRequest)
    ensures
        request@ == add_request(name@, namespace@),
{
    let mut finalizers: Vec<String> = Vec::new();
    finalizers.push(FINALIZER.to_owned());
    proof {
        assert(finalizers.deep_view() =~= seq![FINALIZER@]);
    }
    PatchRequest {
        namespace: namespace.to_owned(),
        name: name.to_owned(),
        patch: FinalizerPatch::Replace(finalizers),
    }
}

/// Builds the request that removes every finalizer from the queue `name` in
/// `namespace`, after which the platform is free to erase the queue.
pub fn delete(name: &str, namespace: &str) -> (request: PatchRequest)
    ensures
        request@ == delete_request(name@, namespace@),
{
    PatchRequest {
        namespace: namespace.to_owned(),
        name: name.to_owned(),
        patch: FinalizerPatch::Clear,
    }
}

/// Marking a queue twice leaves it as marking it once does: with [`FINALIZER`]
/// as its only finalizer, whatever it carried before.
pub proof fn lemma_add_is_idempotent(name: Seq<char>, namespace: Seq<char>, meta: ObjectMetaView)
    ensures
        add_request(name, namespace).patch.applied_to(meta).finalizers == Some(seq![FINALIZER@]),
        add_request(name, namespace).patch.applied_to(
            add_request(name, namespace).patch.applied_to(meta),
        ) == add_request(name, namespace).patch.applied_to(meta),
{
}

/// Releasing a queue twice leaves it as releasing it once does: without
/// finalizers, whatever it carried before.
pub proof fn lemma_delete_is_idempotent(name: Seq<char>, namespace: Seq<char>, meta: ObjectMetaView)
    ensures
        delete_request(name, namespace).patch.applied_to(meta).finalizers is None,
        delete_request(name, namespace).patch.applied_to(
            delete_request(name, namespace).patch.applied_to(meta),
        ) == delete_request(name, namespace).patch.applied_to(meta),
{
}

} // verus!
