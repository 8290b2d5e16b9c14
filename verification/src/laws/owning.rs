//! Which objects an instance controls, and how that is written down.

use vstd::prelude::*;

use crate::crd::HawkbitModel;
use crate::error::Error;
use crate::objects::meta::{ObjectMetaModel, OwnerReferenceModel};
use crate::ownership;

verus! {

/// A reference to the instance: by kind, version and name.
pub open spec fn refers_to(reference: OwnerReferenceModel, owner: HawkbitModel) -> bool {
    &&& reference.kind == "Hawkbit"@
    &&& reference.api_version == "iot.eclipse.org/v1alpha1"@
    &&& reference.name == owner.metadata.name->0
}

/// The references of an object to its owners.
pub open spec fn references_of(meta: ObjectMetaModel) -> Seq<OwnerReferenceModel> {
    if meta.owner_references is Some {
        meta.owner_references->0
    } else {
        Seq::empty()
    }
}

/// A reference to something else that controls the object.
pub open spec fn is_taken(meta: ObjectMetaModel, owner: HawkbitModel) -> bool {
    meta.owner_references is Some && exists|i: int|
        0 <= i < meta.owner_references->0.len() && !refers_to(#[trigger] meta.owner_references->0[i], owner)
            && meta.owner_references->0[i].controller == Some(true)
}

/// An instance controls an object just if it has a name and UID, is in the namespace of the object or in none, and
/// nothing else controls the object; and why it does not, where it does not.
pub proof fn lemma_who_may_control(meta: ObjectMetaModel, owner: HawkbitModel)
    ensures
        ({
            let after = ownership::owned(meta, owner);
            let apart = owner.metadata.namespace is Some && meta.namespace != owner.metadata.namespace;
            let nameless = owner.metadata.name is None;
            let unknown = owner.metadata.uid is None;
            &&& apart && meta.namespace is None ==> after == Err::<ObjectMetaModel, Error>(Error::ClusterScoped)
            &&& apart && meta.namespace is Some ==> after == Err::<ObjectMetaModel, Error>(Error::NamespaceMismatch)
            &&& !apart && nameless ==> after == Err::<ObjectMetaModel, Error>(Error::MissingName)
            &&& !apart && !nameless && unknown ==> after == Err::<ObjectMetaModel, Error>(Error::MissingUid)
            &&& !apart && !nameless && !unknown && is_taken(meta, owner) ==> after == Err::<ObjectMetaModel, Error>(
                Error::AlreadyControlled,
            )
            &&& !apart && !nameless && !unknown && !is_taken(meta, owner) ==> after is Ok
        }),
{
    let reference = ownership::controller_reference(owner);
    if meta.owner_references is Some {
        let references = meta.owner_references->0;
        if is_taken(meta, owner) {
            let i = choose|i: int|
                0 <= i < references.len() && !refers_to(#[trigger] references[i], owner) && references[i].controller
                    == Some(true);
            assert(!ownership::same_owner(reference, references[i]));
        }
        if ownership::controlled_by_other(references, reference) {
            let i = choose|i: int|
                0 <= i < references.len() && !ownership::same_owner(reference, #[trigger] references[i])
                    && references[i].controller == Some(true);
            assert(!refers_to(references[i], owner));
        }
    }
}

/// Control is written down in one reference: the last one to the instance, which keeps its UID, or a new one at the
/// end. Nothing else in the metadata changes.
pub proof fn lemma_control_is_written(meta: ObjectMetaModel, owner: HawkbitModel, at: int)
    requires
        ownership::owned(meta, owner) is Ok,
        ({
            let before = references_of(meta);
            &&& 0 <= at <= before.len()
            &&& at < before.len() ==> refers_to(before[at], owner)
            &&& at < before.len() ==> forall|i: int| at < i < before.len() ==> !refers_to(#[trigger] before[i], owner)
            &&& at == before.len() ==> forall|i: int| 0 <= i < before.len() ==> !refers_to(#[trigger] before[i], owner)
        }),
    ensures
        ({
            let before = references_of(meta);
            let meta_after = ownership::owned(meta, owner)->Ok_0;
            let after = meta_after.owner_references->0;
            &&& meta_after.owner_references is Some
            &&& after.len() == if at < before.len() {
                before.len()
            } else {
                before.len() + 1
            }
            &&& refers_to(after[at], owner)
            &&& after[at].controller == Some(true)
            &&& after[at].block_owner_deletion is None
            &&& at < before.len() ==> after[at].uid == before[at].uid
            &&& at == before.len() ==> after[at].uid == owner.metadata.uid->0
            &&& forall|i: int| 0 <= i < before.len() && i != at ==> #[trigger] after[i] == before[i]
            &&& meta_after.name == meta.name
            &&& meta_after.namespace == meta.namespace
            &&& meta_after.uid == meta.uid
            &&& meta_after.labels == meta.labels
            &&& meta_after.annotations == meta.annotations
            &&& meta_after.rest == meta.rest
        }),
{
    let before = references_of(meta);
    let reference = ownership::controller_reference(owner);
    assert forall|i: int| 0 <= i < before.len() implies ownership::same_owner(reference, #[trigger] before[i])
        == refers_to(before[i], owner) by {
    }
    lemma_last(before, reference);
    let last = ownership::last_reference(before, reference);
    if at < before.len() {
        assert(ownership::same_owner(reference, before[at]));
        if last > at {
            assert(!refers_to(before[last], owner));
        }
        assert(last == at);
    } else {
        if last >= 0 {
            assert(!refers_to(before[last], owner));
        }
        assert(last == -1);
    }
}

proof fn lemma_last(references: Seq<OwnerReferenceModel>, owner: OwnerReferenceModel)
    ensures
        ({
            let last = ownership::last_reference(references, owner);
            &&& -1 <= last < references.len()
            &&& last >= 0 ==> ownership::same_owner(owner, references[last])
            &&& forall|i: int| last < i < references.len() ==> !ownership::same_owner(owner, #[trigger] references[i])
        }),
    decreases references.len(),
{
    if references.len() > 0 && !ownership::same_owner(owner, references.last()) {
        let front = references.drop_last();
        lemma_last(front, owner);
        assert forall|i: int| ownership::last_reference(references, owner) < i < references.len() implies
            !ownership::same_owner(owner, #[trigger] references[i]) by {
            if i < front.len() {
                assert(front[i] == references[i]);
            }
        }
    }
}

} // verus!
