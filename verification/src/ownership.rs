//! Objects that belong to an instance.

use vstd::prelude::*;

use crate::crd::{Hawkbit, HawkbitModel};
use crate::error;
use crate::error::Error;
use crate::install;
use crate::objects::meta::{ObjectMeta, ObjectMetaModel, OwnerReference, OwnerReferenceModel};
use crate::order;

verus! {

/// The reference to an instance as the controller of an object.
pub open spec fn controller_reference(owner: HawkbitModel) -> OwnerReferenceModel {
    OwnerReferenceModel {
        api_version: Hawkbit::API_VERSION@,
        kind: Hawkbit::KIND@,
        name: owner.metadata.name->0,
        uid: owner.metadata.uid->0,
        controller: Some(true),
        block_owner_deletion: None,
    }
}

/// Two references are to the same owner: the UID does not count.
pub open spec fn same_owner(a: OwnerReferenceModel, b: OwnerReferenceModel) -> bool {
    a.kind == b.kind && a.api_version == b.api_version && a.name == b.name
}

/// A reference to another owner that controls the object.
pub open spec fn controlled_by_other(references: Seq<OwnerReferenceModel>, owner: OwnerReferenceModel) -> bool {
    exists|i: int|
        0 <= i < references.len() && !same_owner(owner, #[trigger] references[i]) && references[i].controller == Some(
            true,
        )
}

/// The position of the last reference to that owner; one below the first position if there is none.
pub open spec fn last_reference(references: Seq<OwnerReferenceModel>, owner: OwnerReferenceModel) -> int
    decreases references.len(),
{
    if references.len() == 0 {
        -1
    } else if same_owner(owner, references.last()) {
        references.len() - 1
    } else {
        last_reference(references.drop_last(), owner)
    }
}

/// The references with the last one to the owner, or a new one, making it the controller.
pub open spec fn claimed(references: Seq<OwnerReferenceModel>, owner: OwnerReferenceModel) -> Seq<OwnerReferenceModel> {
    let at = last_reference(references, owner);
    if at >= 0 {
        references.update(
            at,
            OwnerReferenceModel {
                controller: owner.controller,
                block_owner_deletion: owner.block_owner_deletion,
                ..references[at]
            },
        )
    } else {
        references.push(owner)
    }
}

/// The metadata of an object once the instance controls it, or why it cannot.
pub open spec fn owned(meta: ObjectMetaModel, owner: HawkbitModel) -> Result<ObjectMetaModel, Error> {
    let references = install::or_empty(meta.owner_references);
    let reference = controller_reference(owner);
    if meta.namespace is None && owner.metadata.namespace is Some {
        Err(Error::ClusterScoped)
    } else if owner.metadata.namespace is Some && meta.namespace != owner.metadata.namespace {
        Err(Error::NamespaceMismatch)
    } else if owner.metadata.name is None {
        Err(Error::MissingName)
    } else if owner.metadata.uid is None {
        Err(Error::MissingUid)
    } else if controlled_by_other(references, reference) {
        Err(Error::AlreadyControlled)
    } else {
        Ok(ObjectMetaModel { owner_references: Some(claimed(references, reference)), ..meta })
    }
}

/// The last reference to an owner is one, and none to that owner follows it.
proof fn lemma_last_reference(references: Seq<OwnerReferenceModel>, owner: OwnerReferenceModel)
    ensures
        -1 <= last_reference(references, owner) < references.len(),
        last_reference(references, owner) >= 0 ==> same_owner(
            owner,
            references[last_reference(references, owner)],
        ),
        forall|i: int|
            last_reference(references, owner) < i < references.len() ==> !same_owner(owner, #[trigger] references[i]),
    decreases references.len(),
{
    if references.len() > 0 && !same_owner(owner, references.last()) {
        let front = references.drop_last();
        lemma_last_reference(front, owner);
        assert forall|i: int| last_reference(references, owner) < i < references.len() implies !same_owner(
            owner,
            #[trigger] references[i],
        ) by {
            if i < front.len() {
                assert(front[i] == references[i]);
            }
        }
    }
}

/// The last reference to an owner is where `last_reference` says.
proof fn lemma_last_reference_is(references: Seq<OwnerReferenceModel>, owner: OwnerReferenceModel, at: int)
    requires
        -1 <= at < references.len(),
        at >= 0 ==> same_owner(owner, references[at]),
        forall|i: int| at < i < references.len() ==> !same_owner(owner, #[trigger] references[i]),
    ensures
        last_reference(references, owner) == at,
{
    lemma_last_reference(references, owner);
    let last = last_reference(references, owner);
    if at < last {
        assert(!same_owner(owner, references[last]));
    }
}

/// An object that has been claimed stays as it is when it is claimed again.
pub proof fn lemma_owned_again(meta: ObjectMetaModel, owner: HawkbitModel)
    requires
        owned(meta, owner) is Ok,
    ensures
        owned(owned(meta, owner)->Ok_0, owner) == owned(meta, owner),
{
    let references = install::or_empty(meta.owner_references);
    let reference = controller_reference(owner);
    let after = claimed(references, reference);
    lemma_last_reference(references, reference);
    let at = last_reference(references, reference);
    if at >= 0 {
        assert forall|i: int| at < i < after.len() implies !same_owner(reference, #[trigger] after[i]) by {
            assert(after[i] == references[i]);
        }
        lemma_last_reference_is(after, reference, at);
    } else {
        lemma_last_reference_is(after, reference, references.len() as int);
    }
    assert(claimed(after, reference) =~= after);
    assert(!controlled_by_other(after, reference)) by {
        assert forall|i: int| 0 <= i < after.len() && !same_owner(reference, #[trigger] after[i]) implies after[i].controller != Some(
            true,
        ) by {
            assert(after[i] == references[i]);
        }
    }
}

/// A claimed object is controlled by the instance, and by nothing else.
pub proof fn lemma_owned_controls(meta: ObjectMetaModel, owner: HawkbitModel)
    requires
        owned(meta, owner) is Ok,
    ensures
        ({
            let references = owned(meta, owner)->Ok_0.owner_references->0;
            &&& exists|i: int|
                0 <= i < references.len() && same_owner(controller_reference(owner), #[trigger] references[i])
                    && references[i].controller == Some(true)
            &&& !controlled_by_other(references, controller_reference(owner))
        }),
{
    let references = install::or_empty(meta.owner_references);
    let reference = controller_reference(owner);
    let after = claimed(references, reference);
    lemma_last_reference(references, reference);
    let at = last_reference(references, reference);
    let place = if at >= 0 {
        at
    } else {
        references.len() as int
    };
    assert(same_owner(reference, after[place]) && after[place].controller == Some(true));
    assert forall|i: int| 0 <= i < after.len() && !same_owner(reference, #[trigger] after[i]) implies after[i].controller != Some(
        true,
    ) by {
        assert(after[i] == references[i]);
    }
    assert(!controlled_by_other(after, reference));
    assert(owned(meta, owner)->Ok_0.owner_references->0 == after);
}

/// Claiming leaves references to other owners as they are.
pub proof fn lemma_owned_keeps_others(meta: ObjectMetaModel, owner: HawkbitModel, i: int)
    requires
        owned(meta, owner) is Ok,
        0 <= i < install::or_empty(meta.owner_references).len(),
        !same_owner(controller_reference(owner), install::or_empty(meta.owner_references)[i]),
    ensures
        owned(meta, owner)->Ok_0.owner_references->0[i] == install::or_empty(meta.owner_references)[i],
{
    lemma_last_reference(install::or_empty(meta.owner_references), controller_reference(owner));
}

fn is_same_owner(a: &OwnerReference, b: &OwnerReference) -> (r: bool)
    ensures
        r == same_owner(a.deep_view(), b.deep_view()),
{
    order::is_same(a.kind.as_str(), b.kind.as_str()) && order::is_same(
        a.api_version.as_str(),
        b.api_version.as_str(),
    ) && order::is_same(a.name.as_str(), b.name.as_str())
}

/// Claims the references of an object for an owner.
fn claim(references: Vec<OwnerReference>, owner: OwnerReference) -> (r: Result<Vec<OwnerReference>, Error>)
    ensures
        error::outcome(r) == if controlled_by_other(references.deep_view(), owner.deep_view()) {
            Err(Error::AlreadyControlled)
        } else {
            Ok(claimed(references.deep_view(), owner.deep_view()))
        },
{
    let ghost all = references.deep_view();
    let ghost reference = owner.deep_view();
    let mut list = references;
    let mut found: Option<usize> = None;
    let mut i: usize = 0;
    while i < list.len()
        invariant
            all == list.deep_view(),
            all == references.deep_view(),
            reference == owner.deep_view(),
            i <= list@.len(),
            forall|j: int|
                0 <= j < i ==> same_owner(reference, #[trigger] all[j]) || all[j].controller != Some(true),
            match found {
                Some(at) => at < i && same_owner(reference, all[at as int]),
                None => true,
            },
            forall|j: int|
                (if found is Some {
                    found->0 as int
                } else {
                    -1
                }) < j < i ==> !same_owner(reference, #[trigger] all[j]),
        decreases list@.len() - i,
    {
        assert(all[i as int] == list@[i as int].deep_view());
        if is_same_owner(&owner, &list[i]) {
            found = Some(i);
        } else {
            match list[i].controller {
                Some(true) => {
                    assert(!same_owner(reference, all[i as int]));
                    return Err(Error::AlreadyControlled);
                },
                _ => {},
            }
        }
        i = i + 1;
    }
    match found {
        Some(at) => {
            proof {
                lemma_last_reference_is(all, reference, at as int);
            }
            let own = &mut list[at];
            own.controller = owner.controller;
            own.block_owner_deletion = owner.block_owner_deletion;
        },
        None => {
            proof {
                lemma_last_reference_is(all, reference, -1);
            }
            list.push(owner);
        },
    }
    assert(list.deep_view() =~= claimed(all, reference));
    Ok(list)
}

/// Makes the instance the controller of an object.
pub fn owned_by_controller(meta: ObjectMeta, owner: &Hawkbit) -> (r: Result<ObjectMeta, Error>)
    ensures
        error::outcome(r) == owned(meta.deep_view(), owner.deep_view()),
{
    match (&meta.namespace, &owner.metadata.namespace) {
        (None, Some(_)) => {
            return Err(Error::ClusterScoped);
        },
        (Some(own), Some(other)) => {
            if !order::is_same(own.as_str(), other.as_str()) {
                return Err(Error::NamespaceMismatch);
            }
        },
        _ => {},
    }
    let name = match &owner.metadata.name {
        Some(name) => name.clone(),
        None => {
            return Err(Error::MissingName);
        },
    };
    let uid = match &owner.metadata.uid {
        Some(uid) => uid.clone(),
        None => {
            return Err(Error::MissingUid);
        },
    };
    let reference = OwnerReference {
        api_version: Hawkbit::API_VERSION.to_string(),
        kind: Hawkbit::KIND.to_string(),
        name,
        uid,
        controller: Some(true),
        block_owner_deletion: None,
    };
    let mut meta = meta;
    let references = install::take_list(&mut meta.owner_references);
    match claim(references, reference) {
        Ok(references) => {
            meta.owner_references = Some(references);
            Ok(meta)
        },
        Err(e) => Err(e),
    }
}

} // verus!
