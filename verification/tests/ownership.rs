use hawkbit_operator::crd::Hawkbit;
use hawkbit_operator::error::Error;
use hawkbit_operator::objects::meta::{ObjectMeta, OwnerReference};
use hawkbit_operator::ownership::owned_by_controller;

fn owner(name: Option<&str>, namespace: Option<&str>, uid: Option<&str>) -> Hawkbit {
    Hawkbit {
        metadata: ObjectMeta {
            name: name.map(|s| s.to_string()),
            namespace: namespace.map(|s| s.to_string()),
            uid: uid.map(|s| s.to_string()),
            ..ObjectMeta::default()
        },
        ..Hawkbit::default()
    }
}

fn object(namespace: Option<&str>, references: Option<Vec<OwnerReference>>) -> ObjectMeta {
    ObjectMeta {
        name: Some("object".to_string()),
        namespace: namespace.map(|s| s.to_string()),
        owner_references: references,
        ..ObjectMeta::default()
    }
}

fn reference(kind: &str, name: &str, uid: &str, controller: Option<bool>) -> OwnerReference {
    OwnerReference {
        api_version: "iot.eclipse.org/v1alpha1".to_string(),
        kind: kind.to_string(),
        name: name.to_string(),
        uid: uid.to_string(),
        controller,
        block_owner_deletion: Some(true),
    }
}

#[test]
fn an_object_gets_a_reference_to_its_controller() {
    let r = owned_by_controller(object(Some("ns"), None), &owner(Some("default"), Some("ns"), Some("123"))).unwrap();
    assert_eq!(r.name, Some("object".to_string()));
    let references = r.owner_references.unwrap();
    assert_eq!(references.len(), 1);
    assert_eq!(references[0].api_version, "iot.eclipse.org/v1alpha1");
    assert_eq!(references[0].kind, "Hawkbit");
    assert_eq!(references[0].name, "default");
    assert_eq!(references[0].uid, "123");
    assert_eq!(references[0].controller, Some(true));
    assert_eq!(references[0].block_owner_deletion, None);
}

#[test]
fn a_second_claim_changes_nothing() {
    let owner = owner(Some("default"), Some("ns"), Some("123"));
    let once = owned_by_controller(object(Some("ns"), None), &owner).unwrap();
    let twice =
        owned_by_controller(owned_by_controller(object(Some("ns"), None), &owner).unwrap(), &owner).unwrap();
    assert_eq!(once, twice);
}

#[test]
fn references_to_others_are_kept() {
    let others = vec![reference("Hawkbit", "other", "1", Some(false)), reference("Thing", "default", "2", None)];
    let r = owned_by_controller(object(Some("ns"), Some(others)), &owner(Some("default"), Some("ns"), Some("123")))
        .unwrap()
        .owner_references
        .unwrap();
    assert_eq!(r.len(), 3);
    assert_eq!(r[0], reference("Hawkbit", "other", "1", Some(false)));
    assert_eq!(r[1], reference("Thing", "default", "2", None));
    assert_eq!(r[2].uid, "123");
}

#[test]
fn the_last_reference_to_the_owner_is_used() {
    let own = vec![reference("Hawkbit", "default", "1", None), reference("Hawkbit", "default", "2", None)];
    let r = owned_by_controller(object(Some("ns"), Some(own)), &owner(Some("default"), Some("ns"), Some("123")))
        .unwrap()
        .owner_references
        .unwrap();
    assert_eq!(r.len(), 2);
    assert_eq!(r[0], reference("Hawkbit", "default", "1", None));
    assert_eq!(r[1].uid, "2");
    assert_eq!(r[1].controller, Some(true));
    assert_eq!(r[1].block_owner_deletion, None);
}

#[test]
fn an_object_with_another_controller_is_refused() {
    let other = vec![reference("Hawkbit", "other", "1", Some(true))];
    let r = owned_by_controller(object(Some("ns"), Some(other)), &owner(Some("default"), Some("ns"), Some("123")));
    assert_eq!(r.unwrap_err(), Error::AlreadyControlled);
    assert_eq!(Error::AlreadyControlled.message(), "Object already has a controller");
}

#[test]
fn namespaces_have_to_agree() {
    let r = owned_by_controller(object(Some("a"), None), &owner(Some("default"), Some("b"), Some("123")));
    assert_eq!(r.unwrap_err(), Error::NamespaceMismatch);
    assert_eq!(
        Error::NamespaceMismatch.message(),
        "If both objects are namespaced, they must belong to the same namespace"
    );
    let r = owned_by_controller(object(None, None), &owner(Some("default"), Some("b"), Some("123")));
    assert_eq!(r.unwrap_err(), Error::ClusterScoped);
    assert_eq!(Error::ClusterScoped.message(), "Cluster scoped object must not have a namespaced owner");
    assert!(owned_by_controller(object(Some("a"), None), &owner(Some("default"), None, Some("123"))).is_ok());
    assert!(owned_by_controller(object(None, None), &owner(Some("default"), None, Some("123"))).is_ok());
}

#[test]
fn an_owner_has_a_name_and_a_uid() {
    let r = owned_by_controller(object(Some("a"), None), &owner(None, Some("a"), None));
    assert_eq!(r.unwrap_err(), Error::MissingName);
    assert_eq!(Error::MissingName.message(), "Missing name");
    let r = owned_by_controller(object(Some("a"), None), &owner(Some("default"), Some("a"), None));
    assert_eq!(r.unwrap_err(), Error::MissingUid);
    assert_eq!(Error::MissingUid.message(), "Missing UID");
}
