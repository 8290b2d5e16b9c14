//! What things are before anything has been written to them.

use vstd::prelude::*;

use crate::crd::{
    CommonJdbcModel, HawkbitModel, HawkbitStatusModel, ImageOverrideModel, KeycloakConfigModel, MySQLModel,
    PostgreSQLModel, RabbitExternalModel, RabbitManagedModel,
};
use crate::objects::config::{ConfigMapModel, RoleBindingModel, RoleModel, SecretModel, ServiceAccountModel};
use crate::objects::keycloak::{KeycloakClientModel, KeycloakModel, KeycloakRealmModel, KeycloakUserModel};
use crate::objects::meta::ObjectMetaModel;
use crate::objects::network::{RouteModel, ServiceModel, ServiceSpecModel};
use crate::objects::object::ObjectModel;
use crate::objects::pod::PodSpecModel;
use crate::objects::storage::{PersistentVolumeClaimModel, PersistentVolumeClaimSpecModel};
use crate::objects::workload::{DeploymentModel, DeploymentSpecModel, StatefulSetModel, StatefulSetSpecModel};

verus! {

/// Metadata in which nothing is written.
pub open spec fn is_empty_meta(meta: ObjectMetaModel) -> bool {
    &&& meta.name is None
    &&& meta.namespace is None
    &&& meta.uid is None
    &&& meta.labels is None
    &&& meta.annotations is None
    &&& meta.owner_references is None
    &&& meta.rest is None
}

/// An object of which nothing is written but, perhaps, its metadata.
pub open spec fn is_empty(object: ObjectModel) -> bool {
    &&& object.rest() is None
    &&& match object {
        ObjectModel::ServiceAccount(_) => true,
        ObjectModel::Role(o) => o.rules is None,
        ObjectModel::RoleBinding(o) => o.subjects is None && o.role_ref.api_group.len() == 0 && o.role_ref.kind.len()
            == 0 && o.role_ref.name.len() == 0,
        ObjectModel::Secret(o) => o.data is None,
        ObjectModel::ConfigMap(o) => o.data is None,
        ObjectModel::StatefulSet(o) => o.spec is None,
        ObjectModel::Deployment(o) => o.spec is None,
        ObjectModel::Service(o) => o.spec is None,
        ObjectModel::Route(o) => o.spec.host.len() == 0 && o.spec.to.kind.len() == 0 && o.spec.to.name.len() == 0
            && o.spec.to.weight == 0 && o.spec.port is None && o.spec.tls is None,
        ObjectModel::PersistentVolumeClaim(o) => o.spec is None,
        ObjectModel::Keycloak(o) => o.spec.instances == 0 && !o.spec.external_access.enabled && o.status is None,
        ObjectModel::KeycloakRealm(o) => o.spec.instance_selector.match_labels is None
            && o.spec.realm.display_name.len() == 0 && !o.spec.realm.enabled && o.spec.realm.realm.len() == 0,
        ObjectModel::KeycloakClient(o) => {
            &&& o.spec.realm_selector.match_labels is None
            &&& o.spec.client.client_id.len() == 0
            &&& !o.spec.client.enabled
            &&& o.spec.client.root_url.len() == 0
            &&& o.spec.client.base_url.len() == 0
            &&& o.spec.client.redirect_uris.len() == 0
            &&& o.spec.client.client_authenticator_type.len() == 0
            &&& !o.spec.client.implicit_flow_enabled
            &&& !o.spec.client.public_client
            &&& !o.spec.client.standard_flow_enabled
            &&& o.spec.client.default_roles.len() == 0
        },
        ObjectModel::KeycloakUser(o) => {
            &&& o.spec.realm_selector.match_labels is None
            &&& o.spec.user.credentials.len() == 0
            &&& o.spec.user.username.len() == 0
            &&& !o.spec.user.enabled
            &&& o.spec.user.first_name.len() == 0
            &&& o.spec.user.last_name.len() == 0
            &&& forall|k: Seq<char>| !(#[trigger] o.spec.user.client_roles.contains_key(k))
        },
    }
}

/// An object that is not there yet begins with nothing written to it.
pub proof fn lemma_new_objects()
    ensures
        is_empty_meta(ObjectMetaModel::blank()),
        is_empty(ObjectModel::ServiceAccount(ServiceAccountModel::blank())),
        is_empty_meta(ServiceAccountModel::blank().metadata),
        is_empty(ObjectModel::Role(RoleModel::blank())),
        is_empty_meta(RoleModel::blank().metadata),
        is_empty(ObjectModel::RoleBinding(RoleBindingModel::blank())),
        is_empty_meta(RoleBindingModel::blank().metadata),
        is_empty(ObjectModel::Secret(SecretModel::blank())),
        is_empty_meta(SecretModel::blank().metadata),
        is_empty(ObjectModel::ConfigMap(ConfigMapModel::blank())),
        is_empty_meta(ConfigMapModel::blank().metadata),
        is_empty(ObjectModel::StatefulSet(StatefulSetModel::blank())),
        is_empty_meta(StatefulSetModel::blank().metadata),
        is_empty(ObjectModel::Deployment(DeploymentModel::blank())),
        is_empty_meta(DeploymentModel::blank().metadata),
        is_empty(ObjectModel::Service(ServiceModel::blank())),
        is_empty_meta(ServiceModel::blank().metadata),
        is_empty(ObjectModel::Route(RouteModel::blank())),
        is_empty_meta(RouteModel::blank().metadata),
        is_empty(ObjectModel::PersistentVolumeClaim(PersistentVolumeClaimModel::blank())),
        is_empty_meta(PersistentVolumeClaimModel::blank().metadata),
        is_empty(ObjectModel::Keycloak(KeycloakModel::blank())),
        is_empty_meta(KeycloakModel::blank().metadata),
        is_empty(ObjectModel::KeycloakRealm(KeycloakRealmModel::blank())),
        is_empty_meta(KeycloakRealmModel::blank().metadata),
        is_empty(ObjectModel::KeycloakClient(KeycloakClientModel::blank())),
        is_empty_meta(KeycloakClientModel::blank().metadata),
        is_empty(ObjectModel::KeycloakUser(KeycloakUserModel::blank())),
        is_empty_meta(KeycloakUserModel::blank().metadata),
{
}

/// The larger parts of objects begin with nothing written to them either.
pub proof fn lemma_new_parts()
    ensures
        PodSpecModel::blank().service_account is None,
        PodSpecModel::blank().restart_policy is None,
        PodSpecModel::blank().init_containers is None,
        PodSpecModel::blank().containers.len() == 0,
        PodSpecModel::blank().volumes is None,
        PodSpecModel::blank().rest is None,
        ServiceSpecModel::blank().type_ is None,
        ServiceSpecModel::blank().cluster_ip is None,
        ServiceSpecModel::blank().selector is None,
        ServiceSpecModel::blank().ports is None,
        ServiceSpecModel::blank().rest is None,
        PersistentVolumeClaimSpecModel::blank().access_modes is None,
        PersistentVolumeClaimSpecModel::blank().resources is None,
        PersistentVolumeClaimSpecModel::blank().rest is None,
        DeploymentSpecModel::blank().replicas is None,
        DeploymentSpecModel::blank().strategy is None,
        DeploymentSpecModel::blank().selector.match_labels is None,
        DeploymentSpecModel::blank().template.metadata is None,
        DeploymentSpecModel::blank().template.spec is None,
        DeploymentSpecModel::blank().rest is None,
        StatefulSetSpecModel::blank().service_name.len() == 0,
        StatefulSetSpecModel::blank().selector.match_labels is None,
        StatefulSetSpecModel::blank().template.metadata is None,
        StatefulSetSpecModel::blank().template.spec is None,
        StatefulSetSpecModel::blank().pod_management_policy is None,
        StatefulSetSpecModel::blank().update_strategy is None,
        StatefulSetSpecModel::blank().volume_claim_templates is None,
        StatefulSetSpecModel::blank().rest is None,
{
}

/// An instance of which nothing is said has no database, no broker and no way to sign on; a broker is reached at the
/// standard port, and a database at the one that is standard for it.
pub proof fn lemma_new_instance()
    ensures
        is_empty_meta(HawkbitModel::blank().metadata),
        HawkbitModel::blank().status is None,
        HawkbitModel::blank().spec.database.mysql is None,
        HawkbitModel::blank().spec.database.postgres is None,
        HawkbitModel::blank().spec.database.embedded is None,
        HawkbitModel::blank().spec.rabbit.external is None,
        HawkbitModel::blank().spec.rabbit.managed is None,
        HawkbitModel::blank().spec.sign_on is None,
        forall|k: Seq<char>| !(#[trigger] HawkbitModel::blank().spec.image_overrides.contains_key(k)),
        KeycloakConfigModel::blank().use_instance is None,
        KeycloakConfigModel::blank().hawkbit_url is None,
        ImageOverrideModel::blank().image is None,
        ImageOverrideModel::blank().pull_policy is None,
        RabbitManagedModel::blank().storage_size is None,
        RabbitManagedModel::blank().resources is None,
        RabbitExternalModel::blank().host.len() == 0,
        RabbitExternalModel::blank().port == 5672,
        RabbitExternalModel::blank().username.len() == 0,
        RabbitExternalModel::blank().password_secret.name.len() == 0,
        RabbitExternalModel::blank().password_secret.field.len() == 0,
        CommonJdbcModel::blank().host.len() == 0,
        CommonJdbcModel::blank().port == 0,
        CommonJdbcModel::blank().database.len() == 0,
        CommonJdbcModel::blank().url.len() == 0,
        CommonJdbcModel::blank().username.len() == 0,
        CommonJdbcModel::blank().password_secret.name.len() == 0,
        CommonJdbcModel::blank().password_secret.field.len() == 0,
        MySQLModel::blank().jdbc == CommonJdbcModel::blank(),
        PostgreSQLModel::blank().jdbc == CommonJdbcModel::blank(),
        HawkbitStatusModel::blank().phase.len() == 0,
        HawkbitStatusModel::blank().message is None,
{
}

} // verus!
