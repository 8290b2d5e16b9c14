//! Any of the objects that the operator keeps.

use vstd::prelude::*;

use crate::objects::config::{
    ConfigMap, ConfigMapModel, Role, RoleBinding, RoleBindingModel, RoleModel, Secret, SecretModel, ServiceAccount,
    ServiceAccountModel,
};
use crate::objects::keycloak::{
    Keycloak, KeycloakClient, KeycloakClientModel, KeycloakModel, KeycloakRealm, KeycloakRealmModel, KeycloakUser,
    KeycloakUserModel,
};
use crate::objects::meta::ObjectMetaModel;
use crate::objects::network::{Route, RouteModel, Service, ServiceModel};
use crate::objects::storage::{PersistentVolumeClaim, PersistentVolumeClaimModel};
use crate::objects::workload::{Deployment, DeploymentModel, StatefulSet, StatefulSetModel};

verus! {

/// The kinds of object that the operator keeps.
#[derive(Debug, Clone, Copy, PartialEq, Eq, Structural)]
pub enum Kind {
    /// A service account.
    ServiceAccount,
    /// A role.
    Role,
    /// A role binding.
    RoleBinding,
    /// A secret.
    Secret,
    /// A config map.
    ConfigMap,
    /// A stateful set.
    StatefulSet,
    /// A deployment.
    Deployment,
    /// A service.
    Service,
    /// An OpenShift route.
    Route,
    /// A claim for storage.
    PersistentVolumeClaim,
    /// A Keycloak instance.
    Keycloak,
    /// A Keycloak realm.
    KeycloakRealm,
    /// A Keycloak client.
    KeycloakClient,
    /// A Keycloak user.
    KeycloakUser,
}

/// An object of one of the kinds.
#[derive(Debug, PartialEq)]
pub enum Object {
    /// A service account.
    ServiceAccount(ServiceAccount),
    /// A role.
    Role(Role),
    /// A role binding.
    RoleBinding(RoleBinding),
    /// A secret.
    Secret(Secret),
    /// A config map.
    ConfigMap(ConfigMap),
    /// A stateful set.
    StatefulSet(StatefulSet),
    /// A deployment.
    Deployment(Deployment),
    /// A service.
    Service(Service),
    /// An OpenShift route.
    Route(Route),
    /// A claim for storage.
    PersistentVolumeClaim(PersistentVolumeClaim),
    /// A Keycloak instance.
    Keycloak(Keycloak),
    /// A Keycloak realm.
    KeycloakRealm(KeycloakRealm),
    /// A Keycloak client.
    KeycloakClient(KeycloakClient),
    /// A Keycloak user.
    KeycloakUser(KeycloakUser),
}

/// What an [`Object`] says, as contracts see it.
#[verifier::ext_equal]
pub enum ObjectModel {
    ServiceAccount(ServiceAccountModel),
    Role(RoleModel),
    RoleBinding(RoleBindingModel),
    Secret(SecretModel),
    ConfigMap(ConfigMapModel),
    StatefulSet(StatefulSetModel),
    Deployment(DeploymentModel),
    Service(ServiceModel),
    Route(RouteModel),
    PersistentVolumeClaim(PersistentVolumeClaimModel),
    Keycloak(KeycloakModel),
    KeycloakRealm(KeycloakRealmModel),
    KeycloakClient(KeycloakClientModel),
    KeycloakUser(KeycloakUserModel),
}

impl DeepView for Object {
    type V = ObjectModel;

    open spec fn deep_view(&self) -> ObjectModel {
        match self {
            Object::ServiceAccount(object) => ObjectModel::ServiceAccount(object.deep_view()),
            Object::Role(object) => ObjectModel::Role(object.deep_view()),
            Object::RoleBinding(object) => ObjectModel::RoleBinding(object.deep_view()),
            Object::Secret(object) => ObjectModel::Secret(object.deep_view()),
            Object::ConfigMap(object) => ObjectModel::ConfigMap(object.deep_view()),
            Object::StatefulSet(object) => ObjectModel::StatefulSet(object.deep_view()),
            Object::Deployment(object) => ObjectModel::Deployment(object.deep_view()),
            Object::Service(object) => ObjectModel::Service(object.deep_view()),
            Object::Route(object) => ObjectModel::Route(object.deep_view()),
            Object::PersistentVolumeClaim(object) => ObjectModel::PersistentVolumeClaim(object.deep_view()),
            Object::Keycloak(object) => ObjectModel::Keycloak(object.deep_view()),
            Object::KeycloakRealm(object) => ObjectModel::KeycloakRealm(object.deep_view()),
            Object::KeycloakClient(object) => ObjectModel::KeycloakClient(object.deep_view()),
            Object::KeycloakUser(object) => ObjectModel::KeycloakUser(object.deep_view()),
        }
    }
}

impl ObjectModel {
    /// The kind of the object.
    pub open spec fn kind(self) -> Kind {
        match self {
            ObjectModel::ServiceAccount(_) => Kind::ServiceAccount,
            ObjectModel::Role(_) => Kind::Role,
            ObjectModel::RoleBinding(_) => Kind::RoleBinding,
            ObjectModel::Secret(_) => Kind::Secret,
            ObjectModel::ConfigMap(_) => Kind::ConfigMap,
            ObjectModel::StatefulSet(_) => Kind::StatefulSet,
            ObjectModel::Deployment(_) => Kind::Deployment,
            ObjectModel::Service(_) => Kind::Service,
            ObjectModel::Route(_) => Kind::Route,
            ObjectModel::PersistentVolumeClaim(_) => Kind::PersistentVolumeClaim,
            ObjectModel::Keycloak(_) => Kind::Keycloak,
            ObjectModel::KeycloakRealm(_) => Kind::KeycloakRealm,
            ObjectModel::KeycloakClient(_) => Kind::KeycloakClient,
            ObjectModel::KeycloakUser(_) => Kind::KeycloakUser,
        }
    }

    /// What the object holds besides what is looked at.
    pub open spec fn rest(self) -> Option<serde_json::Value> {
        match self {
            ObjectModel::ServiceAccount(object) => object.rest,
            ObjectModel::Secret(object) => object.rest,
            ObjectModel::ConfigMap(object) => object.rest,
            ObjectModel::StatefulSet(object) => object.rest,
            ObjectModel::Deployment(object) => object.rest,
            ObjectModel::Service(object) => object.rest,
            ObjectModel::Route(object) => object.rest,
            ObjectModel::PersistentVolumeClaim(object) => object.rest,
            ObjectModel::Keycloak(object) => object.rest,
            ObjectModel::KeycloakRealm(object) => object.rest,
            ObjectModel::KeycloakClient(object) => object.rest,
            ObjectModel::KeycloakUser(object) => object.rest,
            ObjectModel::Role(_) => None,
            ObjectModel::RoleBinding(_) => None,
        }
    }

    /// The metadata of the object.
    pub open spec fn metadata(self) -> ObjectMetaModel {
        match self {
            ObjectModel::ServiceAccount(object) => object.metadata,
            ObjectModel::Role(object) => object.metadata,
            ObjectModel::RoleBinding(object) => object.metadata,
            ObjectModel::Secret(object) => object.metadata,
            ObjectModel::ConfigMap(object) => object.metadata,
            ObjectModel::StatefulSet(object) => object.metadata,
            ObjectModel::Deployment(object) => object.metadata,
            ObjectModel::Service(object) => object.metadata,
            ObjectModel::Route(object) => object.metadata,
            ObjectModel::PersistentVolumeClaim(object) => object.metadata,
            ObjectModel::Keycloak(object) => object.metadata,
            ObjectModel::KeycloakRealm(object) => object.metadata,
            ObjectModel::KeycloakClient(object) => object.metadata,
            ObjectModel::KeycloakUser(object) => object.metadata,
        }
    }
}

impl Object {
    /// The kind of the object.
    pub fn kind(&self) -> (r: Kind)
        ensures
            r == self.deep_view().kind(),
    {
        match self {
            Object::ServiceAccount(_) => Kind::ServiceAccount,
            Object::Role(_) => Kind::Role,
            Object::RoleBinding(_) => Kind::RoleBinding,
            Object::Secret(_) => Kind::Secret,
            Object::ConfigMap(_) => Kind::ConfigMap,
            Object::StatefulSet(_) => Kind::StatefulSet,
            Object::Deployment(_) => Kind::Deployment,
            Object::Service(_) => Kind::Service,
            Object::Route(_) => Kind::Route,
            Object::PersistentVolumeClaim(_) => Kind::PersistentVolumeClaim,
            Object::Keycloak(_) => Kind::Keycloak,
            Object::KeycloakRealm(_) => Kind::KeycloakRealm,
            Object::KeycloakClient(_) => Kind::KeycloakClient,
            Object::KeycloakUser(_) => Kind::KeycloakUser,
        }
    }
}

} // verus!
