//! The objects of an instance, one by one.

use vstd::prelude::*;

use crate::crd::{Hawkbit, HawkbitModel};
use crate::objects::object::Kind;
use crate::text;

verus! {

/// An object that the operator keeps for an instance.
#[derive(Debug, Clone, Copy, PartialEq, Eq, Structural)]
pub enum Target {
    /// The route to the server.
    Route,
    /// The broker's account.
    BrokerAccount,
    /// The broker's role.
    BrokerRole,
    /// What gives the role to the account.
    BrokerRoleBinding,
    /// The broker's credentials.
    BrokerSecret,
    /// The broker's configuration.
    BrokerConfig,
    /// The broker's stateful set.
    BrokerSet,
    /// The service by which the nodes of the broker find each other.
    BrokerHeadlessService,
    /// The service by which the broker is used.
    BrokerService,
    /// The Keycloak instance.
    Keycloak,
    /// The Keycloak realm.
    KeycloakRealm,
    /// The Keycloak client.
    KeycloakClient,
    /// The administrator in the Keycloak realm.
    KeycloakUser,
    /// The server's account.
    Account,
    /// The server's configuration.
    Config,
    /// The administrator's credentials.
    AdminSecret,
    /// The storage for artifacts.
    DataClaim,
    /// The storage for the embedded database.
    DatabaseClaim,
    /// The server's deployment.
    Deployment,
    /// The server's service.
    Service,
}

impl Target {
    /// The kind of the object.
    pub open spec fn kind_of(self) -> Kind {
        match self {
            Target::Route => Kind::Route,
            Target::BrokerAccount => Kind::ServiceAccount,
            Target::BrokerRole => Kind::Role,
            Target::BrokerRoleBinding => Kind::RoleBinding,
            Target::BrokerSecret => Kind::Secret,
            Target::BrokerConfig => Kind::ConfigMap,
            Target::BrokerSet => Kind::StatefulSet,
            Target::BrokerHeadlessService => Kind::Service,
            Target::BrokerService => Kind::Service,
            Target::Keycloak => Kind::Keycloak,
            Target::KeycloakRealm => Kind::KeycloakRealm,
            Target::KeycloakClient => Kind::KeycloakClient,
            Target::KeycloakUser => Kind::KeycloakUser,
            Target::Account => Kind::ServiceAccount,
            Target::Config => Kind::ConfigMap,
            Target::AdminSecret => Kind::Secret,
            Target::DataClaim => Kind::PersistentVolumeClaim,
            Target::DatabaseClaim => Kind::PersistentVolumeClaim,
            Target::Deployment => Kind::Deployment,
            Target::Service => Kind::Service,
        }
    }

    /// What the name of the object adds to the name of the instance.
    pub open spec fn suffix(self) -> Seq<char> {
        match self {
            Target::BrokerAccount
            | Target::BrokerRole
            | Target::BrokerRoleBinding
            | Target::BrokerSecret
            | Target::BrokerConfig
            | Target::BrokerSet
            | Target::BrokerService => "-rabbit"@,
            Target::BrokerHeadlessService => "-rabbit-headless"@,
            Target::KeycloakRealm
            | Target::KeycloakClient => "-hawkbit"@,
            Target::KeycloakUser
            | Target::AdminSecret => "-admin"@,
            Target::DataClaim => "-data"@,
            Target::DatabaseClaim => "-embedded-db"@,
            _ => ""@,
        }
    }

    /// The name of the object.
    pub open spec fn name_of(self, resource: HawkbitModel) -> Seq<char> {
        resource.name() + self.suffix()
    }

    /// The kind of the object.
    pub fn kind(self) -> (r: Kind)
        ensures
            r == self.kind_of(),
    {
        match self {
            Target::Route => Kind::Route,
            Target::BrokerAccount => Kind::ServiceAccount,
            Target::BrokerRole => Kind::Role,
            Target::BrokerRoleBinding => Kind::RoleBinding,
            Target::BrokerSecret => Kind::Secret,
            Target::BrokerConfig => Kind::ConfigMap,
            Target::BrokerSet => Kind::StatefulSet,
            Target::BrokerHeadlessService => Kind::Service,
            Target::BrokerService => Kind::Service,
            Target::Keycloak => Kind::Keycloak,
            Target::KeycloakRealm => Kind::KeycloakRealm,
            Target::KeycloakClient => Kind::KeycloakClient,
            Target::KeycloakUser => Kind::KeycloakUser,
            Target::Account => Kind::ServiceAccount,
            Target::Config => Kind::ConfigMap,
            Target::AdminSecret => Kind::Secret,
            Target::DataClaim => Kind::PersistentVolumeClaim,
            Target::DatabaseClaim => Kind::PersistentVolumeClaim,
            Target::Deployment => Kind::Deployment,
            Target::Service => Kind::Service,
        }
    }

    /// The name of the object.
    pub fn name(self, resource: &Hawkbit) -> (r: String)
        requires
            resource.deep_view().is_named(),
        ensures
            r@ == self.name_of(resource.deep_view()),
    {
        let suffix = match self {
            Target::BrokerAccount
            | Target::BrokerRole
            | Target::BrokerRoleBinding
            | Target::BrokerSecret
            | Target::BrokerConfig
            | Target::BrokerSet
            | Target::BrokerService => "-rabbit",
            Target::BrokerHeadlessService => "-rabbit-headless",
            Target::KeycloakRealm
            | Target::KeycloakClient => "-hawkbit",
            Target::KeycloakUser
            | Target::AdminSecret => "-admin",
            Target::DataClaim => "-data",
            Target::DatabaseClaim => "-embedded-db",
            _ => "",
        };
        text::chain(resource.name().as_str(), suffix)
    }
}

} // verus!
