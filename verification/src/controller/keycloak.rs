//! Signing on with Keycloak.

use vstd::prelude::*;

use crate::content;
use crate::controller;
use crate::controller::resources;
use crate::controller::HawkbitController;
use crate::crd::{Hawkbit, HawkbitModel, KeycloakConfig, KeycloakConfigModel};
use crate::error;
use crate::error::Error;
use crate::objects::keycloak::{
    Client, ClientModel, Credential, CredentialModel, ExternalAccessModel, Keycloak, KeycloakClient,
    KeycloakClientModel, KeycloakClientSpecModel, KeycloakModel, KeycloakRealm, KeycloakRealmModel,
    KeycloakRealmSpecModel, KeycloakSpecModel, KeycloakUser, KeycloakUserModel, KeycloakUserSpecModel,
    RealmModel, UserModel,
};
use crate::objects::meta::{LabelSelector, LabelSelectorModel, ObjectMetaModel};
use crate::ownership;
use crate::text;

verus! {

/// The roles that hawkBit knows.
pub open spec fn roles() -> Seq<Seq<char>> {
    seq![
        "system_admin"@,
        "create_target"@,
        "read_target"@,
        "read_target_security_token"@,
        "update_target"@,
        "delete_target"@,
        "create_repository"@,
        "read_repository"@,
        "update_repository"@,
        "delete_repository"@,
        "download_repository_artifact"@,
        "tenant_configuration"@,
        "create_rollout"@,
        "read_rollout"@,
        "update_rollout"@,
        "delete_rollout"@,
        "handle_rollout"@,
        "approve_rollout"@,
    ]
}

/// The roles that hawkBit knows.
pub fn all_roles() -> (r: Vec<String>)
    ensures
        r.deep_view() == roles(),
{
    vec![
        "system_admin".to_string(),
        "create_target".to_string(),
        "read_target".to_string(),
        "read_target_security_token".to_string(),
        "update_target".to_string(),
        "delete_target".to_string(),
        "create_repository".to_string(),
        "read_repository".to_string(),
        "update_repository".to_string(),
        "delete_repository".to_string(),
        "download_repository_artifact".to_string(),
        "tenant_configuration".to_string(),
        "create_rollout".to_string(),
        "read_rollout".to_string(),
        "update_rollout".to_string(),
        "delete_rollout".to_string(),
        "handle_rollout".to_string(),
        "approve_rollout".to_string(),
    ]
}

/// The labels of the Keycloak instance.
pub open spec fn instance_labels(resource: HawkbitModel) -> Map<Seq<char>, Seq<char>> {
    controller::labels(resource, "keycloak"@, "sso"@)
}

/// The labels of the realm.
pub open spec fn realm_labels(resource: HawkbitModel) -> Map<Seq<char>, Seq<char>> {
    controller::labels(resource, "keycloak-realm"@, "sso"@)
}

/// The labels of the client.
pub open spec fn client_labels(resource: HawkbitModel) -> Map<Seq<char>, Seq<char>> {
    controller::labels(resource, "keycloak-client"@, "sso"@)
}

/// The name of the realm, and of the client in it.
pub open spec fn realm_name(resource: HawkbitModel) -> Seq<char> {
    resource.name() + "-hawkbit"@
}

/// The URL under which hawkBit is reached: the one given, else that of the route. Where there are routes,
/// the route's is waited for; where there are none, the URL stays empty, and what is made from it is relative.
pub open spec fn known_url(
    config: KeycloakConfigModel,
    route_url: Option<Seq<char>>,
    has_openshift: bool,
) -> Result<Seq<char>, Error> {
    match (config.hawkbit_url, route_url) {
        (Some(url), _) => Ok(url),
        (None, Some(url)) => Ok(url),
        (None, None) => if has_openshift {
            Err(Error::WaitingForRoute)
        } else {
            Ok(Seq::empty())
        },
    }
}

/// The Keycloak instance, or why there is none.
pub open spec fn instance(instance: KeycloakModel, resource: HawkbitModel) -> Result<KeycloakModel, Error> {
    match ownership::owned(instance.metadata, resource) {
        Err(e) => Err(e),
        Ok(metadata) => Ok(
            KeycloakModel {
                metadata: ObjectMetaModel { labels: Some(instance_labels(resource)), ..metadata },
                spec: KeycloakSpecModel {
                    instances: 1,
                    external_access: ExternalAccessModel { enabled: true },
                },
                ..instance
            },
        ),
    }
}

/// The realm, or why there is none.
pub open spec fn realm(realm: KeycloakRealmModel, resource: HawkbitModel) -> Result<KeycloakRealmModel, Error> {
    match ownership::owned(realm.metadata, resource) {
        Err(e) => Err(e),
        Ok(metadata) => Ok(
            KeycloakRealmModel {
                metadata: ObjectMetaModel { labels: Some(realm_labels(resource)), ..metadata },
                spec: KeycloakRealmSpecModel {
                    instance_selector: LabelSelectorModel { match_labels: Some(instance_labels(resource)) },
                    realm: RealmModel {
                        display_name: "hawkBit Realm"@,
                        enabled: true,
                        realm: realm_name(resource),
                    },
                },
                ..realm
            },
        ),
    }
}

/// The client, or why there is none.
pub open spec fn client(
    client: KeycloakClientModel,
    resource: HawkbitModel,
    url: Seq<char>,
) -> Result<KeycloakClientModel, Error> {
    match ownership::owned(client.metadata, resource) {
        Err(e) => Err(e),
        Ok(metadata) => Ok(
            KeycloakClientModel {
                metadata: ObjectMetaModel { labels: Some(client_labels(resource)), ..metadata },
                spec: KeycloakClientSpecModel {
                    realm_selector: LabelSelectorModel { match_labels: Some(realm_labels(resource)) },
                    client: ClientModel {
                        client_id: realm_name(resource),
                        enabled: true,
                        root_url: Seq::empty(),
                        base_url: url,
                        redirect_uris: seq![url + "/login/oauth2/code/hawkbit"@],
                        client_authenticator_type: "client-secret"@,
                        implicit_flow_enabled: false,
                        public_client: false,
                        standard_flow_enabled: true,
                        default_roles: roles(),
                    },
                },
                ..client
            },
        ),
    }
}

/// The credentials: those that are there, else a new password.
pub open spec fn credentials(credentials: Seq<CredentialModel>, password: Seq<char>) -> Seq<CredentialModel> {
    if credentials.len() == 0 {
        seq![CredentialModel { temporary: false, type_: "password"@, value: password }]
    } else {
        credentials
    }
}

/// The administrator in the realm, or why there is none.
pub open spec fn user(
    user: KeycloakUserModel,
    resource: HawkbitModel,
    password: Seq<char>,
) -> Result<KeycloakUserModel, Error> {
    match ownership::owned(user.metadata, resource) {
        Err(e) => Err(e),
        Ok(metadata) => Ok(
            KeycloakUserModel {
                metadata,
                spec: KeycloakUserSpecModel {
                    realm_selector: LabelSelectorModel { match_labels: Some(realm_labels(resource)) },
                    user: UserModel {
                        credentials: credentials(user.spec.user.credentials, password),
                        username: "admin"@,
                        enabled: true,
                        first_name: "System"@,
                        last_name: "Admin"@,
                        client_roles: user.spec.user.client_roles.insert(realm_name(resource), roles()),
                    },
                },
                ..user
            },
        ),
    }
}

/// The issuer of the realm's tokens: known once the first of the instances has an address.
pub open spec fn issuer_uri(instances: Seq<KeycloakModel>, realm_name: Seq<char>) -> Option<Seq<char>> {
    if instances.len() > 0 && instances[0].status is Some && instances[0].status->0.internal_url.len() > 0 {
        Some(instances[0].status->0.internal_url + "/auth/realms/"@ + realm_name)
    } else {
        None
    }
}

/// The issuer of the realm's tokens, by the instances that were found.
pub fn find_issuer_uri(instances: &Vec<Keycloak>, realm_name: &str) -> (r: Option<String>)
    ensures
        r.deep_view() == issuer_uri(instances.deep_view(), realm_name@),
{
    if instances.len() == 0 {
        return None;
    }
    assert(instances.deep_view()[0] == instances@[0].deep_view());
    match &instances[0].status {
        Some(status) => {
            if status.internal_url.as_str().is_empty() {
                None
            } else {
                Some(text::chain3(status.internal_url.as_str(), "/auth/realms/", realm_name))
            }
        },
        None => None,
    }
}

impl HawkbitController {
    /// The labels by which the Keycloak instance is found.
    pub fn keycloak_selector(&self, resource: &Hawkbit) -> (r: String)
        requires
            resource.deep_view().is_named(),
        ensures
            r@ == content::selector_text(instance_labels(resource.deep_view())),
    {
        let labels = self.selector(resource, "keycloak", "sso");
        content::to_selector(&labels)
    }

    /// The name of the realm, and of the client in it.
    pub fn keycloak_realm_name(&self, resource: &Hawkbit) -> (r: String)
        requires
            resource.deep_view().is_named(),
        ensures
            r@ == realm_name(resource.deep_view()),
    {
        text::chain(resource.name().as_str(), "-hawkbit")
    }

    /// The URL under which hawkBit is reached: the one given, else that of the route, else nothing where
    /// there are no routes to wait for.
    pub fn hawkbit_url(&self, config: &KeycloakConfig, route_url: &Option<String>) -> (r: Result<String, Error>)
        ensures
            error::outcome(r) == known_url(config.deep_view(), route_url.deep_view(), self.has_openshift),
    {
        match (&config.hawkbit_url, route_url) {
            (Some(url), _) => Ok(url.clone()),
            (None, Some(url)) => Ok(url.clone()),
            (None, None) => {
                if self.has_openshift {
                    Err(Error::WaitingForRoute)
                } else {
                    Ok(String::new())
                }
            },
        }
    }

    /// Brings the Keycloak instance into shape.
    pub fn create_keycloak(&self, resource: &Hawkbit, instance: Keycloak) -> (r: Result<Keycloak, Error>)
        requires
            resource.deep_view().is_named(),
        ensures
            error::outcome(r) == self::instance(instance.deep_view(), resource.deep_view()),
    {
        let mut metadata = match ownership::owned_by_controller(instance.metadata, resource) {
            Ok(metadata) => metadata,
            Err(e) => {
                return Err(e);
            },
        };
        metadata.labels = Some(self.selector(resource, "keycloak", "sso"));
        let mut spec = instance.spec;
        spec.instances = 1;
        spec.external_access.enabled = true;
        Ok(Keycloak { metadata, spec, status: instance.status, rest: instance.rest })
    }

    /// Brings the realm into shape.
    pub fn create_keycloak_realm(&self, resource: &Hawkbit, realm: KeycloakRealm) -> (r: Result<KeycloakRealm, Error>)
        requires
            resource.deep_view().is_named(),
        ensures
            error::outcome(r) == self::realm(realm.deep_view(), resource.deep_view()),
    {
        let mut metadata = match ownership::owned_by_controller(realm.metadata, resource) {
            Ok(metadata) => metadata,
            Err(e) => {
                return Err(e);
            },
        };
        metadata.labels = Some(self.selector(resource, "keycloak-realm", "sso"));
        let mut spec = realm.spec;
        spec.instance_selector = LabelSelector { match_labels: Some(self.selector(resource, "keycloak", "sso")) };
        spec.realm.display_name = "hawkBit Realm".to_string();
        spec.realm.enabled = true;
        spec.realm.realm = self.keycloak_realm_name(resource);
        Ok(KeycloakRealm { metadata, spec, rest: realm.rest })
    }

    /// Brings the client into shape.
    pub fn create_keycloak_client(
        &self,
        resource: &Hawkbit,
        client: KeycloakClient,
        url: &str,
    ) -> (r: Result<KeycloakClient, Error>)
        requires
            resource.deep_view().is_named(),
        ensures
            error::outcome(r) == self::client(client.deep_view(), resource.deep_view(), url@),
    {
        let mut metadata = match ownership::owned_by_controller(client.metadata, resource) {
            Ok(metadata) => metadata,
            Err(e) => {
                return Err(e);
            },
        };
        metadata.labels = Some(self.selector(resource, "keycloak-client", "sso"));
        let mut spec = client.spec;
        spec.realm_selector = LabelSelector { match_labels: Some(self.selector(resource, "keycloak-realm", "sso")) };
        let uris = vec![text::chain(url, "/login/oauth2/code/hawkbit")];
        assert(uris.deep_view() =~= seq![url@ + "/login/oauth2/code/hawkbit"@]);
        spec.client = Client {
            client_id: self.keycloak_realm_name(resource),
            enabled: true,
            root_url: String::new(),
            base_url: url.to_string(),
            redirect_uris: uris,
            client_authenticator_type: "client-secret".to_string(),
            implicit_flow_enabled: false,
            public_client: false,
            standard_flow_enabled: true,
            default_roles: all_roles(),
        };
        Ok(KeycloakClient { metadata, spec, rest: client.rest })
    }

    /// Brings the administrator in the realm into shape. The password is used where there are no
    /// credentials yet.
    pub fn create_keycloak_user_with(
        &self,
        resource: &Hawkbit,
        user: KeycloakUser,
        password: &str,
    ) -> (r: Result<KeycloakUser, Error>)
        requires
            resource.deep_view().is_named(),
        ensures
            error::outcome(r) == self::user(user.deep_view(), resource.deep_view(), password@),
    {
        let metadata = match ownership::owned_by_controller(user.metadata, resource) {
            Ok(metadata) => metadata,
            Err(e) => {
                return Err(e);
            },
        };
        let mut spec = user.spec;
        spec.realm_selector = LabelSelector { match_labels: Some(self.selector(resource, "keycloak-realm", "sso")) };
        let ghost before = spec.user.credentials.deep_view();
        if spec.user.credentials.len() == 0 {
            spec.user.credentials.push(
                Credential { temporary: false, type_: "password".to_string(), value: password.to_string() },
            );
        }
        assert(spec.user.credentials.deep_view() =~= credentials(before, password@));
        spec.user.username = "admin".to_string();
        spec.user.enabled = true;
        spec.user.first_name = "System".to_string();
        spec.user.last_name = "Admin".to_string();
        spec.user.client_roles.insert(self.keycloak_realm_name(resource), all_roles());
        Ok(KeycloakUser { metadata, spec, rest: user.rest })
    }

    /// Brings the administrator in the realm into shape. Where there are no credentials yet, a password
    /// is made up.
    pub fn create_keycloak_user(&self, resource: &Hawkbit, user: KeycloakUser) -> (r: Result<KeycloakUser, Error>)
        requires
            resource.deep_view().is_named(),
        ensures
            exists|password: Seq<char>| #[trigger]
                resources::is_password(password) && error::outcome(r) == self::user(
                    user.deep_view(),
                    resource.deep_view(),
                    password,
                ),
    {
        let password = self.new_password();
        self.create_keycloak_user_with(resource, user, password.as_str())
    }
}

} // verus!
