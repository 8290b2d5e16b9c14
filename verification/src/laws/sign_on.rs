//! Signing on with Keycloak.

use vstd::prelude::*;

use crate::controller::keycloak;
use crate::controller::reconcile;
use crate::controller::reconcile::{ProgressModel, ReconciliationModel, Step};
use crate::controller::target::Target;
use crate::crd::{HawkbitModel, KeycloakConfigModel, SignOnModel};
use crate::error::Error;
use crate::laws::serving;
use crate::objects::keycloak::{KeycloakClientModel, KeycloakModel, KeycloakRealmModel, KeycloakUserModel};
use crate::objects::meta::ObjectMetaModel;
use crate::objects::object::ObjectModel;
use crate::ownership;

verus! {

/// One of hawkBit's permissions.
pub open spec fn is_permission(role: Seq<char>) -> bool {
    ||| role == "system_admin"@
    ||| role == "create_target"@
    ||| role == "read_target"@
    ||| role == "read_target_security_token"@
    ||| role == "update_target"@
    ||| role == "delete_target"@
    ||| role == "create_repository"@
    ||| role == "read_repository"@
    ||| role == "update_repository"@
    ||| role == "delete_repository"@
    ||| role == "download_repository_artifact"@
    ||| role == "tenant_configuration"@
    ||| role == "create_rollout"@
    ||| role == "read_rollout"@
    ||| role == "update_rollout"@
    ||| role == "delete_rollout"@
    ||| role == "handle_rollout"@
    ||| role == "approve_rollout"@
}

/// The client's default roles are hawkBit's permissions, all of them and nothing else; and so are the roles that
/// the administrator has with the client.
pub proof fn lemma_roles_are_permissions(
    client: KeycloakClientModel,
    user: KeycloakUserModel,
    resource: HawkbitModel,
    url: Seq<char>,
    password: Seq<char>,
    role: Seq<char>,
)
    requires
        keycloak::client(client, resource, url) is Ok,
        keycloak::user(user, resource, password) is Ok,
    ensures
        ({
            let defaults = keycloak::client(client, resource, url)->Ok_0.spec.client.default_roles;
            let granted = keycloak::user(user, resource, password)->Ok_0.spec.user.client_roles;
            let id = resource.metadata.name->0 + "-hawkbit"@;
            &&& defaults.contains(role) <==> is_permission(role)
            &&& defaults.len() == 18
            &&& granted.contains_key(id)
            &&& granted[id].contains(role) <==> is_permission(role)
            &&& granted[id].len() == 18
            &&& keycloak::client(client, resource, url)->Ok_0.spec.client.client_id == id
        }),
{
    let roles = keycloak::roles();
    assert(roles[0] == "system_admin"@);
    assert(roles[1] == "create_target"@);
    assert(roles[2] == "read_target"@);
    assert(roles[3] == "read_target_security_token"@);
    assert(roles[4] == "update_target"@);
    assert(roles[5] == "delete_target"@);
    assert(roles[6] == "create_repository"@);
    assert(roles[7] == "read_repository"@);
    assert(roles[8] == "update_repository"@);
    assert(roles[9] == "delete_repository"@);
    assert(roles[10] == "download_repository_artifact"@);
    assert(roles[11] == "tenant_configuration"@);
    assert(roles[12] == "create_rollout"@);
    assert(roles[13] == "read_rollout"@);
    assert(roles[14] == "update_rollout"@);
    assert(roles[15] == "delete_rollout"@);
    assert(roles[16] == "handle_rollout"@);
    assert(roles[17] == "approve_rollout"@);
}

/// A URL that is given is the one for signing on, with or without routes and whatever URL the route has.
pub proof fn lemma_given_url(
    config: KeycloakConfigModel,
    url: Seq<char>,
    route_url: Option<Seq<char>>,
    has_openshift: bool,
)
    requires
        config.hawkbit_url == Some(url),
    ensures
        keycloak::known_url(config, route_url, has_openshift) == Ok::<Seq<char>, Error>(url),
{
}

/// Without a URL that is given, the route's is used; without that one too, it is waited for where there are routes,
/// and empty where there are none.
pub proof fn lemma_url_of_route(config: KeycloakConfigModel, route_url: Option<Seq<char>>, has_openshift: bool)
    requires
        config.hawkbit_url is None,
    ensures
        route_url is Some ==> keycloak::known_url(config, route_url, has_openshift) == Ok::<Seq<char>, Error>(
            route_url->0,
        ),
        route_url is None && has_openshift ==> keycloak::known_url(config, route_url, has_openshift) == Err::<
            Seq<char>,
            Error,
        >(Error::WaitingForRoute),
        route_url is None && !has_openshift ==> keycloak::known_url(config, route_url, has_openshift) is Ok
            && keycloak::known_url(config, route_url, has_openshift)->Ok_0.len() == 0,
{
}

/// Signing on goes back to the URL that is given for the instance, whatever else is known.
pub proof fn lemma_client_goes_by_given_url(
    client: KeycloakClientModel,
    resource: HawkbitModel,
    has_openshift: bool,
    progress: ProgressModel,
    password: Seq<char>,
    url: Seq<char>,
)
    requires
        resource.spec.sign_on matches Some(SignOnModel::Keycloak { config }) && config.hawkbit_url == Some(url),
        ownership::owned(client.metadata, resource) is Ok,
    ensures
        reconcile::obstacle(Step::Apply(Target::Keycloak), resource, has_openshift, progress) is None,
        reconcile::applied(
            Target::KeycloakClient,
            ObjectModel::KeycloakClient(client),
            resource,
            has_openshift,
            progress,
            password,
        ) matches Ok((ObjectModel::KeycloakClient(after), _)) && {
            &&& after.spec.client.base_url == url
            &&& after.spec.client.redirect_uris == seq![url + "/login/oauth2/code/hawkbit"@]
        },
{
    reveal(reconcile::sign_on_applied);
}

/// Without a URL that is given, signing on goes back to the route, once it has a host.
pub proof fn lemma_client_goes_by_route(
    client: KeycloakClientModel,
    resource: HawkbitModel,
    has_openshift: bool,
    progress: ProgressModel,
    password: Seq<char>,
    url: Seq<char>,
)
    requires
        resource.spec.sign_on matches Some(SignOnModel::Keycloak { config }) && config.hawkbit_url is None,
        progress.url == Some(url),
        ownership::owned(client.metadata, resource) is Ok,
    ensures
        reconcile::obstacle(Step::Apply(Target::Keycloak), resource, has_openshift, progress) is None,
        reconcile::applied(
            Target::KeycloakClient,
            ObjectModel::KeycloakClient(client),
            resource,
            has_openshift,
            progress,
            password,
        ) matches Ok((ObjectModel::KeycloakClient(after), _)) && {
            &&& after.spec.client.base_url == url
            &&& after.spec.client.redirect_uris == seq![url + "/login/oauth2/code/hawkbit"@]
        },
{
    reveal(reconcile::sign_on_applied);
}

/// Without routes and without a URL that is given, what signing on goes back to is relative.
pub proof fn lemma_client_goes_by_path(
    client: KeycloakClientModel,
    resource: HawkbitModel,
    progress: ProgressModel,
    password: Seq<char>,
)
    requires
        resource.spec.sign_on matches Some(SignOnModel::Keycloak { config }) && config.hawkbit_url is None,
        progress.url is None,
        ownership::owned(client.metadata, resource) is Ok,
    ensures
        reconcile::applied(
            Target::KeycloakClient,
            ObjectModel::KeycloakClient(client),
            resource,
            false,
            progress,
            password,
        ) matches Ok((ObjectModel::KeycloakClient(after), _)) && {
            &&& after.spec.client.base_url.len() == 0
            &&& after.spec.client.redirect_uris == seq!["/login/oauth2/code/hawkbit"@]
        },
{
    reveal(reconcile::sign_on_applied);
    assert(Seq::<char>::empty() + "/login/oauth2/code/hawkbit"@ =~= "/login/oauth2/code/hawkbit"@);
}

/// The client: a confidential one that signs users on by codes, in the realm of the instance.
pub proof fn lemma_client(
    client: KeycloakClientModel,
    realm: KeycloakRealmModel,
    resource: HawkbitModel,
    url: Seq<char>,
)
    requires
        keycloak::client(client, resource, url) is Ok,
        keycloak::realm(realm, resource) is Ok,
    ensures
        ({
            let after = keycloak::client(client, resource, url)->Ok_0;
            let inner = after.spec.client;
            &&& after.metadata.labels == Some(serving::labelled(resource, "keycloak-client"@, "sso"@))
            &&& after.spec.realm_selector.match_labels == keycloak::realm(realm, resource)->Ok_0.metadata.labels
            &&& after.spec.realm_selector.match_labels == Some(
                serving::labelled(resource, "keycloak-realm"@, "sso"@),
            )
            &&& inner.client_id == resource.metadata.name->0 + "-hawkbit"@
            &&& inner.enabled
            &&& inner.root_url.len() == 0
            &&& inner.base_url == url
            &&& inner.redirect_uris.len() == 1
            &&& inner.redirect_uris[0] == url + "/login/oauth2/code/hawkbit"@
            &&& inner.client_authenticator_type == "client-secret"@
            &&& inner.standard_flow_enabled
            &&& !inner.implicit_flow_enabled
            &&& !inner.public_client
        }),
{
    serving::lemma_labelled(resource, "keycloak-client"@, "sso"@);
    serving::lemma_labelled(resource, "keycloak-realm"@, "sso"@);
}

/// The Keycloak instance, and the realm that selects it.
pub proof fn lemma_instance_and_realm(instance: KeycloakModel, realm: KeycloakRealmModel, resource: HawkbitModel)
    requires
        keycloak::instance(instance, resource) is Ok,
        keycloak::realm(realm, resource) is Ok,
    ensures
        ({
            let a = keycloak::instance(instance, resource)->Ok_0;
            let b = keycloak::realm(realm, resource)->Ok_0;
            &&& a.metadata.labels == Some(serving::labelled(resource, "keycloak"@, "sso"@))
            &&& a.spec.instances == 1
            &&& a.spec.external_access.enabled
            &&& a.status == instance.status
            &&& b.metadata.labels == Some(serving::labelled(resource, "keycloak-realm"@, "sso"@))
            &&& b.spec.instance_selector.match_labels == a.metadata.labels
            &&& b.spec.realm.display_name == "hawkBit Realm"@
            &&& b.spec.realm.enabled
            &&& b.spec.realm.realm == resource.metadata.name->0 + "-hawkbit"@
        }),
{
    serving::lemma_labelled(resource, "keycloak"@, "sso"@);
    serving::lemma_labelled(resource, "keycloak-realm"@, "sso"@);
}

/// The administrator, in the realm of the instance: a new one gets the password for good, and one that is there
/// keeps its credentials, and its roles with other clients.
pub proof fn lemma_user(
    user: KeycloakUserModel,
    realm: KeycloakRealmModel,
    resource: HawkbitModel,
    password: Seq<char>,
    other: Seq<char>,
)
    requires
        keycloak::user(user, resource, password) is Ok,
        keycloak::realm(realm, resource) is Ok,
        other != resource.metadata.name->0 + "-hawkbit"@,
    ensures
        ({
            let after = keycloak::user(user, resource, password)->Ok_0;
            let inner = after.spec.user;
            let before = user.spec.user;
            &&& after.metadata.labels == user.metadata.labels
            &&& after.spec.realm_selector.match_labels == keycloak::realm(realm, resource)->Ok_0.metadata.labels
            &&& after.spec.realm_selector.match_labels == Some(
                serving::labelled(resource, "keycloak-realm"@, "sso"@),
            )
            &&& inner.username == "admin"@
            &&& inner.enabled
            &&& inner.first_name == "System"@
            &&& inner.last_name == "Admin"@
            &&& before.credentials.len() > 0 ==> inner.credentials == before.credentials
            &&& before.credentials.len() == 0 ==> inner.credentials.len() == 1 && !inner.credentials[0].temporary
                && inner.credentials[0].type_ == "password"@ && inner.credentials[0].value == password
            &&& inner.client_roles.contains_key(other) == before.client_roles.contains_key(other)
            &&& before.client_roles.contains_key(other) ==> inner.client_roles[other] == before.client_roles[other]
        }),
{
    serving::lemma_labelled(resource, "keycloak-realm"@, "sso"@);
}

/// Tokens are issued by the realm that is made, at the address of the first instance that is found, once it has one.
pub proof fn lemma_issuer(instances: Seq<KeycloakModel>, realm: KeycloakRealmModel, resource: HawkbitModel)
    requires
        keycloak::realm(realm, resource) is Ok,
    ensures
        ({
            let name = keycloak::realm(realm, resource)->Ok_0.spec.realm.realm;
            let issuer = keycloak::issuer_uri(instances, name);
            &&& name == resource.metadata.name->0 + "-hawkbit"@
            &&& instances.len() == 0 ==> issuer is None
            &&& instances.len() > 0 && instances[0].status is None ==> issuer is None
            &&& instances.len() > 0 && instances[0].status is Some && instances[0].status->0.internal_url.len() == 0
                ==> issuer is None
            &&& instances.len() > 0 && instances[0].status is Some && instances[0].status->0.internal_url.len() > 0
                ==> issuer == Some(instances[0].status->0.internal_url + "/auth/realms/"@ + name)
        }),
{
}

/// Once the Keycloak instances are listed, the issuer of tokens is what is learned, and nothing else changes.
pub proof fn lemma_issuer_is_learned(run: ReconciliationModel, instances: Seq<KeycloakModel>)
    requires
        run.step() == Some(Step::FindIssuer),
    ensures
        run.listed(instances).progress.issuer_uri == keycloak::issuer_uri(
            instances,
            run.resource.metadata.name->0 + "-hawkbit"@,
        ),
        run.listed(instances).progress.url == run.progress.url,
        run.listed(instances).progress.broker == run.progress.broker,
        run.listed(instances).progress.server == run.progress.server,
        run.listed(instances).taken == run.taken + 1,
        run.listed(instances).failure is None,
        run.listed(instances).resource == run.resource,
        run.listed(instances).has_openshift == run.has_openshift,
{
}

/// An object for signing on cannot be had just when the instance cannot control it, and for that reason.
pub proof fn lemma_no_sign_on(
    instance: KeycloakModel,
    realm: KeycloakRealmModel,
    client: KeycloakClientModel,
    user: KeycloakUserModel,
    resource: HawkbitModel,
    url: Seq<char>,
    password: Seq<char>,
    e: Error,
)
    ensures
        ownership::owned(instance.metadata, resource) == Err::<ObjectMetaModel, Error>(e) <==> keycloak::instance(
            instance,
            resource,
        ) == Err::<KeycloakModel, Error>(e),
        ownership::owned(realm.metadata, resource) == Err::<ObjectMetaModel, Error>(e) <==> keycloak::realm(
            realm,
            resource,
        ) == Err::<KeycloakRealmModel, Error>(e),
        ownership::owned(client.metadata, resource) == Err::<ObjectMetaModel, Error>(e) <==> keycloak::client(
            client,
            resource,
            url,
        ) == Err::<KeycloakClientModel, Error>(e),
        ownership::owned(user.metadata, resource) == Err::<ObjectMetaModel, Error>(e) <==> keycloak::user(
            user,
            resource,
            password,
        ) == Err::<KeycloakUserModel, Error>(e),
{
}

} // verus!
