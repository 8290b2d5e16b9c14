//! What the operator leaves alone, and what it takes to leave everything alone.

use vstd::prelude::*;
use vstd::utf8::encode_utf8;

use crate::controller::keycloak;
use crate::controller::rabbit;
use crate::controller::reconcile;
use crate::controller::reconcile::ProgressModel;
use crate::controller::resources;
use crate::controller::server;
use crate::controller::target::Target;
use crate::crd::{DatabaseVariantModel, HawkbitModel};
use crate::entries;
use crate::error::Error;
use crate::install;
use crate::objects::config::ConfigMapModel;
use crate::objects::keycloak::KeycloakUserModel;
use crate::objects::meta::ObjectMetaModel;
use crate::objects::object::ObjectModel;
use crate::objects::pod::{Container, ContainerModel, EnvVarModel, PodSpecModel, Volume, VolumeModel};
use crate::objects::workload::{DeploymentModel, StatefulSetModel};
use crate::ownership;

verus! {

/// Whether a target has all that it needs of the instance, apart from the object itself.
pub open spec fn is_possible(
    target: Target,
    resource: HawkbitModel,
    has_openshift: bool,
    progress: ProgressModel,
) -> bool {
    match target {
        Target::Deployment => resource.spec.database.variant() is Some && server::broker_env(resource) is Some,
        Target::KeycloakClient => reconcile::sign_on_url(resource, has_openshift, progress) is Ok,
        _ => true,
    }
}

/// What comes of applying an object agrees with who may control it.
pub open spec fn is_orderly(
    object: ObjectModel,
    resource: HawkbitModel,
    possible: bool,
    after: Result<(ObjectModel, ProgressModel), Error>,
) -> bool {
    &&& after is Ok <==> ownership::owned(object.metadata(), resource) is Ok && possible
    &&& after is Ok ==> after->Ok_0.0.kind() == object.kind()
    &&& after is Ok ==> after->Ok_0.0.rest() == object.rest()
    &&& after is Ok ==> after->Ok_0.0.metadata() == ObjectMetaModel {
        labels: after->Ok_0.0.metadata().labels,
        ..ownership::owned(object.metadata(), resource)->Ok_0
    }
}

proof fn lemma_broker_orderly(
    target: Target,
    object: ObjectModel,
    resource: HawkbitModel,
    progress: ProgressModel,
)
    requires
        object.kind() == target.kind_of(),
        target is BrokerAccount
        || target is BrokerRole
        || target is BrokerRoleBinding
        || target is BrokerSecret
        || target is BrokerConfig
        || target is BrokerSet
        || target is BrokerHeadlessService
        || target is BrokerService,
    ensures
        is_orderly(
            object,
            resource,
            true,
            reconcile::broker_applied(target, object, resource, progress),
        ),
{
    reveal(reconcile::broker_applied);
    match target {
        Target::BrokerAccount => {},
        Target::BrokerRole => {},
        Target::BrokerRoleBinding => {},
        Target::BrokerSecret => {},
        Target::BrokerConfig => {},
        Target::BrokerSet => {},
        Target::BrokerHeadlessService => {},
        Target::BrokerService => {},
        _ => {},
    }
}

proof fn lemma_sign_on_orderly(
    target: Target,
    object: ObjectModel,
    resource: HawkbitModel,
    has_openshift: bool,
    progress: ProgressModel,
    password: Seq<char>,
)
    requires
        object.kind() == target.kind_of(),
        target is Keycloak
        || target is KeycloakRealm
        || target is KeycloakClient
        || target is KeycloakUser,
    ensures
        is_orderly(
            object,
            resource,
            is_possible(target, resource, has_openshift, progress),
            reconcile::sign_on_applied(target, object, resource, has_openshift, progress, password),
        ),
{
    reveal(reconcile::sign_on_applied);
    match target {
        Target::Keycloak => {},
        Target::KeycloakRealm => {},
        Target::KeycloakClient => {},
        Target::KeycloakUser => {},
        _ => {},
    }
}

proof fn lemma_server_orderly(
    target: Target,
    object: ObjectModel,
    resource: HawkbitModel,
    has_openshift: bool,
    progress: ProgressModel,
    password: Seq<char>,
)
    requires
        object.kind() == target.kind_of(),
        target is Route
        || target is Account
        || target is Config
        || target is AdminSecret
        || target is DataClaim
        || target is DatabaseClaim
        || target is Deployment
        || target is Service,
    ensures
        is_orderly(
            object,
            resource,
            is_possible(target, resource, has_openshift, progress),
            reconcile::server_applied(target, object, resource, has_openshift, progress, password),
        ),
{
    reveal(reconcile::server_applied);
    match target {
        Target::Route => {},
        Target::Account => {},
        Target::Config => {},
        Target::AdminSecret => {},
        Target::DataClaim => {},
        Target::DatabaseClaim => {},
        Target::Deployment => {},
        Target::Service => {},
        _ => {},
    }
}

proof fn lemma_orderly(
    target: Target,
    object: ObjectModel,
    resource: HawkbitModel,
    has_openshift: bool,
    progress: ProgressModel,
    password: Seq<char>,
)
    requires
        object.kind() == target.kind_of(),
    ensures
        is_orderly(
            object,
            resource,
            is_possible(target, resource, has_openshift, progress),
            reconcile::applied(target, object, resource, has_openshift, progress, password),
        ),
{
    match target {
        Target::BrokerAccount
        | Target::BrokerRole
        | Target::BrokerRoleBinding
        | Target::BrokerSecret
        | Target::BrokerConfig
        | Target::BrokerSet
        | Target::BrokerHeadlessService
        | Target::BrokerService => {
            lemma_broker_orderly(target, object, resource, progress);
        },
        Target::Keycloak | Target::KeycloakRealm | Target::KeycloakClient | Target::KeycloakUser => {
            lemma_sign_on_orderly(target, object, resource, has_openshift, progress, password);
        },
        _ => {
            lemma_server_orderly(target, object, resource, has_openshift, progress, password);
        },
    }
}

/// An object is applied just when the instance may control it and has all that it takes.
pub proof fn lemma_applied_succeeds(
    target: Target,
    object: ObjectModel,
    resource: HawkbitModel,
    has_openshift: bool,
    progress: ProgressModel,
    password: Seq<char>,
)
    requires
        object.kind() == target.kind_of(),
    ensures
        reconcile::applied(target, object, resource, has_openshift, progress, password) is Ok <==> ownership::owned(
            object.metadata(),
            resource,
        ) is Ok && is_possible(target, resource, has_openshift, progress),
{
    lemma_orderly(target, object, resource, has_openshift, progress, password);
}

/// An applied object keeps its kind, what is not looked at, and its name, namespace, UID, annotations and
/// all else in its metadata, but for its labels and its controller.
pub proof fn lemma_applied_keeps_metadata(
    target: Target,
    object: ObjectModel,
    resource: HawkbitModel,
    has_openshift: bool,
    progress: ProgressModel,
    password: Seq<char>,
)
    requires
        object.kind() == target.kind_of(),
        reconcile::applied(target, object, resource, has_openshift, progress, password) is Ok,
    ensures
        ({
            let after = reconcile::applied(target, object, resource, has_openshift, progress, password)->Ok_0.0;
            &&& after.kind() == object.kind()
            &&& after.rest() == object.rest()
            &&& ownership::owned(object.metadata(), resource) is Ok
            &&& after.metadata() == ObjectMetaModel {
                labels: after.metadata().labels,
                ..ownership::owned(object.metadata(), resource)->Ok_0
            }
        }),
{
    lemma_orderly(target, object, resource, has_openshift, progress, password);
}

/// An applied object is controlled by the instance, and by nothing else.
pub proof fn lemma_applied_is_controlled(
    target: Target,
    object: ObjectModel,
    resource: HawkbitModel,
    has_openshift: bool,
    progress: ProgressModel,
    password: Seq<char>,
)
    requires
        object.kind() == target.kind_of(),
        reconcile::applied(target, object, resource, has_openshift, progress, password) is Ok,
    ensures
        ({
            let after = reconcile::applied(target, object, resource, has_openshift, progress, password)->Ok_0.0;
            let references = after.metadata().owner_references->0;
            &&& exists|i: int|
                0 <= i < references.len() && ownership::same_owner(
                    ownership::controller_reference(resource),
                    #[trigger] references[i],
                ) && references[i].controller == Some(true)
            &&& !ownership::controlled_by_other(references, ownership::controller_reference(resource))
        }),
{
    lemma_applied_keeps_metadata(target, object, resource, has_openshift, progress, password);
    ownership::lemma_owned_controls(object.metadata(), resource);
}

/// An object that something else controls is not applied.
pub proof fn lemma_others_are_left_alone(
    target: Target,
    object: ObjectModel,
    resource: HawkbitModel,
    has_openshift: bool,
    progress: ProgressModel,
    password: Seq<char>,
)
    requires
        object.kind() == target.kind_of(),
        ownership::controlled_by_other(
            install::or_empty(object.metadata().owner_references),
            ownership::controller_reference(resource),
        ),
    ensures
        reconcile::applied(target, object, resource, has_openshift, progress, password) is Err,
{
    lemma_applied_succeeds(target, object, resource, has_openshift, progress, password);
}

/// Values that are in a secret stay there when another one is filled in.
proof fn lemma_initial_keeps(
    data: Option<Map<Seq<char>, Seq<u8>>>,
    key: Seq<char>,
    value: Seq<char>,
    kept: Seq<char>,
)
    requires
        install::or_nothing(data).contains_key(kept),
    ensures
        install::or_nothing(install::with_initial(data, key, value)).contains_key(kept),
        install::or_nothing(install::with_initial(data, key, value))[kept] == install::or_nothing(data)[kept],
{
}

/// Credentials of the administrator that are there are kept, as is everything else in the secret.
pub proof fn lemma_admin_data_kept(data: Option<Map<Seq<char>, Seq<u8>>>, password: Seq<char>, key: Seq<char>)
    requires
        install::or_nothing(data).contains_key(key),
    ensures
        install::or_nothing(resources::admin_data(data, password)).contains_key(key),
        install::or_nothing(resources::admin_data(data, password))[key] == install::or_nothing(data)[key],
{
    lemma_initial_keeps(data, "adminUsername"@, "admin"@, key);
    lemma_initial_keeps(
        install::with_initial(data, "adminUsername"@, "admin"@),
        "adminPassword"@,
        resources::PASSWORD_PREFIX@ + password,
        key,
    );
}

/// Credentials of the broker that are there are kept, as is everything else in the secret.
pub proof fn lemma_broker_data_kept(data: Option<Map<Seq<char>, Seq<u8>>>, key: Seq<char>)
    requires
        install::or_nothing(data).contains_key(key),
    ensures
        install::or_nothing(rabbit::broker_data(data)).contains_key(key),
        install::or_nothing(rabbit::broker_data(data))[key] == install::or_nothing(data)[key],
{
    let a = install::with_initial(data, "erlang.cookie"@, "1234"@);
    let b = install::with_initial(a, "default.username"@, "hawkbit"@);
    lemma_initial_keeps(data, "erlang.cookie"@, "1234"@, key);
    lemma_initial_keeps(a, "default.username"@, "hawkbit"@, key);
    lemma_initial_keeps(b, "default.password"@, "hawkbit"@, key);
}

/// Texts in the server's config map under other keys are kept.
pub proof fn lemma_config_kept(
    config: ConfigMapModel,
    resource: HawkbitModel,
    issuer_uri: Option<Seq<char>>,
    key: Seq<char>,
)
    requires
        resources::config_map(config, resource, issuer_uri) is Ok,
        key != resources::CONFIG_KEY@,
    ensures
        ({
            let after = install::or_nothing(resources::config_map(config, resource, issuer_uri)->Ok_0.data);
            let before = install::or_nothing(config.data);
            &&& after.contains_key(key) == before.contains_key(key)
            &&& before.contains_key(key) ==> after[key] == before[key]
        }),
{
}

/// Credentials of the administrator in the realm that are there are kept.
pub proof fn lemma_user_credentials_kept(user: KeycloakUserModel, resource: HawkbitModel, password: Seq<char>)
    requires
        keycloak::user(user, resource, password) is Ok,
        user.spec.user.credentials.len() > 0,
    ensures
        keycloak::user(user, resource, password)->Ok_0.spec.user.credentials == user.spec.user.credentials,
{
}

/// Other containers of the server's pod are kept.
pub proof fn lemma_other_containers_kept(
    pod: PodSpecModel,
    resource: HawkbitModel,
    has_openshift: bool,
    variant: DatabaseVariantModel,
    broker: Seq<EnvVarModel>,
    name: Seq<char>,
)
    requires
        name != "server"@,
    ensures
        ({
            let after = server::server_pod(pod, resource, has_openshift, variant, broker).containers;
            &&& entries::holds::<Container>(after, name) == entries::holds::<Container>(pod.containers, name)
            &&& entries::holds::<Container>(pod.containers, name) ==> entries::entry::<Container>(after, name)
                == entries::entry::<Container>(pod.containers, name)
        }),
{
    let fill = |c: ContainerModel| server::server_container(c, resource, has_openshift, variant, broker);
    entries::lemma_applied_other::<Container>(pod.containers, "server"@, fill, name);
}

/// Other containers of the broker's pod are kept.
pub proof fn lemma_other_broker_containers_kept(pod: PodSpecModel, resource: HawkbitModel, name: Seq<char>)
    requires
        name != "rabbit"@,
    ensures
        ({
            let after = rabbit::broker_pod(pod, resource).containers;
            &&& entries::holds::<Container>(after, name) == entries::holds::<Container>(pod.containers, name)
            &&& entries::holds::<Container>(pod.containers, name) ==> entries::entry::<Container>(after, name)
                == entries::entry::<Container>(pod.containers, name)
        }),
{
    let fill = |c: ContainerModel| rabbit::broker_container(c, resource);
    entries::lemma_applied_other::<Container>(pod.containers, "rabbit"@, fill, name);
}

/// What is not looked at in a deployment, its pods and the server's container is kept.
pub proof fn lemma_deployment_rest_kept(
    deployment: DeploymentModel,
    resource: HawkbitModel,
    has_openshift: bool,
    hash: Seq<char>,
)
    requires
        server::deployment(deployment, resource, has_openshift, hash) is Ok,
        deployment.spec is Some,
        deployment.spec->0.template.spec is Some,
        entries::holds::<Container>(deployment.spec->0.template.spec->0.containers, "server"@),
    ensures
        ({
            let before = deployment.spec->0;
            let after = server::deployment(deployment, resource, has_openshift, hash)->Ok_0.spec->0;
            &&& after.rest == before.rest
            &&& after.template.spec->0.rest == before.template.spec->0.rest
            &&& entries::entry::<Container>(after.template.spec->0.containers, "server"@).rest
                == entries::entry::<Container>(before.template.spec->0.containers, "server"@).rest
        }),
{
    let variant = resource.spec.database.variant()->0;
    let broker = server::broker_env(resource)->0;
    let fill = |c: ContainerModel| server::server_container(c, resource, has_openshift, variant, broker);
    entries::lemma_applied::<Container>(deployment.spec->0.template.spec->0.containers, "server"@, fill);
}

/// What is not looked at in a stateful set, its pods and the broker's container is kept.
pub proof fn lemma_stateful_set_rest_kept(set: StatefulSetModel, resource: HawkbitModel, hash: Seq<char>)
    requires
        rabbit::stateful_set(set, resource, hash) is Ok,
        set.spec is Some,
        set.spec->0.template.spec is Some,
        entries::holds::<Container>(set.spec->0.template.spec->0.containers, "rabbit"@),
    ensures
        ({
            let before = set.spec->0;
            let after = rabbit::stateful_set(set, resource, hash)->Ok_0.spec->0;
            &&& after.rest == before.rest
            &&& after.template.spec->0.rest == before.template.spec->0.rest
            &&& entries::entry::<Container>(after.template.spec->0.containers, "rabbit"@).rest
                == entries::entry::<Container>(before.template.spec->0.containers, "rabbit"@).rest
        }),
{
    let fill = |c: ContainerModel| rabbit::broker_container(c, resource);
    entries::lemma_applied::<Container>(set.spec->0.template.spec->0.containers, "rabbit"@, fill);
}

/// Other volumes of the server's pod are kept.
pub proof fn lemma_other_volumes_kept(
    volumes: Option<Seq<VolumeModel>>,
    resource: HawkbitModel,
    variant: DatabaseVariantModel,
    name: Seq<char>,
)
    requires
        name != "config"@,
        name != "storage"@,
        name != "embedded-db"@,
    ensures
        ({
            let before = install::or_empty(volumes);
            let after = install::or_empty(server::server_volumes(volumes, resource, variant));
            &&& entries::holds::<Volume>(after, name) == entries::holds::<Volume>(before, name)
            &&& entries::holds::<Volume>(before, name) ==> entries::entry::<Volume>(after, name)
                == entries::entry::<Volume>(before, name)
        }),
{
    let instance = resource.name();
    let data = server::data_claim_name(resource);
    let db = server::database_claim_name(resource);
    let config = |v: VolumeModel| install::from_config_map(v, instance, None);
    let storage = |v: VolumeModel| install::from_claim(v, data);
    let database = |v: VolumeModel| install::from_claim(v, db);
    let before = install::or_empty(volumes);
    let a = entries::applied::<Volume>(before, "config"@, config);
    let b = entries::applied::<Volume>(a, "storage"@, storage);
    entries::lemma_applied_other::<Volume>(before, "config"@, config, name);
    entries::lemma_applied_other::<Volume>(a, "storage"@, storage, name);
    entries::lemma_applied_other::<Volume>(b, "embedded-db"@, database, name);
    entries::lemma_found_after_drop::<Volume>(b, "embedded-db"@, name);
}

/// A secret without a password gets the new one behind a prefix of six characters: the password is what
/// comes from the seventh on.
pub proof fn lemma_admin_password(data: Option<Map<Seq<char>, Seq<u8>>>, password: Seq<char>)
    requires
        !install::or_nothing(data).contains_key("adminPassword"@),
        resources::is_password(password),
    ensures
        ({
            let after = install::or_nothing(resources::admin_data(data, password));
            &&& after.contains_key("adminPassword"@)
            &&& after["adminPassword"@] == encode_utf8(resources::PASSWORD_PREFIX@ + password)
            &&& after["adminPassword"@].skip(6) == encode_utf8(password)
        }),
{
    reveal_strlit("adminUsername");
    reveal_strlit("adminPassword");
    assert("adminUsername"@[5] == 'U' && "adminPassword"@[5] == 'P');
    reveal_strlit("{noop}");
    let whole = resources::PASSWORD_PREFIX@ + password;
    assert(vstd::utf8::is_ascii_chars(password));
    assert(vstd::utf8::is_ascii_chars(whole));
    vstd::utf8::is_ascii_chars_encode_utf8(password);
    vstd::utf8::is_ascii_chars_encode_utf8(whole);
    assert(encode_utf8(whole).skip(6) =~= encode_utf8(password));
}

} // verus!
