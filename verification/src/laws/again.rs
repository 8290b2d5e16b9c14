//! Reconciling what has been reconciled changes nothing.

use vstd::prelude::*;

use crate::controller::keycloak;
use crate::controller::rabbit;
use crate::controller::reconcile;
use crate::controller::reconcile::ProgressModel;
use crate::controller::resources;
use crate::controller::server;
use crate::controller::target::Target;
use crate::crd::{DatabaseVariantModel, HawkbitModel};
use crate::entries;
use crate::install;
use crate::laws::wiring;
use crate::objects::config::ConfigMapModel;
use crate::objects::keycloak::KeycloakUserModel;
use crate::objects::meta::ObjectMetaModel;
use crate::objects::object::ObjectModel;
use crate::objects::pod::{
    Container, ContainerModel, ContainerPort, ContainerPortModel, EnvVarModel, PodSpecModel, Volume, VolumeModel,
    VolumeMount, VolumeMountModel,
};
use crate::objects::storage::PersistentVolumeClaimModel;
use crate::objects::workload::{DeploymentModel, DeploymentSpecModel, StatefulSetModel, StatefulSetSpecModel};
use crate::outside;
use crate::ownership;

verus! {

/// A second mount of the server's volumes changes nothing.
proof fn lemma_server_mounts_again(mounts: Option<Seq<VolumeMountModel>>, variant: DatabaseVariantModel)
    ensures
        server::server_mounts(server::server_mounts(mounts, variant), variant) == server::server_mounts(
            mounts,
            variant,
        ),
{
    wiring::lemma_volume_names();
    let database = |m: VolumeMountModel| install::mount_set(m, "/embedded-db"@, false);
    let config = |m: VolumeMountModel| install::mount_set(m, "/opt/hawkbit/config"@, true);
    let storage = |m: VolumeMountModel| install::mount_set(m, "/etc/hawkbit/storage"@, false);
    let start = install::or_empty(mounts);
    let a = if variant is Embedded {
        entries::applied::<VolumeMount>(start, "embedded-db"@, database)
    } else {
        start
    };
    let b = entries::applied::<VolumeMount>(a, "config"@, config);
    let c = entries::applied::<VolumeMount>(b, "storage"@, storage);
    assert(server::server_mounts(mounts, variant) == Some(c));
    if variant is Embedded {
        entries::lemma_settles::<VolumeMount>(start, "embedded-db"@, database);
        entries::lemma_settled_other::<VolumeMount>(a, "embedded-db"@, database, "config"@, config);
        entries::lemma_settled_other::<VolumeMount>(b, "embedded-db"@, database, "storage"@, storage);
        entries::lemma_applied_again::<VolumeMount>(c, "embedded-db"@, database);
    }
    entries::lemma_settles::<VolumeMount>(a, "config"@, config);
    entries::lemma_settled_other::<VolumeMount>(b, "config"@, config, "storage"@, storage);
    entries::lemma_settles::<VolumeMount>(b, "storage"@, storage);
    entries::lemma_applied_again::<VolumeMount>(c, "config"@, config);
    entries::lemma_applied_again::<VolumeMount>(c, "storage"@, storage);
}

/// A second filling of the server's container changes nothing.
proof fn lemma_server_container_again(
    container: ContainerModel,
    resource: HawkbitModel,
    has_openshift: bool,
    variant: DatabaseVariantModel,
    broker: Seq<EnvVarModel>,
)
    ensures
        server::server_container(
            server::server_container(container, resource, has_openshift, variant, broker),
            resource,
            has_openshift,
            variant,
            broker,
        ) == server::server_container(container, resource, has_openshift, variant, broker),
{
    lemma_server_mounts_again(container.volume_mounts, variant);
    let http = |p: ContainerPortModel| install::port_set(p, 8080, "TCP"@);
    let ports = install::or_empty(container.ports);
    entries::lemma_settles::<ContainerPort>(ports, "http"@, http);
    entries::lemma_applied_again::<ContainerPort>(
        entries::applied::<ContainerPort>(ports, "http"@, http),
        "http"@,
        http,
    );
}

/// A second filling of the server's volumes changes nothing.
proof fn lemma_server_volumes_again(
    volumes: Option<Seq<VolumeModel>>,
    resource: HawkbitModel,
    variant: DatabaseVariantModel,
)
    ensures
        server::server_volumes(server::server_volumes(volumes, resource, variant), resource, variant)
            == server::server_volumes(volumes, resource, variant),
{
    wiring::lemma_volume_names();
    let name = resource.name();
    let data = server::data_claim_name(resource);
    let db = server::database_claim_name(resource);
    let config = |v: VolumeModel| install::from_config_map(v, name, None);
    let storage = |v: VolumeModel| install::from_claim(v, data);
    let database = |v: VolumeModel| install::from_claim(v, db);
    let start = install::or_empty(volumes);
    let a = entries::applied::<Volume>(start, "config"@, config);
    let b = entries::applied::<Volume>(a, "storage"@, storage);
    entries::lemma_settles::<Volume>(start, "config"@, config);
    entries::lemma_settled_other::<Volume>(a, "config"@, config, "storage"@, storage);
    entries::lemma_settles::<Volume>(a, "storage"@, storage);
    let c = if variant is Embedded {
        entries::applied::<Volume>(b, "embedded-db"@, database)
    } else {
        entries::dropped::<Volume>(b, "embedded-db"@)
    };
    assert(server::server_volumes(volumes, resource, variant) == Some(c));
    if variant is Embedded {
        entries::lemma_settled_other::<Volume>(b, "config"@, config, "embedded-db"@, database);
        entries::lemma_settled_other::<Volume>(b, "storage"@, storage, "embedded-db"@, database);
        entries::lemma_settles::<Volume>(b, "embedded-db"@, database);
        entries::lemma_applied_again::<Volume>(c, "embedded-db"@, database);
    } else {
        entries::lemma_found_after_drop::<Volume>(b, "embedded-db"@, "config"@);
        entries::lemma_found_after_drop::<Volume>(b, "embedded-db"@, "storage"@);
        entries::lemma_dropped::<Volume>(b, "embedded-db"@);
    }
    entries::lemma_applied_again::<Volume>(c, "config"@, config);
    entries::lemma_applied_again::<Volume>(c, "storage"@, storage);
}

/// A second filling of the server's pod changes nothing.
proof fn lemma_server_pod_again(
    pod: PodSpecModel,
    resource: HawkbitModel,
    has_openshift: bool,
    variant: DatabaseVariantModel,
    broker: Seq<EnvVarModel>,
)
    ensures
        server::server_pod(
            server::server_pod(pod, resource, has_openshift, variant, broker),
            resource,
            has_openshift,
            variant,
            broker,
        ) == server::server_pod(pod, resource, has_openshift, variant, broker),
{
    lemma_server_volumes_again(pod.volumes, resource, variant);
    let fill = |c: ContainerModel| server::server_container(c, resource, has_openshift, variant, broker);
    assert forall|c: ContainerModel| #[trigger] fill(fill(c)) == fill(c) by {
        lemma_server_container_again(c, resource, has_openshift, variant, broker);
    }
    entries::lemma_settles::<Container>(pod.containers, "server"@, fill);
    entries::lemma_applied_again::<Container>(
        entries::applied::<Container>(pod.containers, "server"@, fill),
        "server"@,
        fill,
    );
}

/// The server's deployment stays as it is when it is brought into shape again.
pub proof fn lemma_deployment_again(
    deployment: DeploymentModel,
    resource: HawkbitModel,
    has_openshift: bool,
    hash: Seq<char>,
)
    requires
        server::deployment(deployment, resource, has_openshift, hash) is Ok,
    ensures
        server::deployment(
            server::deployment(deployment, resource, has_openshift, hash)->Ok_0,
            resource,
            has_openshift,
            hash,
        ) == server::deployment(deployment, resource, has_openshift, hash),
{
    lemma_metadata_again(deployment.metadata, resource, server::server_labels(resource));
    let variant = resource.spec.database.variant()->0;
    let broker = server::broker_env(resource)->0;
    let after = server::deployment(deployment, resource, has_openshift, hash)->Ok_0;
    let spec = if deployment.spec is Some {
        deployment.spec->0
    } else {
        DeploymentSpecModel::blank()
    };
    let pod = if spec.template.spec is Some {
        spec.template.spec->0
    } else {
        PodSpecModel::blank()
    };
    lemma_server_pod_again(pod, resource, has_openshift, variant, broker);
}

/// Claiming metadata that has been claimed and labelled changes nothing but the labels.
proof fn lemma_metadata_again(
    meta: ObjectMetaModel,
    resource: HawkbitModel,
    labels: Map<Seq<char>, Seq<char>>,
)
    requires
        ownership::owned(meta, resource) is Ok,
    ensures
        ({
            let labelled = ObjectMetaModel { labels: Some(labels), ..ownership::owned(meta, resource)->Ok_0 };
            &&& ownership::owned(labelled, resource) is Ok
            &&& ObjectMetaModel { labels: Some(labels), ..ownership::owned(labelled, resource)->Ok_0 } == labelled
        }),
{
    ownership::lemma_owned_again(meta, resource);
}

/// A second filling of the broker's container changes nothing.
proof fn lemma_broker_container_again(container: ContainerModel, resource: HawkbitModel)
    ensures
        rabbit::broker_container(rabbit::broker_container(container, resource), resource)
            == rabbit::broker_container(container, resource),
{
    wiring::lemma_volume_names();
    let once = rabbit::broker_container(container, resource);
    let twice = rabbit::broker_container(once, resource);
    let config = |m: VolumeMountModel| install::mount_set(m, "/etc/rabbitmq"@, false);
    let storage = |m: VolumeMountModel| install::mount_set(m, "/var/lib/rabbitmq/mnesia"@, false);
    let a = install::or_empty(install::without::<VolumeMount>(container.volume_mounts, "config"@));
    let b = entries::applied::<VolumeMount>(a, "config-rw"@, config);
    let c = entries::applied::<VolumeMount>(b, "storage"@, storage);
    assert(once.volume_mounts == Some(c));
    if container.volume_mounts is Some {
        entries::lemma_dropped::<VolumeMount>(container.volume_mounts->0, "config"@);
    }
    entries::lemma_still_missing::<VolumeMount>(a, "config"@, "config-rw"@, config);
    entries::lemma_still_missing::<VolumeMount>(b, "config"@, "storage"@, storage);
    entries::lemma_drop_missing::<VolumeMount>(c, "config"@);
    entries::lemma_settles::<VolumeMount>(a, "config-rw"@, config);
    entries::lemma_settled_other::<VolumeMount>(b, "config-rw"@, config, "storage"@, storage);
    entries::lemma_settles::<VolumeMount>(b, "storage"@, storage);
    entries::lemma_applied_again::<VolumeMount>(c, "config-rw"@, config);
    entries::lemma_applied_again::<VolumeMount>(c, "storage"@, storage);
    assert(twice.volume_mounts == once.volume_mounts);
    lemma_broker_ports_again(container, resource);
}

/// A second setting of the broker's ports changes nothing.
proof fn lemma_broker_ports_again(container: ContainerModel, resource: HawkbitModel)
    ensures
        rabbit::broker_container(rabbit::broker_container(container, resource), resource).ports
            == rabbit::broker_container(container, resource).ports,
{
    reveal_strlit("amqp");
    reveal_strlit("management");
    reveal_strlit("epmd");
    reveal_strlit("cluster-links");
    assert("amqp"@[0] == 'a' && "management"@[0] == 'm' && "epmd"@[0] == 'e' && "cluster-links"@[0] == 'c');
    let amqp = |p: ContainerPortModel| install::port_set(p, 5672, "TCP"@);
    let management = |p: ContainerPortModel| install::port_set(p, 15672, "TCP"@);
    let epmd = |p: ContainerPortModel| install::port_set(p, 4369, "TCP"@);
    let links = |p: ContainerPortModel| install::port_set(p, 25672, "TCP"@);
    let start = install::or_empty(container.ports);
    let a = entries::applied::<ContainerPort>(start, "amqp"@, amqp);
    let b = entries::applied::<ContainerPort>(a, "management"@, management);
    let c = entries::applied::<ContainerPort>(b, "epmd"@, epmd);
    let d = entries::applied::<ContainerPort>(c, "cluster-links"@, links);
    assert(rabbit::broker_container(container, resource).ports == Some(d));
    entries::lemma_settles::<ContainerPort>(start, "amqp"@, amqp);
    entries::lemma_settled_other::<ContainerPort>(a, "amqp"@, amqp, "management"@, management);
    entries::lemma_settled_other::<ContainerPort>(b, "amqp"@, amqp, "epmd"@, epmd);
    entries::lemma_settled_other::<ContainerPort>(c, "amqp"@, amqp, "cluster-links"@, links);
    entries::lemma_settles::<ContainerPort>(a, "management"@, management);
    entries::lemma_settled_other::<ContainerPort>(b, "management"@, management, "epmd"@, epmd);
    entries::lemma_settled_other::<ContainerPort>(c, "management"@, management, "cluster-links"@, links);
    entries::lemma_settles::<ContainerPort>(b, "epmd"@, epmd);
    entries::lemma_settled_other::<ContainerPort>(c, "epmd"@, epmd, "cluster-links"@, links);
    entries::lemma_settles::<ContainerPort>(c, "cluster-links"@, links);
    entries::lemma_applied_again::<ContainerPort>(d, "amqp"@, amqp);
    entries::lemma_applied_again::<ContainerPort>(d, "management"@, management);
    entries::lemma_applied_again::<ContainerPort>(d, "epmd"@, epmd);
    entries::lemma_applied_again::<ContainerPort>(d, "cluster-links"@, links);
}

/// A second filling of the broker's pod changes nothing.
proof fn lemma_broker_pod_again(pod: PodSpecModel, resource: HawkbitModel)
    ensures
        rabbit::broker_pod(rabbit::broker_pod(pod, resource), resource) == rabbit::broker_pod(pod, resource),
{
    wiring::lemma_volume_names();
    let base = server::broker_name(resource);
    let config = |v: VolumeModel| install::from_config_map(v, base, Some(420));
    let writable = |v: VolumeModel| install::from_nothing(v);
    let start = install::or_empty(pod.volumes);
    let a = entries::applied::<Volume>(start, "config"@, config);
    let b = entries::applied::<Volume>(a, "config-rw"@, writable);
    entries::lemma_settles::<Volume>(start, "config"@, config);
    entries::lemma_settled_other::<Volume>(a, "config"@, config, "config-rw"@, writable);
    entries::lemma_settles::<Volume>(a, "config-rw"@, writable);
    entries::lemma_applied_again::<Volume>(b, "config"@, config);
    entries::lemma_applied_again::<Volume>(b, "config-rw"@, writable);
    let fill = |c: ContainerModel| rabbit::broker_container(c, resource);
    assert forall|c: ContainerModel| #[trigger] fill(fill(c)) == fill(c) by {
        lemma_broker_container_again(c, resource);
    }
    entries::lemma_settles::<Container>(pod.containers, "rabbit"@, fill);
    entries::lemma_applied_again::<Container>(
        entries::applied::<Container>(pod.containers, "rabbit"@, fill),
        "rabbit"@,
        fill,
    );
}

/// The broker's stateful set stays as it is when it is brought into shape again.
pub proof fn lemma_stateful_set_again(set: StatefulSetModel, resource: HawkbitModel, hash: Seq<char>)
    requires
        rabbit::stateful_set(set, resource, hash) is Ok,
    ensures
        rabbit::stateful_set(rabbit::stateful_set(set, resource, hash)->Ok_0, resource, hash)
            == rabbit::stateful_set(set, resource, hash),
{
    lemma_metadata_again(set.metadata, resource, rabbit::broker_labels(resource));
    let spec = if set.spec is Some {
        set.spec->0
    } else {
        StatefulSetSpecModel::blank()
    };
    let pod = if spec.template.spec is Some {
        spec.template.spec->0
    } else {
        PodSpecModel::blank()
    };
    lemma_broker_pod_again(pod, resource);
    let meta = rabbit::broker_pod_meta(spec.template.metadata, resource, hash);
    assert(meta.annotations->0.insert("config-hash"@, hash) =~= meta.annotations->0);
}

/// What has a value under a key keeps it, and gets no other.
proof fn lemma_initial_again(data: Option<Map<Seq<char>, Seq<u8>>>, key: Seq<char>, value: Seq<char>)
    ensures
        install::with_initial(data, key, value) is Some,
        install::with_initial(data, key, value)->0.contains_key(key),
        forall|k: Seq<char>| install::or_nothing(data).contains_key(k) ==> #[trigger] install::with_initial(
            data,
            key,
            value,
        )->0.contains_key(k),
        data is Some && data->0.contains_key(key) ==> install::with_initial(data, key, value) == data,
{
}

/// Credentials that have been filled in stay as they are, whatever password is offered.
pub proof fn lemma_admin_data_again(
    data: Option<Map<Seq<char>, Seq<u8>>>,
    password: Seq<char>,
    other: Seq<char>,
)
    ensures
        resources::admin_data(resources::admin_data(data, password), other) == resources::admin_data(data, password),
{
    let user = install::with_initial(data, "adminUsername"@, "admin"@);
    let value = resources::PASSWORD_PREFIX@ + password;
    lemma_initial_again(data, "adminUsername"@, "admin"@);
    lemma_initial_again(user, "adminPassword"@, value);
    let after = resources::admin_data(data, password);
    lemma_initial_again(after, "adminUsername"@, "admin"@);
    lemma_initial_again(after, "adminPassword"@, resources::PASSWORD_PREFIX@ + other);
}

/// The broker's credentials stay as they are once they have been filled in.
pub proof fn lemma_broker_data_again(data: Option<Map<Seq<char>, Seq<u8>>>)
    ensures
        rabbit::broker_data(rabbit::broker_data(data)) == rabbit::broker_data(data),
{
    let a = install::with_initial(data, "erlang.cookie"@, "1234"@);
    let b = install::with_initial(a, "default.username"@, "hawkbit"@);
    lemma_initial_again(data, "erlang.cookie"@, "1234"@);
    lemma_initial_again(a, "default.username"@, "hawkbit"@);
    lemma_initial_again(b, "default.password"@, "hawkbit"@);
    let after = rabbit::broker_data(data);
    lemma_initial_again(after, "erlang.cookie"@, "1234"@);
    lemma_initial_again(after, "default.username"@, "hawkbit"@);
    lemma_initial_again(after, "default.password"@, "hawkbit"@);
}

/// A claim stays as it is when it is brought into shape again.
pub proof fn lemma_claim_again(claim: PersistentVolumeClaimModel, resource: HawkbitModel)
    requires
        resources::claim(claim, resource) is Ok,
    ensures
        resources::claim(resources::claim(claim, resource)->Ok_0, resource) == resources::claim(claim, resource),
{
    ownership::lemma_owned_again(claim.metadata, resource);
    let after = resources::claim(claim, resource)->Ok_0;
    let amounts = after.spec->0.resources->0;
    assert(amounts.requests->0.insert("storage"@, "1Gi"@) =~= amounts.requests->0);
    assert(amounts.limits->0.remove("storage"@) =~= amounts.limits->0);
}

/// The configuration of the server stays as it is when it is written again.
pub proof fn lemma_config_map_again(
    config: ConfigMapModel,
    resource: HawkbitModel,
    issuer_uri: Option<Seq<char>>,
)
    requires
        resources::config_map(config, resource, issuer_uri) is Ok,
    ensures
        resources::config_map(resources::config_map(config, resource, issuer_uri)->Ok_0, resource, issuer_uri)
            == resources::config_map(config, resource, issuer_uri),
{
    ownership::lemma_owned_again(config.metadata, resource);
    let after = resources::config_map(config, resource, issuer_uri)->Ok_0;
    assert(after.data->0.insert(resources::CONFIG_KEY@, resources::config_text(resource, issuer_uri))
        =~= after.data->0);
}

/// The configuration of the broker stays as it is when it is written again.
pub proof fn lemma_broker_config_again(config: ConfigMapModel, resource: HawkbitModel)
    requires
        rabbit::config_map(config, resource) is Ok,
    ensures
        rabbit::config_map(rabbit::config_map(config, resource)->Ok_0, resource) == rabbit::config_map(
            config,
            resource,
        ),
{
    lemma_metadata_again(config.metadata, resource, rabbit::broker_labels(resource));
    reveal_strlit("rabbitmq.conf");
    reveal_strlit("enabled_plugins");
    assert("rabbitmq.conf"@.len() == 13 && "enabled_plugins"@.len() == 15);
    let after = rabbit::config_map(config, resource)->Ok_0;
    assert(after.data->0.insert("rabbitmq.conf"@, rabbit::BROKER_CONFIG@) =~= after.data->0);
    assert(after.data->0.insert("enabled_plugins"@, rabbit::BROKER_PLUGINS@) =~= after.data->0);
}

/// The administrator in the realm stays as it is, whatever password is offered.
pub proof fn lemma_user_again(
    user: KeycloakUserModel,
    resource: HawkbitModel,
    password: Seq<char>,
    other: Seq<char>,
)
    requires
        keycloak::user(user, resource, password) is Ok,
    ensures
        keycloak::user(keycloak::user(user, resource, password)->Ok_0, resource, other) == keycloak::user(
            user,
            resource,
            password,
        ),
{
    ownership::lemma_owned_again(user.metadata, resource);
    let after = keycloak::user(user, resource, password)->Ok_0;
    assert(after.spec.user.client_roles.insert(keycloak::realm_name(resource), keycloak::roles())
        =~= after.spec.user.client_roles);
}

/// An object of the broker stays as it is when it is applied again.
proof fn lemma_broker_applied_again(
    target: Target,
    object: ObjectModel,
    resource: HawkbitModel,
    progress: ProgressModel,
)
    requires
        reconcile::broker_applied(target, object, resource, progress) is Ok,
    ensures
        reconcile::broker_applied(
            target,
            reconcile::broker_applied(target, object, resource, progress)->Ok_0.0,
            resource,
            progress,
        ) == reconcile::broker_applied(target, object, resource, progress),
{
    reveal(reconcile::broker_applied);
    let labels = rabbit::broker_labels(resource);
    match (target, object) {
        (Target::BrokerAccount, ObjectModel::ServiceAccount(o)) => {
            lemma_metadata_again(o.metadata, resource, labels);
        },
        (Target::BrokerRole, ObjectModel::Role(o)) => {
            lemma_metadata_again(o.metadata, resource, labels);
        },
        (Target::BrokerRoleBinding, ObjectModel::RoleBinding(o)) => {
            lemma_metadata_again(o.metadata, resource, labels);
        },
        (Target::BrokerSecret, ObjectModel::Secret(o)) => {
            lemma_metadata_again(o.metadata, resource, labels);
            lemma_broker_data_again(o.data);
        },
        (Target::BrokerConfig, ObjectModel::ConfigMap(o)) => {
            lemma_broker_config_again(o, resource);
        },
        (Target::BrokerSet, ObjectModel::StatefulSet(o)) => {
            lemma_stateful_set_again(o, resource, outside::digest(progress.broker));
        },
        (Target::BrokerHeadlessService, ObjectModel::Service(o)) => {
            lemma_metadata_again(o.metadata, resource, labels);
        },
        (Target::BrokerService, ObjectModel::Service(o)) => {
            lemma_metadata_again(o.metadata, resource, labels);
        },
        _ => {},
    }
}

/// An object for signing on stays as it is when it is applied again, whatever password is offered.
proof fn lemma_sign_on_applied_again(
    target: Target,
    object: ObjectModel,
    resource: HawkbitModel,
    has_openshift: bool,
    progress: ProgressModel,
    password: Seq<char>,
    other: Seq<char>,
)
    requires
        reconcile::sign_on_applied(target, object, resource, has_openshift, progress, password) is Ok,
    ensures
        reconcile::sign_on_applied(
            target,
            reconcile::sign_on_applied(target, object, resource, has_openshift, progress, password)->Ok_0.0,
            resource,
            has_openshift,
            progress,
            other,
        ) == reconcile::sign_on_applied(target, object, resource, has_openshift, progress, password),
{
    reveal(reconcile::sign_on_applied);
    match (target, object) {
        (Target::Keycloak, ObjectModel::Keycloak(o)) => {
            lemma_metadata_again(o.metadata, resource, keycloak::instance_labels(resource));
        },
        (Target::KeycloakRealm, ObjectModel::KeycloakRealm(o)) => {
            lemma_metadata_again(o.metadata, resource, keycloak::realm_labels(resource));
        },
        (Target::KeycloakClient, ObjectModel::KeycloakClient(o)) => {
            lemma_metadata_again(o.metadata, resource, keycloak::client_labels(resource));
        },
        (Target::KeycloakUser, ObjectModel::KeycloakUser(o)) => {
            lemma_user_again(o, resource, password, other);
        },
        _ => {},
    }
}

/// An object of the server stays as it is when it is applied again, whatever password is offered.
proof fn lemma_server_applied_again(
    target: Target,
    object: ObjectModel,
    resource: HawkbitModel,
    has_openshift: bool,
    progress: ProgressModel,
    password: Seq<char>,
    other: Seq<char>,
)
    requires
        reconcile::server_applied(target, object, resource, has_openshift, progress, password) is Ok,
    ensures
        reconcile::server_applied(
            target,
            reconcile::server_applied(target, object, resource, has_openshift, progress, password)->Ok_0.0,
            resource,
            has_openshift,
            progress,
            other,
        ) == reconcile::server_applied(target, object, resource, has_openshift, progress, password),
{
    reveal(reconcile::server_applied);
    match (target, object) {
        (Target::Route, ObjectModel::Route(o)) => {
            lemma_metadata_again(o.metadata, resource, server::server_labels(resource));
        },
        (Target::Account, ObjectModel::ServiceAccount(o)) => {
            ownership::lemma_owned_again(o.metadata, resource);
        },
        (Target::Config, ObjectModel::ConfigMap(o)) => {
            lemma_config_map_again(o, resource, progress.issuer_uri);
        },
        (Target::AdminSecret, ObjectModel::Secret(o)) => {
            ownership::lemma_owned_again(o.metadata, resource);
            lemma_admin_data_again(o.data, password, other);
        },
        (Target::DataClaim, ObjectModel::PersistentVolumeClaim(o)) => {
            lemma_claim_again(o, resource);
        },
        (Target::DatabaseClaim, ObjectModel::PersistentVolumeClaim(o)) => {
            lemma_claim_again(o, resource);
        },
        (Target::Deployment, ObjectModel::Deployment(o)) => {
            lemma_deployment_again(o, resource, has_openshift, outside::digest(progress.server));
        },
        (Target::Service, ObjectModel::Service(o)) => {
            lemma_metadata_again(o.metadata, resource, server::server_labels(resource));
        },
        _ => {},
    }
}

/// An object that has been applied stays as it is when it is applied again, whatever password is
/// offered, and the same is learned from it.
pub proof fn lemma_applied_again(
    target: Target,
    object: ObjectModel,
    resource: HawkbitModel,
    has_openshift: bool,
    progress: ProgressModel,
    password: Seq<char>,
    other: Seq<char>,
)
    requires
        reconcile::applied(target, object, resource, has_openshift, progress, password) is Ok,
    ensures
        reconcile::applied(
            target,
            reconcile::applied(target, object, resource, has_openshift, progress, password)->Ok_0.0,
            resource,
            has_openshift,
            progress,
            other,
        ) == reconcile::applied(target, object, resource, has_openshift, progress, password),
{
    match target {
        Target::BrokerAccount
        | Target::BrokerRole
        | Target::BrokerRoleBinding
        | Target::BrokerSecret
        | Target::BrokerConfig
        | Target::BrokerSet
        | Target::BrokerHeadlessService
        | Target::BrokerService => {
            lemma_broker_applied_again(target, object, resource, progress);
        },
        Target::Keycloak | Target::KeycloakRealm | Target::KeycloakClient | Target::KeycloakUser => {
            lemma_sign_on_applied_again(target, object, resource, has_openshift, progress, password, other);
        },
        _ => {
            lemma_server_applied_again(target, object, resource, has_openshift, progress, password, other);
        },
    }
}

} // verus!
