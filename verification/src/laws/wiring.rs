//! The objects of an instance refer to each other by the right names.

use vstd::prelude::*;

use crate::controller;
use crate::controller::keycloak;
use crate::controller::rabbit;
use crate::controller::resources;
use crate::controller::server;
use crate::controller::target::Target;
use crate::crd::{DatabaseVariantModel, HawkbitModel};
use crate::entries;
use crate::entries::Entry;
use crate::install;
use crate::objects::network::{RouteModel, ServiceModel, ServicePortModel};
use crate::objects::pod::{
    Container, ContainerModel, ContainerPort, ContainerPortModel, EnvVarModel, EnvVarSourceModel, PodSpecModel, Volume,
    VolumeModel, VolumeMount, VolumeMountModel,
};
use crate::objects::workload::{DeploymentModel, StatefulSetModel};

verus! {

/// A selector picks what carries all of its labels.
pub open spec fn selects(selector: Map<Seq<char>, Seq<char>>, labels: Map<Seq<char>, Seq<char>>) -> bool {
    forall|k: Seq<char>| #[trigger] selector.contains_key(k) ==> labels.contains_key(k) && labels[k] == selector[k]
}

/// The hash is no part of what the server is selected by.
proof fn lemma_hash_is_no_label(resource: HawkbitModel)
    ensures
        !server::server_labels(resource).contains_key("config-hash"@),
{
    controller::lemma_labels(resource, "server"@, "server"@);
    reveal_strlit("config-hash");
    reveal_strlit("app.kubernetes.io/name");
    reveal_strlit("app.kubernetes.io/instance");
    reveal_strlit("app.kubernetes.io/component");
    assert("config-hash"@.len() == 11);
    assert(controller::KUBERNETES_LABEL_NAME@.len() == 22);
    assert(controller::KUBERNETES_LABEL_INSTANCE@.len() == 26);
    assert(controller::KUBERNETES_LABEL_COMPONENT@.len() == 27);
}

/// The server's deployment and its service select the server's pods, whose labels carry the hash over
/// the configuration, and there is always one such pod.
pub proof fn lemma_server_is_selected(
    deployment: DeploymentModel,
    service: ServiceModel,
    resource: HawkbitModel,
    has_openshift: bool,
    hash: Seq<char>,
)
    requires
        server::deployment(deployment, resource, has_openshift, hash) is Ok,
        resources::service(service, resource) is Ok,
    ensures
        ({
            let spec = server::deployment(deployment, resource, has_openshift, hash)->Ok_0.spec->0;
            let pods = spec.template.metadata->0.labels->0;
            &&& selects(spec.selector.match_labels->0, pods)
            &&& selects(resources::service(service, resource)->Ok_0.spec->0.selector->0, pods)
            &&& pods.contains_key("config-hash"@)
            &&& pods["config-hash"@] == hash
            &&& spec.replicas == Some(1i32)
        }),
{
    lemma_hash_is_no_label(resource);
}

/// The broker's stateful set and its services select the broker's pods, whose annotations carry the hash
/// over the configuration.
pub proof fn lemma_broker_is_selected(
    set: StatefulSetModel,
    headless: ServiceModel,
    service: ServiceModel,
    resource: HawkbitModel,
    hash: Seq<char>,
)
    requires
        rabbit::stateful_set(set, resource, hash) is Ok,
        rabbit::headless_service(headless, resource) is Ok,
        rabbit::service(service, resource) is Ok,
    ensures
        ({
            let spec = rabbit::stateful_set(set, resource, hash)->Ok_0.spec->0;
            let pods = spec.template.metadata->0;
            &&& selects(spec.selector.match_labels->0, pods.labels->0)
            &&& selects(rabbit::headless_service(headless, resource)->Ok_0.spec->0.selector->0, pods.labels->0)
            &&& selects(rabbit::service(service, resource)->Ok_0.spec->0.selector->0, pods.labels->0)
            &&& spec.service_name == Target::BrokerHeadlessService.name_of(resource)
            &&& pods.annotations->0["config-hash"@] == hash
        }),
{
    lemma_names(resource);
}

/// What one instance's broker and server are selected by does not pick the other's pods.
pub proof fn lemma_broker_and_server_are_apart(resource: HawkbitModel, hash: Seq<char>)
    ensures
        !selects(server::server_labels(resource), rabbit::broker_labels(resource)),
        !selects(rabbit::broker_labels(resource), server::server_labels(resource).insert("config-hash"@, hash)),
{
    controller::lemma_labels(resource, "server"@, "server"@);
    controller::lemma_labels(resource, "rabbit"@, "broker"@);
    lemma_hash_is_no_label(resource);
    reveal_strlit("server");
    reveal_strlit("broker");
    assert("server"@[0] == 's' && "broker"@[0] == 'b');
    assert(server::server_labels(resource).contains_key(controller::KUBERNETES_LABEL_COMPONENT@));
    assert(rabbit::broker_labels(resource).contains_key(controller::KUBERNETES_LABEL_COMPONENT@));
    assert(server::server_labels(resource).insert("config-hash"@, hash)[controller::KUBERNETES_LABEL_COMPONENT@]
        == "server"@);
}

/// Objects are referred to by the names that they have.
pub proof fn lemma_names(resource: HawkbitModel)
    ensures
        Target::Route.name_of(resource) == resource.name(),
        Target::Keycloak.name_of(resource) == resource.name(),
        Target::Account.name_of(resource) == resource.name(),
        Target::Config.name_of(resource) == resource.name(),
        Target::Deployment.name_of(resource) == resource.name(),
        Target::Service.name_of(resource) == resource.name(),
        Target::AdminSecret.name_of(resource) == server::admin_secret_name(resource),
        Target::DataClaim.name_of(resource) == server::data_claim_name(resource),
        Target::DatabaseClaim.name_of(resource) == server::database_claim_name(resource),
        Target::KeycloakRealm.name_of(resource) == keycloak::realm_name(resource),
        Target::KeycloakClient.name_of(resource) == keycloak::realm_name(resource),
        Target::BrokerAccount.name_of(resource) == server::broker_name(resource),
        Target::BrokerRole.name_of(resource) == server::broker_name(resource),
        Target::BrokerRoleBinding.name_of(resource) == server::broker_name(resource),
        Target::BrokerSecret.name_of(resource) == server::broker_name(resource),
        Target::BrokerConfig.name_of(resource) == server::broker_name(resource),
        Target::BrokerSet.name_of(resource) == server::broker_name(resource),
        Target::BrokerService.name_of(resource) == server::broker_name(resource),
        Target::BrokerHeadlessService.name_of(resource) == rabbit::headless_name(resource),
{
    reveal_strlit("");
    reveal_strlit("-rabbit");
    reveal_strlit("-headless");
    reveal_strlit("-rabbit-headless");
    assert(resource.name() + ""@ =~= resource.name());
    assert("-rabbit"@ + "-headless"@ =~= "-rabbit-headless"@);
    assert(resource.name() + "-rabbit-headless"@ =~= resource.name() + "-rabbit"@ + "-headless"@);
}

/// No two objects of an instance that are of the same kind have the same name.
pub proof fn lemma_no_two_objects_are_the_same(resource: HawkbitModel, a: Target, b: Target)
    requires
        a != b,
        a.kind_of() == b.kind_of(),
    ensures
        a.name_of(resource) != b.name_of(resource),
{
    reveal_strlit("");
    reveal_strlit("-rabbit");
    reveal_strlit("-rabbit-headless");
    reveal_strlit("-hawkbit");
    reveal_strlit("-admin");
    reveal_strlit("-data");
    reveal_strlit("-embedded-db");
    assert(a.suffix() != b.suffix()) by {
        assert(""@.len() == 0 && "-rabbit"@.len() == 7 && "-rabbit-headless"@.len() == 16 && "-hawkbit"@.len() == 8
            && "-admin"@.len() == 6 && "-data"@.len() == 5 && "-embedded-db"@.len() == 12);
    }
    let n = resource.name().len() as int;
    assert(a.name_of(resource).skip(n) =~= a.suffix());
    assert(b.name_of(resource).skip(n) =~= b.suffix());
}

/// A port of a service leads to a port of a container.
pub open spec fn leads_to(port: ServicePortModel, container: ContainerModel) -> bool {
    &&& port.target_port is Some
    &&& container.ports is Some
    &&& entries::holds::<ContainerPort>(container.ports->0, port.target_port->0)
    &&& entries::entry::<ContainerPort>(container.ports->0, port.target_port->0).container_port == port.port
    &&& entries::entry::<ContainerPort>(container.ports->0, port.target_port->0).protocol == port.protocol
}

/// The server's service leads to the server, and the route to the service.
pub proof fn lemma_server_is_reached(
    route: RouteModel,
    service: ServiceModel,
    container: ContainerModel,
    resource: HawkbitModel,
    has_openshift: bool,
    variant: DatabaseVariantModel,
    broker: Seq<EnvVarModel>,
)
    requires
        resources::route(route, resource) is Ok,
        resources::service(service, resource) is Ok,
    ensures
        ({
            let to = resources::route(route, resource)->Ok_0.spec;
            let ports = resources::service(service, resource)->Ok_0.spec->0.ports->0;
            let server = server::server_container(container, resource, has_openshift, variant, broker);
            &&& ports.len() == 1
            &&& leads_to(ports[0], server)
            &&& to.to.kind == "Service"@
            &&& to.to.name == Target::Service.name_of(resource)
            &&& Some(to.port->0.target_port) == ports[0].name
        }),
{
    lemma_names(resource);
    let http = |p: ContainerPortModel| install::port_set(p, 8080, "TCP"@);
    entries::lemma_applied::<ContainerPort>(install::or_empty(container.ports), "http"@, http);
}

/// Every port of the broker's services leads to the broker.
pub proof fn lemma_broker_is_reached(container: ContainerModel, resource: HawkbitModel)
    ensures
        ({
            let broker = rabbit::broker_container(container, resource);
            &&& forall|i: int| 0 <= i < rabbit::headless_ports().len() ==> leads_to(
                #[trigger] rabbit::headless_ports()[i],
                broker,
            )
            &&& forall|i: int| 0 <= i < rabbit::broker_ports().len() ==> leads_to(
                #[trigger] rabbit::broker_ports()[i],
                broker,
            )
        }),
{
    reveal_strlit("amqp");
    reveal_strlit("management");
    reveal_strlit("epmd");
    reveal_strlit("cluster-links");
    assert("amqp"@[0] == 'a' && "management"@[0] == 'm' && "epmd"@[0] == 'e' && "cluster-links"@[0] == 'c');
    let amqp = |p: ContainerPortModel| install::port_set(p, 5672, "TCP"@);
    let management = |p: ContainerPortModel| install::port_set(p, 15672, "TCP"@);
    let epmd = |p: ContainerPortModel| install::port_set(p, 4369, "TCP"@);
    let links = |p: ContainerPortModel| install::port_set(p, 25672, "TCP"@);
    let start = install::or_empty(container.ports);
    let a = entries::applied::<ContainerPort>(start, "amqp"@, amqp);
    let b = entries::applied::<ContainerPort>(a, "management"@, management);
    let c = entries::applied::<ContainerPort>(b, "epmd"@, epmd);
    let d = entries::applied::<ContainerPort>(c, "cluster-links"@, links);
    assert(rabbit::broker_container(container, resource).ports == Some(d));
    entries::lemma_applied::<ContainerPort>(start, "amqp"@, amqp);
    entries::lemma_applied_other::<ContainerPort>(a, "management"@, management, "amqp"@);
    entries::lemma_applied_other::<ContainerPort>(b, "epmd"@, epmd, "amqp"@);
    entries::lemma_applied_other::<ContainerPort>(c, "cluster-links"@, links, "amqp"@);
    entries::lemma_applied::<ContainerPort>(a, "management"@, management);
    entries::lemma_applied_other::<ContainerPort>(b, "epmd"@, epmd, "management"@);
    entries::lemma_applied_other::<ContainerPort>(c, "cluster-links"@, links, "management"@);
    entries::lemma_applied::<ContainerPort>(b, "epmd"@, epmd);
    entries::lemma_applied_other::<ContainerPort>(c, "cluster-links"@, links, "epmd"@);
    entries::lemma_applied::<ContainerPort>(c, "cluster-links"@, links);
}

/// All names have one of two characters in the eighth place.
spec fn marked(env: Seq<EnvVarModel>, a: char, b: char) -> bool {
    forall|i: int|
        0 <= i < env.len() ==> (#[trigger] env[i]).name.len() > 7 && (env[i].name[7] == a || env[i].name[7] == b)
}

/// Lists that are told apart by the eighth character can be joined.
proof fn lemma_distinct_joined(x: Seq<EnvVarModel>, y: Seq<EnvVarModel>, a: char, b: char)
    requires
        install::distinct(x),
        install::distinct(y),
        marked(y, a, b),
        forall|i: int| 0 <= i < x.len() ==> (#[trigger] x[i]).name.len() > 7 && x[i].name[7] != a && x[i].name[7] != b,
    ensures
        install::distinct(x + y),
{
    let z = x + y;
    assert forall|i: int, j: int| 0 <= i < j < z.len() implies (#[trigger] z[i]).name != (#[trigger] z[j]).name by {
        if i < x.len() {
            assert(z[i] == x[i]);
        } else {
            assert(z[i] == y[i - x.len()]);
        }
        if j < x.len() {
            assert(z[j] == x[j]);
        } else {
            assert(z[j] == y[j - x.len()]);
        }
    }
}

proof fn lemma_database_env(variant: DatabaseVariantModel)
    ensures
        install::distinct(server::database_env(variant)),
        marked(server::database_env(variant), 'J', 'D'),
{
    reveal_strlit("SPRING_JPA_DATABASE");
    reveal_strlit("SPRING_DATASOURCE_DRIVERCLASSNAME");
    reveal_strlit("SPRING_DATASOURCE_URL");
    reveal_strlit("SPRING_DATASOURCE_USERNAME");
    reveal_strlit("SPRING_DATASOURCE_PASSWORD");
    assert("SPRING_JPA_DATABASE"@.len() == 19
        && "SPRING_JPA_DATABASE"@[7] == 'J'
        && "SPRING_JPA_DATABASE"@[18] == 'E'
        && "SPRING_DATASOURCE_DRIVERCLASSNAME"@.len() == 33
        && "SPRING_DATASOURCE_DRIVERCLASSNAME"@[7] == 'D'
        && "SPRING_DATASOURCE_DRIVERCLASSNAME"@[18] == 'D'
        && "SPRING_DATASOURCE_URL"@.len() == 21
        && "SPRING_DATASOURCE_URL"@[7] == 'D'
        && "SPRING_DATASOURCE_URL"@[18] == 'U'
        && "SPRING_DATASOURCE_USERNAME"@.len() == 26
        && "SPRING_DATASOURCE_USERNAME"@[7] == 'D'
        && "SPRING_DATASOURCE_USERNAME"@[18] == 'U'
        && "SPRING_DATASOURCE_PASSWORD"@.len() == 26
        && "SPRING_DATASOURCE_PASSWORD"@[7] == 'D'
        && "SPRING_DATASOURCE_PASSWORD"@[18] == 'P');
}

proof fn lemma_sign_on_env(resource: HawkbitModel)
    ensures
        install::distinct(server::sign_on_env(resource)),
        marked(server::sign_on_env(resource), 'S', 'S'),
{
    reveal_strlit("SPRING_SECURITY_OAUTH2_CLIENT_REGISTRATION_HAWKBIT_CLIENTID");
    reveal_strlit("SPRING_SECURITY_OAUTH2_CLIENT_REGISTRATION_HAWKBIT_CLIENTSECRET");
    reveal_strlit("SPRING_SECURITY_USER_NAME");
    reveal_strlit("SPRING_SECURITY_USER_PASSWORD");
    assert("SPRING_SECURITY_OAUTH2_CLIENT_REGISTRATION_HAWKBIT_CLIENTID"@.len() == 59
        && "SPRING_SECURITY_OAUTH2_CLIENT_REGISTRATION_HAWKBIT_CLIENTID"@[7] == 'S'
        && "SPRING_SECURITY_OAUTH2_CLIENT_REGISTRATION_HAWKBIT_CLIENTSECRET"@.len() == 63
        && "SPRING_SECURITY_OAUTH2_CLIENT_REGISTRATION_HAWKBIT_CLIENTSECRET"@[7] == 'S'
        && "SPRING_SECURITY_USER_NAME"@.len() == 25
        && "SPRING_SECURITY_USER_NAME"@[7] == 'S'
        && "SPRING_SECURITY_USER_PASSWORD"@.len() == 29
        && "SPRING_SECURITY_USER_PASSWORD"@[7] == 'S');
}

proof fn lemma_broker_env(resource: HawkbitModel)
    requires
        server::broker_env(resource) is Some,
    ensures
        install::distinct(server::broker_env(resource)->0),
        marked(server::broker_env(resource)->0, 'R', 'R'),
{
    reveal_strlit("SPRING_RABBITMQ_HOST");
    reveal_strlit("SPRING_RABBITMQ_PORT");
    reveal_strlit("SPRING_RABBITMQ_USERNAME");
    reveal_strlit("SPRING_RABBITMQ_PASSWORD");
    assert("SPRING_RABBITMQ_HOST"@.len() == 20
        && "SPRING_RABBITMQ_HOST"@[7] == 'R'
        && "SPRING_RABBITMQ_HOST"@[16] == 'H'
        && "SPRING_RABBITMQ_PORT"@.len() == 20
        && "SPRING_RABBITMQ_PORT"@[7] == 'R'
        && "SPRING_RABBITMQ_PORT"@[16] == 'P'
        && "SPRING_RABBITMQ_USERNAME"@.len() == 24
        && "SPRING_RABBITMQ_USERNAME"@[7] == 'R'
        && "SPRING_RABBITMQ_USERNAME"@[16] == 'U'
        && "SPRING_RABBITMQ_PASSWORD"@.len() == 24
        && "SPRING_RABBITMQ_PASSWORD"@[7] == 'R'
        && "SPRING_RABBITMQ_PASSWORD"@[16] == 'P');
}

proof fn lemma_artifact_env(has_openshift: bool)
    ensures
        install::distinct(server::artifact_env(has_openshift)),
        marked(server::artifact_env(has_openshift), 'i', '.'),
{
    reveal_strlit("org.eclipse.hawkbit.repository.file.path");
    reveal_strlit("hawkbit.artifact.url.protocols.download-http.port");
    reveal_strlit("hawkbit.artifact.url.protocols.download-http.protocol");
    assert("org.eclipse.hawkbit.repository.file.path"@.len() == 40
        && "org.eclipse.hawkbit.repository.file.path"@[7] == 'i'
        && "hawkbit.artifact.url.protocols.download-http.port"@.len() == 49
        && "hawkbit.artifact.url.protocols.download-http.port"@[7] == '.'
        && "hawkbit.artifact.url.protocols.download-http.protocol"@.len() == 53
        && "hawkbit.artifact.url.protocols.download-http.protocol"@[7] == '.');
}

/// The server's environment sets no variable twice.
pub proof fn lemma_server_env_is_distinct(
    resource: HawkbitModel,
    has_openshift: bool,
    variant: DatabaseVariantModel,
)
    requires
        server::broker_env(resource) is Some,
    ensures
        install::distinct(server::server_env(resource, has_openshift, variant, server::broker_env(resource)->0)),
{
    lemma_database_env(variant);
    lemma_sign_on_env(resource);
    lemma_broker_env(resource);
    lemma_artifact_env(has_openshift);
    let a = server::database_env(variant);
    let b = a + server::sign_on_env(resource);
    let c = b + server::broker_env(resource)->0;
    lemma_distinct_joined(a, server::sign_on_env(resource), 'S', 'S');
    lemma_distinct_joined(b, server::broker_env(resource)->0, 'R', 'R');
    lemma_distinct_joined(c, server::artifact_env(has_openshift), 'i', '.');
}

/// The broker's environments set no variable twice.
pub proof fn lemma_broker_env_is_distinct(resource: HawkbitModel)
    ensures
        install::distinct(rabbit::broker_env(resource)),
        install::distinct(rabbit::init_env(resource)),
{
    reveal_strlit("RABBITMQ_ERLANG_COOKIE");
    reveal_strlit("MY_POD_IP");
    reveal_strlit("MY_POD_NAME");
    reveal_strlit("MY_POD_NAMESPACE");
    reveal_strlit("RABBITMQ_FORCE_BOOT");
    reveal_strlit("K8S_SERVICE_NAME");
    reveal_strlit("K8S_HOSTNAME_SUFFIX");
    reveal_strlit("RABBITMQ_NODE_NAME");
    reveal_strlit("RABBITMQ_NODENAME");
    reveal_strlit("RABBITMQ_USE_LONGNAME");
    reveal_strlit("RABBITMQ_DEFAULT_USER");
    reveal_strlit("RABBITMQ_DEFAULT_PASSWORD");
    assert("RABBITMQ_ERLANG_COOKIE"@.len() == 22
        && "MY_POD_IP"@.len() == 9
        && "MY_POD_NAME"@.len() == 11
        && "MY_POD_NAMESPACE"@.len() == 16
        && "MY_POD_NAMESPACE"@[0] == 'M'
        && "RABBITMQ_FORCE_BOOT"@.len() == 19
        && "RABBITMQ_FORCE_BOOT"@[0] == 'R'
        && "K8S_SERVICE_NAME"@.len() == 16
        && "K8S_SERVICE_NAME"@[0] == 'K'
        && "K8S_HOSTNAME_SUFFIX"@.len() == 19
        && "K8S_HOSTNAME_SUFFIX"@[0] == 'K'
        && "RABBITMQ_NODE_NAME"@.len() == 18
        && "RABBITMQ_NODENAME"@.len() == 17
        && "RABBITMQ_USE_LONGNAME"@.len() == 21
        && "RABBITMQ_DEFAULT_USER"@.len() == 21
        && "RABBITMQ_DEFAULT_PASSWORD"@.len() == 25);
}

/// The volume is mounted at that path, as a whole.
pub open spec fn is_mounted(container: ContainerModel, name: Seq<char>, path: Seq<char>, read_only: bool) -> bool {
    let mounts = install::or_empty(container.volume_mounts);
    &&& entries::holds::<VolumeMount>(mounts, name)
    &&& entries::entry::<VolumeMount>(mounts, name).mount_path == path
    &&& entries::entry::<VolumeMount>(mounts, name).read_only == Some(read_only)
    &&& entries::entry::<VolumeMount>(mounts, name).mount_propagation is None
    &&& entries::entry::<VolumeMount>(mounts, name).sub_path is None
    &&& entries::entry::<VolumeMount>(mounts, name).sub_path_expr is None
}

/// The pod has a volume of that name.
pub open spec fn has_volume(pod: PodSpecModel, name: Seq<char>) -> bool {
    entries::holds::<Volume>(install::or_empty(pod.volumes), name)
}

/// The pod's volume of that name.
pub open spec fn volume(pod: PodSpecModel, name: Seq<char>) -> VolumeModel {
    entries::entry::<Volume>(install::or_empty(pod.volumes), name)
}

/// The names of volumes and mounts are different ones.
pub proof fn lemma_volume_names()
    ensures
        "config"@ != "storage"@,
        "config"@ != "embedded-db"@,
        "config"@ != "config-rw"@,
        "storage"@ != "embedded-db"@,
        "storage"@ != "config-rw"@,
{
    reveal_strlit("config");
    reveal_strlit("storage");
    reveal_strlit("embedded-db");
    reveal_strlit("config-rw");
    assert("config"@.len() == 6 && "storage"@.len() == 7 && "embedded-db"@.len() == 11 && "config-rw"@.len() == 9);
}

/// The server has its volumes mounted.
proof fn lemma_server_mounts(
    container: ContainerModel,
    resource: HawkbitModel,
    has_openshift: bool,
    variant: DatabaseVariantModel,
    broker: Seq<EnvVarModel>,
)
    ensures
        ({
            let server = server::server_container(container, resource, has_openshift, variant, broker);
            &&& is_mounted(server, "config"@, "/opt/hawkbit/config"@, true)
            &&& is_mounted(server, "storage"@, "/etc/hawkbit/storage"@, false)
            &&& variant is Embedded ==> is_mounted(server, "embedded-db"@, "/embedded-db"@, false)
        }),
{
    lemma_volume_names();
    let database = |m: VolumeMountModel| install::mount_set(m, "/embedded-db"@, false);
    let config = |m: VolumeMountModel| install::mount_set(m, "/opt/hawkbit/config"@, true);
    let storage = |m: VolumeMountModel| install::mount_set(m, "/etc/hawkbit/storage"@, false);
    let start = install::or_empty(container.volume_mounts);
    let a = if variant is Embedded {
        entries::applied::<VolumeMount>(start, "embedded-db"@, database)
    } else {
        start
    };
    let b = entries::applied::<VolumeMount>(a, "config"@, config);
    let c = entries::applied::<VolumeMount>(b, "storage"@, storage);
    assert(server::server_mounts(container.volume_mounts, variant) == Some(c));
    entries::lemma_applied::<VolumeMount>(start, "embedded-db"@, database);
    entries::lemma_applied_other::<VolumeMount>(a, "config"@, config, "embedded-db"@);
    entries::lemma_applied_other::<VolumeMount>(b, "storage"@, storage, "embedded-db"@);
    entries::lemma_applied::<VolumeMount>(a, "config"@, config);
    entries::lemma_applied_other::<VolumeMount>(b, "storage"@, storage, "config"@);
    entries::lemma_applied::<VolumeMount>(b, "storage"@, storage);
}

/// The server's pod has its volumes.
proof fn lemma_server_volumes(
    volumes: Option<Seq<VolumeModel>>,
    resource: HawkbitModel,
    variant: DatabaseVariantModel,
)
    ensures
        ({
            let after = install::or_empty(server::server_volumes(volumes, resource, variant));
            &&& entries::holds::<Volume>(after, "config"@)
            &&& entries::entry::<Volume>(after, "config"@).config_map->0.name == Some(resource.name())
            &&& entries::entry::<Volume>(after, "config"@).config_map->0.default_mode is None
            &&& entries::holds::<Volume>(after, "storage"@)
            &&& entries::entry::<Volume>(after, "storage"@).persistent_volume_claim->0.claim_name
                == server::data_claim_name(resource)
            &&& entries::holds::<Volume>(after, "embedded-db"@) == variant is Embedded
            &&& variant is Embedded ==> entries::entry::<Volume>(
                after,
                "embedded-db"@,
            ).persistent_volume_claim->0.claim_name == server::database_claim_name(resource)
        }),
{
    lemma_volume_names();
    let instance = resource.name();
    let data = server::data_claim_name(resource);
    let db = server::database_claim_name(resource);
    let config = |v: VolumeModel| install::from_config_map(v, instance, None);
    let storage = |v: VolumeModel| install::from_claim(v, data);
    let database = |v: VolumeModel| install::from_claim(v, db);
    let start = install::or_empty(volumes);
    let a = entries::applied::<Volume>(start, "config"@, config);
    let b = entries::applied::<Volume>(a, "storage"@, storage);
    entries::lemma_applied::<Volume>(start, "config"@, config);
    entries::lemma_applied_other::<Volume>(a, "storage"@, storage, "config"@);
    entries::lemma_applied::<Volume>(a, "storage"@, storage);
    if variant is Embedded {
        entries::lemma_applied_other::<Volume>(b, "embedded-db"@, database, "config"@);
        entries::lemma_applied_other::<Volume>(b, "embedded-db"@, database, "storage"@);
        entries::lemma_applied::<Volume>(b, "embedded-db"@, database);
    } else {
        entries::lemma_found_after_drop::<Volume>(b, "embedded-db"@, "config"@);
        entries::lemma_found_after_drop::<Volume>(b, "embedded-db"@, "storage"@);
        entries::lemma_dropped::<Volume>(b, "embedded-db"@);
    }
}

/// What the server has mounted are volumes of its pod, filled from the config map and the claims of the
/// instance. Only an embedded database has a volume, and so a claim.
pub proof fn lemma_server_storage(
    pod: PodSpecModel,
    resource: HawkbitModel,
    has_openshift: bool,
    variant: DatabaseVariantModel,
    broker: Seq<EnvVarModel>,
)
    ensures
        ({
            let after = server::server_pod(pod, resource, has_openshift, variant, broker);
            let server = entries::entry::<Container>(after.containers, "server"@);
            &&& entries::holds::<Container>(after.containers, "server"@)
            &&& is_mounted(server, "config"@, "/opt/hawkbit/config"@, true)
            &&& has_volume(after, "config"@)
            &&& volume(after, "config"@).config_map->0.name == Some(Target::Config.name_of(resource))
            &&& volume(after, "config"@).config_map->0.default_mode is None
            &&& is_mounted(server, "storage"@, "/etc/hawkbit/storage"@, false)
            &&& has_volume(after, "storage"@)
            &&& volume(after, "storage"@).persistent_volume_claim->0.claim_name == Target::DataClaim.name_of(resource)
            &&& has_volume(after, "embedded-db"@) == variant is Embedded
            &&& variant is Embedded ==> is_mounted(server, "embedded-db"@, "/embedded-db"@, false)
            &&& variant is Embedded ==> volume(after, "embedded-db"@).persistent_volume_claim->0.claim_name
                == Target::DatabaseClaim.name_of(resource)
            &&& after.service_account == Some(Target::Account.name_of(resource))
        }),
{
    lemma_names(resource);
    lemma_server_volumes(pod.volumes, resource, variant);
    let fill = |c: ContainerModel| server::server_container(c, resource, has_openshift, variant, broker);
    entries::lemma_applied::<Container>(pod.containers, "server"@, fill);
    let before = if entries::holds::<Container>(pod.containers, "server"@) {
        entries::entry::<Container>(pod.containers, "server"@)
    } else {
        Container::blank_entry("server"@)
    };
    lemma_server_mounts(before, resource, has_openshift, variant, broker);
}

/// What the broker and the container before it have mounted are volumes of the pod or made from the claim
/// template; the configuration is what was prepared, not the original.
pub proof fn lemma_broker_storage(pod: PodSpecModel, resource: HawkbitModel)
    ensures
        ({
            let after = rabbit::broker_pod(pod, resource);
            let broker = entries::entry::<Container>(after.containers, "rabbit"@);
            let init = rabbit::init_container(resource);
            &&& entries::holds::<Container>(after.containers, "rabbit"@)
            &&& after.init_containers == Some(seq![init])
            &&& is_mounted(init, "config"@, "/etc/config"@, false)
            &&& is_mounted(init, "config-rw"@, "/etc/config-rw"@, false)
            &&& is_mounted(broker, "config-rw"@, "/etc/rabbitmq"@, false)
            &&& is_mounted(broker, "storage"@, "/var/lib/rabbitmq/mnesia"@, false)
            &&& !entries::holds::<VolumeMount>(broker.volume_mounts->0, "config"@)
            &&& has_volume(after, "config"@)
            &&& volume(after, "config"@).config_map->0.name == Some(Target::BrokerConfig.name_of(resource))
            &&& has_volume(after, "config-rw"@)
            &&& volume(after, "config-rw"@).empty_dir is Some
            &&& rabbit::claim_template(resource).metadata.name == Some("storage"@)
            &&& after.service_account == Some(Target::BrokerAccount.name_of(resource))
        }),
{
    lemma_names(resource);
    lemma_volume_names();
    let base = server::broker_name(resource);
    let filled = |v: VolumeModel| install::from_config_map(v, base, Some(420));
    let writable = |v: VolumeModel| install::from_nothing(v);
    let start = install::or_empty(pod.volumes);
    let a = entries::applied::<Volume>(start, "config"@, filled);
    entries::lemma_applied::<Volume>(start, "config"@, filled);
    entries::lemma_applied_other::<Volume>(a, "config-rw"@, writable, "config"@);
    entries::lemma_applied::<Volume>(a, "config-rw"@, writable);
    lemma_init_mounts(resource);
    let fill = |c: ContainerModel| rabbit::broker_container(c, resource);
    entries::lemma_applied::<Container>(pod.containers, "rabbit"@, fill);
    let before = if entries::holds::<Container>(pod.containers, "rabbit"@) {
        entries::entry::<Container>(pod.containers, "rabbit"@)
    } else {
        Container::blank_entry("rabbit"@)
    };
    lemma_broker_mounts(before, resource);
}

proof fn lemma_init_mounts(resource: HawkbitModel)
    ensures
        is_mounted(rabbit::init_container(resource), "config"@, "/etc/config"@, false),
        is_mounted(rabbit::init_container(resource), "config-rw"@, "/etc/config-rw"@, false),
{
    lemma_volume_names();
    let none = Seq::<VolumeMountModel>::empty();
    let config = |m: VolumeMountModel| install::mount_set(m, "/etc/config"@, false);
    let writable = |m: VolumeMountModel| install::mount_set(m, "/etc/config-rw"@, false);
    let a = entries::applied::<VolumeMount>(none, "config"@, config);
    entries::lemma_applied::<VolumeMount>(none, "config"@, config);
    entries::lemma_applied_other::<VolumeMount>(a, "config-rw"@, writable, "config"@);
    entries::lemma_applied::<VolumeMount>(a, "config-rw"@, writable);
}

proof fn lemma_broker_mounts(container: ContainerModel, resource: HawkbitModel)
    ensures
        ({
            let broker = rabbit::broker_container(container, resource);
            &&& is_mounted(broker, "config-rw"@, "/etc/rabbitmq"@, false)
            &&& is_mounted(broker, "storage"@, "/var/lib/rabbitmq/mnesia"@, false)
            &&& !entries::holds::<VolumeMount>(broker.volume_mounts->0, "config"@)
        }),
{
    lemma_volume_names();
    let config = |m: VolumeMountModel| install::mount_set(m, "/etc/rabbitmq"@, false);
    let storage = |m: VolumeMountModel| install::mount_set(m, "/var/lib/rabbitmq/mnesia"@, false);
    let a = install::or_empty(install::without::<VolumeMount>(container.volume_mounts, "config"@));
    let b = entries::applied::<VolumeMount>(a, "config-rw"@, config);
    if container.volume_mounts is Some {
        entries::lemma_dropped::<VolumeMount>(container.volume_mounts->0, "config"@);
    }
    entries::lemma_still_missing::<VolumeMount>(a, "config"@, "config-rw"@, config);
    entries::lemma_still_missing::<VolumeMount>(b, "config"@, "storage"@, storage);
    entries::lemma_applied::<VolumeMount>(a, "config-rw"@, config);
    entries::lemma_applied_other::<VolumeMount>(b, "storage"@, storage, "config-rw"@);
    entries::lemma_applied::<VolumeMount>(b, "storage"@, storage);
}

/// A variable takes its value from a field of a secret that is there.
pub open spec fn is_backed(env: EnvVarModel, secret: Seq<char>, data: Option<Map<Seq<char>, Seq<u8>>>) -> bool {
    &&& env.value_from is Some
    &&& env.value_from->0 matches EnvVarSourceModel::SecretKey { name, key } && name == secret && install::or_nothing(
        data,
    ).contains_key(key)
}

/// Without another way to sign on, the server takes user and password from the secret that is made for
/// them, and the secret has both.
pub proof fn lemma_admin_secret_is_used(
    resource: HawkbitModel,
    data: Option<Map<Seq<char>, Seq<u8>>>,
    password: Seq<char>,
)
    requires
        resource.spec.sign_on is None,
    ensures
        forall|i: int|
            0 <= i < server::sign_on_env(resource).len() ==> is_backed(
                #[trigger] server::sign_on_env(resource)[i],
                Target::AdminSecret.name_of(resource),
                resources::admin_data(data, password),
            ),
{
}

/// The server, the broker and the container before it take the broker's credentials from the secret that
/// is made for them, and the secret has all of them.
pub proof fn lemma_broker_secret_is_used(resource: HawkbitModel, data: Option<Map<Seq<char>, Seq<u8>>>)
    requires
        resource.spec.rabbit.managed is Some,
        resource.spec.rabbit.external is None,
    ensures
        ({
            let secret = Target::BrokerSecret.name_of(resource);
            let filled = rabbit::broker_data(data);
            &&& server::broker_env(resource) is Some
            &&& is_backed(server::broker_env(resource)->0[2], secret, filled)
            &&& is_backed(server::broker_env(resource)->0[3], secret, filled)
            &&& is_backed(rabbit::broker_env(resource)[0], secret, filled)
            &&& is_backed(rabbit::init_env(resource)[0], secret, filled)
            &&& is_backed(rabbit::init_env(resource)[1], secret, filled)
            &&& server::broker_env(resource)->0[0].value == Some(Target::BrokerService.name_of(resource))
        }),
{
}

} // verus!
