//! The broker that is kept for an instance works with the server, and with itself.

use vstd::prelude::*;
use vstd::utf8::encode_utf8;

use crate::controller::rabbit;
use crate::controller::server;
use crate::crd::HawkbitModel;
use crate::entries;
use crate::entries::Entry;
use crate::error::Error;
use crate::install;
use crate::laws::serving;
use crate::laws::wiring;
use crate::objects::config::{ConfigMapModel, RoleBindingModel, RoleModel, SecretModel, ServiceAccountModel};
use crate::objects::meta::ObjectMetaModel;
use crate::objects::network::ServiceModel;
use crate::objects::pod::{
    Container, ContainerModel, ContainerPort, ContainerPortModel, EnvVar, PodSpecModel, ProbeModel, Volume, VolumeModel,
    VolumeMount, VolumeMountModel,
};
use crate::objects::workload::{DeploymentModel, StatefulSetModel, StatefulSetSpecModel};
use crate::ownership;

verus! {

/// The container that prepares the broker's configuration.
pub open spec fn init_of(set: StatefulSetModel) -> ContainerModel {
    set.spec->0.template.spec->0.init_containers->0[0]
}

/// The broker's container.
pub open spec fn broker_of(set: StatefulSetModel) -> ContainerModel {
    entries::entry::<Container>(set.spec->0.template.spec->0.containers, "rabbit"@)
}

/// The broker's container is there, and the one in front of it; both have environments in which no variable is
/// set twice.
proof fn lemma_broker_of(set: StatefulSetModel, resource: HawkbitModel, hash: Seq<char>)
    requires
        rabbit::stateful_set(set, resource, hash) is Ok,
    ensures
        ({
            let after = rabbit::stateful_set(set, resource, hash)->Ok_0;
            let pod = if set.spec is Some && set.spec->0.template.spec is Some {
                set.spec->0.template.spec->0
            } else {
                PodSpecModel::blank()
            };
            let before = if entries::holds::<Container>(pod.containers, "rabbit"@) {
                entries::entry::<Container>(pod.containers, "rabbit"@)
            } else {
                Container::blank_entry("rabbit"@)
            };
            &&& entries::holds::<Container>(after.spec->0.template.spec->0.containers, "rabbit"@)
            &&& broker_of(after) == rabbit::broker_container(before, resource)
            &&& init_of(after) == rabbit::init_container(resource)
            &&& install::distinct(broker_of(after).env->0)
            &&& install::distinct(init_of(after).env->0)
            &&& before.name == "rabbit"@
        }),
{
    wiring::lemma_broker_env_is_distinct(resource);
    let fill = |c: ContainerModel| rabbit::broker_container(c, resource);
    let spec = if set.spec is Some {
        set.spec->0
    } else {
        StatefulSetSpecModel::blank()
    };
    let pod = if spec.template.spec is Some {
        spec.template.spec->0
    } else {
        PodSpecModel::blank()
    };
    entries::lemma_position::<Container>(pod.containers, "rabbit"@);
    entries::lemma_applied::<Container>(pod.containers, "rabbit"@, fill);
}

/// The user and the password that the broker is set up with are those that the server signs on with: they come from
/// the same fields of the same secret.
pub proof fn lemma_same_credentials(
    set: StatefulSetModel,
    deployment: DeploymentModel,
    resource: HawkbitModel,
    has_openshift: bool,
    broker_hash: Seq<char>,
    server_hash: Seq<char>,
)
    requires
        resource.spec.rabbit.managed is Some,
        rabbit::stateful_set(set, resource, broker_hash) is Ok,
        server::deployment(deployment, resource, has_openshift, server_hash) is Ok,
    ensures
        ({
            let init = init_of(rabbit::stateful_set(set, resource, broker_hash)->Ok_0).env->0;
            let server = serving::server_of(
                server::deployment(deployment, resource, has_openshift, server_hash)->Ok_0,
            ).env->0;
            let user = entries::entry::<EnvVar>(init, "RABBITMQ_DEFAULT_USER"@);
            let password = entries::entry::<EnvVar>(init, "RABBITMQ_DEFAULT_PASSWORD"@);
            &&& entries::holds::<EnvVar>(init, "RABBITMQ_DEFAULT_USER"@)
            &&& entries::holds::<EnvVar>(init, "RABBITMQ_DEFAULT_PASSWORD"@)
            &&& entries::holds::<EnvVar>(server, "SPRING_RABBITMQ_USERNAME"@)
            &&& entries::holds::<EnvVar>(server, "SPRING_RABBITMQ_PASSWORD"@)
            &&& user.value_from is Some
            &&& user.value_from == entries::entry::<EnvVar>(server, "SPRING_RABBITMQ_USERNAME"@).value_from
            &&& user.value is None
            &&& password.value_from is Some
            &&& password.value_from == entries::entry::<EnvVar>(server, "SPRING_RABBITMQ_PASSWORD"@).value_from
            &&& password.value is None
            &&& user.value_from != password.value_from
        }),
{
    lemma_init_environment(set, resource, broker_hash);
    serving::lemma_server_uses_managed_broker(deployment, resource, has_openshift, server_hash);
    reveal_strlit("default.username");
    reveal_strlit("default.password");
    assert("default.username"@[8] == 'u' && "default.password"@[8] == 'p');
}

/// The container that prepares the configuration gets user and password from the broker's secret, and nothing else.
pub proof fn lemma_init_environment(set: StatefulSetModel, resource: HawkbitModel, hash: Seq<char>)
    requires
        rabbit::stateful_set(set, resource, hash) is Ok,
    ensures
        ({
            let env = init_of(rabbit::stateful_set(set, resource, hash)->Ok_0).env->0;
            let secret = resource.metadata.name->0 + "-rabbit"@;
            &&& env.len() == 2
            &&& serving::is_taken(env, "RABBITMQ_DEFAULT_USER"@, secret, "default.username"@)
            &&& serving::is_taken(env, "RABBITMQ_DEFAULT_PASSWORD"@, secret, "default.password"@)
        }),
{
    lemma_broker_of(set, resource, hash);
    let env = init_of(rabbit::stateful_set(set, resource, hash)->Ok_0).env->0;
    serving::lemma_found(env, 0);
    serving::lemma_found(env, 1);
}

/// The broker knows its pod, its cookie and the service by which its nodes find each other.
pub proof fn lemma_broker_environment(set: StatefulSetModel, resource: HawkbitModel, hash: Seq<char>)
    requires
        rabbit::stateful_set(set, resource, hash) is Ok,
    ensures
        ({
            let after = rabbit::stateful_set(set, resource, hash)->Ok_0;
            let env = broker_of(after).env->0;
            let name = resource.metadata.name->0 + "-rabbit"@;
            let node = "rabbit@$(MY_POD_NAME).$(K8S_SERVICE_NAME).$(MY_POD_NAMESPACE).svc.cluster.local"@;
            &&& env.len() == 10
            &&& install::distinct(env)
            &&& serving::is_taken(env, "RABBITMQ_ERLANG_COOKIE"@, name, "erlang.cookie"@)
            &&& serving::is_read(env, "MY_POD_IP"@, "status.podIP"@)
            &&& serving::is_read(env, "MY_POD_NAME"@, "metadata.name"@)
            &&& serving::is_read(env, "MY_POD_NAMESPACE"@, "metadata.namespace"@)
            &&& serving::is_set(env, "RABBITMQ_FORCE_BOOT"@, "false"@)
            &&& serving::is_set(env, "K8S_SERVICE_NAME"@, name + "-headless"@)
            &&& serving::is_set(env, "K8S_SERVICE_NAME"@, after.spec->0.service_name)
            &&& serving::is_set(
                env,
                "K8S_HOSTNAME_SUFFIX"@,
                ".$(K8S_SERVICE_NAME).$(MY_POD_NAMESPACE).svc.cluster.local"@,
            )
            &&& serving::is_set(env, "RABBITMQ_NODE_NAME"@, node)
            &&& serving::is_set(env, "RABBITMQ_NODENAME"@, node)
            &&& serving::is_set(env, "RABBITMQ_USE_LONGNAME"@, "true"@)
        }),
{
    lemma_broker_of(set, resource, hash);
    let env = broker_of(rabbit::stateful_set(set, resource, hash)->Ok_0).env->0;
    serving::lemma_found(env, 0);
    serving::lemma_found(env, 1);
    serving::lemma_found(env, 2);
    serving::lemma_found(env, 3);
    serving::lemma_found(env, 4);
    serving::lemma_found(env, 5);
    serving::lemma_found(env, 6);
    serving::lemma_found(env, 7);
    serving::lemma_found(env, 8);
    serving::lemma_found(env, 9);
}

/// A variable of the broker stands in front of those that are made up from it.
pub proof fn lemma_variables_before_use(set: StatefulSetModel, resource: HawkbitModel, hash: Seq<char>)
    requires
        rabbit::stateful_set(set, resource, hash) is Ok,
    ensures
        ({
            let env = broker_of(rabbit::stateful_set(set, resource, hash)->Ok_0).env->0;
            let suffix = entries::position::<EnvVar>(env, "K8S_HOSTNAME_SUFFIX"@);
            let node = entries::position::<EnvVar>(env, "RABBITMQ_NODE_NAME"@);
            let nodename = entries::position::<EnvVar>(env, "RABBITMQ_NODENAME"@);
            let pod = entries::position::<EnvVar>(env, "MY_POD_NAME"@);
            let namespace = entries::position::<EnvVar>(env, "MY_POD_NAMESPACE"@);
            let service = entries::position::<EnvVar>(env, "K8S_SERVICE_NAME"@);
            &&& service < suffix && namespace < suffix
            &&& service < node && namespace < node && pod < node
            &&& service < nodename && namespace < nodename && pod < nodename
        }),
{
    lemma_broker_of(set, resource, hash);
    let env = broker_of(rabbit::stateful_set(set, resource, hash)->Ok_0).env->0;
    serving::lemma_found(env, 2);
    serving::lemma_found(env, 3);
    serving::lemma_found(env, 5);
    serving::lemma_found(env, 6);
    serving::lemma_found(env, 7);
    serving::lemma_found(env, 8);
}

/// The configuration is copied from where the config map is mounted to where the broker will find it, and gets the
/// user and the password that the container is given.
pub proof fn lemma_init_container(set: StatefulSetModel, resource: HawkbitModel, hash: Seq<char>)
    requires
        rabbit::stateful_set(set, resource, hash) is Ok,
    ensures
        ({
            let after = rabbit::stateful_set(set, resource, hash)->Ok_0;
            let pod = after.spec->0.template.spec->0;
            let init = init_of(after);
            let script = "
set -e

cp /etc/config/* /etc/config-rw/
echo \"default_user = ${RABBITMQ_DEFAULT_USER}\" >> /etc/config-rw/rabbitmq.conf
echo \"default_pass = ${RABBITMQ_DEFAULT_PASSWORD}\" >> /etc/config-rw/rabbitmq.conf

"@;
            &&& pod.init_containers is Some
            &&& pod.init_containers->0.len() == 1
            &&& init.name == "init-config"@
            &&& init.image == Some("registry.access.redhat.com/ubi8-minimal"@)
            &&& init.image_pull_policy is None
            &&& init.command == Some(seq!["bash"@, "-c"@, script])
            &&& init.args is None
            &&& init.working_dir is None
            &&& init.ports is None
            &&& init.readiness_probe is None
            &&& init.liveness_probe is None
            &&& init.rest is None
            &&& init.volume_mounts is Some
            &&& init.volume_mounts->0.len() == 2
            &&& wiring::is_mounted(init, "config"@, "/etc/config"@, false)
            &&& wiring::is_mounted(init, "config-rw"@, "/etc/config-rw"@, false)
            &&& wiring::is_mounted(broker_of(after), "config-rw"@, "/etc/rabbitmq"@, false)
        }),
{
    lemma_broker_of(set, resource, hash);
    let spec = if set.spec is Some {
        set.spec->0
    } else {
        StatefulSetSpecModel::blank()
    };
    let pod = if spec.template.spec is Some {
        spec.template.spec->0
    } else {
        PodSpecModel::blank()
    };
    wiring::lemma_broker_storage(pod, resource);
    wiring::lemma_volume_names();
    let config = |m: VolumeMountModel| install::mount_set(m, "/etc/config"@, false);
    let none = Seq::<VolumeMountModel>::empty();
    let a = entries::applied::<VolumeMount>(none, "config"@, config);
    assert(a.len() == 1 && a[0].name == "config"@);
    entries::lemma_position_is::<VolumeMount>(a, "config-rw"@, 1);
}

/// How the broker is run, and how it is seen to work.
pub proof fn lemma_broker_runs(set: StatefulSetModel, resource: HawkbitModel, hash: Seq<char>)
    requires
        rabbit::stateful_set(set, resource, hash) is Ok,
    ensures
        ({
            let broker = broker_of(rabbit::stateful_set(set, resource, hash)->Ok_0);
            &&& broker.name == "rabbit"@
            &&& broker.image == Some("docker.io/library/rabbitmq:3"@)
            &&& wiring::is_mounted(broker, "config-rw"@, "/etc/rabbitmq"@, false)
            &&& wiring::is_mounted(broker, "storage"@, "/var/lib/rabbitmq/mnesia"@, false)
            &&& !entries::holds::<VolumeMount>(broker.volume_mounts->0, "config"@)
            &&& broker.liveness_probe matches Some(ProbeModel::Exec(alive)) && {
                &&& alive.command == seq!["rabbitmq-diagnostics"@, "status"@]
                &&& alive.initial_delay_seconds == 30
                &&& alive.period_seconds == 60
                &&& alive.timeout_seconds == 15
            }
            &&& broker.readiness_probe matches Some(ProbeModel::Exec(ready)) && {
                &&& ready.command == seq!["rabbitmq-diagnostics"@, "ping"@]
                &&& ready.initial_delay_seconds == 20
                &&& ready.period_seconds == 60
                &&& ready.timeout_seconds == 10
            }
        }),
{
    lemma_broker_of(set, resource, hash);
    let spec = if set.spec is Some {
        set.spec->0
    } else {
        StatefulSetSpecModel::blank()
    };
    let pod = if spec.template.spec is Some {
        spec.template.spec->0
    } else {
        PodSpecModel::blank()
    };
    wiring::lemma_broker_storage(pod, resource);
}

/// A port of the container has that number, and is for TCP.
pub open spec fn has_port(container: ContainerModel, name: Seq<char>, number: i32) -> bool {
    &&& container.ports is Some
    &&& entries::holds::<ContainerPort>(container.ports->0, name)
    &&& entries::entry::<ContainerPort>(container.ports->0, name).container_port == number
    &&& entries::entry::<ContainerPort>(container.ports->0, name).protocol == Some("TCP"@)
}

/// The ports of the broker, and those of its services that lead to them.
pub proof fn lemma_broker_ports(
    set: StatefulSetModel,
    headless: ServiceModel,
    service: ServiceModel,
    resource: HawkbitModel,
    hash: Seq<char>,
)
    requires
        rabbit::stateful_set(set, resource, hash) is Ok,
        rabbit::headless_service(headless, resource) is Ok,
        rabbit::service(service, resource) is Ok,
    ensures
        ({
            let broker = broker_of(rabbit::stateful_set(set, resource, hash)->Ok_0);
            let inner = rabbit::headless_service(headless, resource)->Ok_0.spec->0;
            let outer = rabbit::service(service, resource)->Ok_0.spec->0;
            &&& has_port(broker, "amqp"@, 5672)
            &&& has_port(broker, "management"@, 15672)
            &&& has_port(broker, "epmd"@, 4369)
            &&& has_port(broker, "cluster-links"@, 25672)
            &&& inner.ports->0.len() == 3
            &&& inner.ports->0[0].name == Some("amqp"@) && inner.ports->0[0].port == 5672
            &&& inner.ports->0[1].name == Some("epmd"@) && inner.ports->0[1].port == 4369
            &&& inner.ports->0[2].name == Some("cluster-links"@) && inner.ports->0[2].port == 25672
            &&& outer.ports->0.len() == 2
            &&& outer.ports->0[0].name == Some("amqp"@) && outer.ports->0[0].port == 5672
            &&& outer.ports->0[1].name == Some("management"@) && outer.ports->0[1].port == 15672
            &&& forall|i: int| 0 <= i < inner.ports->0.len() ==> (#[trigger] inner.ports->0[i]).protocol == Some("TCP"@)
                && inner.ports->0[i].target_port == inner.ports->0[i].name
            &&& forall|i: int| 0 <= i < outer.ports->0.len() ==> (#[trigger] outer.ports->0[i]).protocol == Some("TCP"@)
                && outer.ports->0[i].target_port == outer.ports->0[i].name
        }),
{
    lemma_broker_of(set, resource, hash);
    let pod = if set.spec is Some && set.spec->0.template.spec is Some {
        set.spec->0.template.spec->0
    } else {
        PodSpecModel::blank()
    };
    let before = if entries::holds::<Container>(pod.containers, "rabbit"@) {
        entries::entry::<Container>(pod.containers, "rabbit"@)
    } else {
        Container::blank_entry("rabbit"@)
    };
    wiring::lemma_broker_is_reached(before, resource);
    let broker = rabbit::broker_container(before, resource);
    assert(wiring::leads_to(rabbit::headless_ports()[0], broker));
    assert(wiring::leads_to(rabbit::headless_ports()[1], broker));
    assert(wiring::leads_to(rabbit::headless_ports()[2], broker));
    assert(wiring::leads_to(rabbit::broker_ports()[1], broker));
}

/// The service by which nodes find each other has no address of its own; the other one has one, which stays. Both
/// select the broker's pods.
pub proof fn lemma_broker_services(headless: ServiceModel, service: ServiceModel, resource: HawkbitModel)
    ensures
        rabbit::headless_service(headless, resource) matches Ok(after) ==> {
            &&& after.metadata.labels == Some(serving::labelled(resource, "rabbit"@, "broker"@))
            &&& after.spec->0.selector == Some(serving::labelled(resource, "rabbit"@, "broker"@))
            &&& after.spec->0.type_ == Some("ClusterIP"@)
            &&& after.spec->0.cluster_ip == Some("None"@)
            &&& headless.spec is Some ==> after.spec->0.rest == headless.spec->0.rest
        },
        rabbit::service(service, resource) matches Ok(after) ==> {
            &&& after.metadata.labels == Some(serving::labelled(resource, "rabbit"@, "broker"@))
            &&& after.spec->0.selector == Some(serving::labelled(resource, "rabbit"@, "broker"@))
            &&& after.spec->0.type_ == Some("ClusterIP"@)
            &&& service.spec is Some ==> after.spec->0.cluster_ip == service.spec->0.cluster_ip
            &&& service.spec is None ==> after.spec->0.cluster_ip is None
            &&& service.spec is Some ==> after.spec->0.rest == service.spec->0.rest
        },
{
    serving::lemma_labelled(resource, "rabbit"@, "broker"@);
}

/// The broker's stateful set, what it selects, and the pods and claims that it makes.
pub proof fn lemma_stateful_set(set: StatefulSetModel, resource: HawkbitModel, hash: Seq<char>)
    requires
        rabbit::stateful_set(set, resource, hash) is Ok,
    ensures
        ({
            let after = rabbit::stateful_set(set, resource, hash)->Ok_0;
            let spec = after.spec->0;
            let pod = spec.template.spec->0;
            let name = resource.metadata.name->0 + "-rabbit"@;
            let labels = serving::labelled(resource, "rabbit"@, "broker"@);
            &&& after.metadata.labels == Some(labels)
            &&& spec.service_name == name + "-headless"@
            &&& spec.selector.match_labels == Some(labels)
            &&& spec.template.metadata->0.labels == Some(labels)
            &&& spec.template.metadata->0.annotations->0.contains_key("config-hash"@)
            &&& spec.template.metadata->0.annotations->0["config-hash"@] == hash
            &&& spec.pod_management_policy == Some("OrderedReady"@)
            &&& spec.update_strategy->0.type_ == Some("RollingUpdate"@)
            &&& pod.service_account == Some(name)
            &&& pod.restart_policy == Some("Always"@)
            &&& wiring::has_volume(pod, "config"@)
            &&& wiring::volume(pod, "config"@).config_map->0.name == Some(name)
            &&& wiring::volume(pod, "config"@).config_map->0.default_mode == Some(420i32)
            &&& wiring::has_volume(pod, "config-rw"@)
            &&& wiring::volume(pod, "config-rw"@).empty_dir is Some
            &&& wiring::volume(pod, "config-rw"@).empty_dir->0.medium is None
            &&& wiring::volume(pod, "config-rw"@).empty_dir->0.size_limit is None
        }),
{
    serving::lemma_labelled(resource, "rabbit"@, "broker"@);
    wiring::lemma_names(resource);
    wiring::lemma_volume_names();
    let spec = if set.spec is Some {
        set.spec->0
    } else {
        StatefulSetSpecModel::blank()
    };
    let pod = if spec.template.spec is Some {
        spec.template.spec->0
    } else {
        PodSpecModel::blank()
    };
    let base = server::broker_name(resource);
    let filled = |v: VolumeModel| install::from_config_map(v, base, Some(420));
    let writable = |v: VolumeModel| install::from_nothing(v);
    let start = install::or_empty(pod.volumes);
    let a = entries::applied::<Volume>(start, "config"@, filled);
    entries::lemma_applied::<Volume>(start, "config"@, filled);
    entries::lemma_applied_other::<Volume>(a, "config-rw"@, writable, "config"@);
    entries::lemma_applied::<Volume>(a, "config-rw"@, writable);
}

/// Every node of the broker gets storage of its own, of eight gibibytes, by the name that it is mounted by.
pub proof fn lemma_broker_claim(set: StatefulSetModel, resource: HawkbitModel, hash: Seq<char>)
    requires
        rabbit::stateful_set(set, resource, hash) is Ok,
    ensures
        ({
            let claims = rabbit::stateful_set(set, resource, hash)->Ok_0.spec->0.volume_claim_templates->0;
            &&& claims.len() == 1
            &&& claims[0].metadata.name == Some("storage"@)
            &&& claims[0].metadata.labels == Some(serving::labelled(resource, "rabbit"@, "broker"@))
            &&& claims[0].metadata.namespace is None
            &&& claims[0].metadata.uid is None
            &&& claims[0].metadata.annotations is None
            &&& claims[0].metadata.owner_references is None
            &&& claims[0].metadata.rest is None
            &&& claims[0].rest is None
            &&& claims[0].spec->0.access_modes == Some(seq!["ReadWriteOnce"@])
            &&& claims[0].spec->0.rest is None
            &&& claims[0].spec->0.resources->0.requests == Some(map!["storage"@ => "8Gi"@])
            &&& claims[0].spec->0.resources->0.limits is None
        }),
{
    serving::lemma_labelled(resource, "rabbit"@, "broker"@);
}

/// Annotations of the broker's pods under other keys are kept.
pub proof fn lemma_annotations_kept(set: StatefulSetModel, resource: HawkbitModel, hash: Seq<char>, key: Seq<char>)
    requires
        rabbit::stateful_set(set, resource, hash) is Ok,
        key != "config-hash"@,
        set.spec is Some,
        set.spec->0.template.metadata is Some,
    ensures
        ({
            let before = set.spec->0.template.metadata->0;
            let after = rabbit::stateful_set(set, resource, hash)->Ok_0.spec->0.template.metadata->0;
            &&& after.name == before.name
            &&& after.namespace == before.namespace
            &&& after.uid == before.uid
            &&& after.owner_references == before.owner_references
            &&& after.rest == before.rest
            &&& after.annotations->0.contains_key(key) <==> before.annotations is Some
                && before.annotations->0.contains_key(key)
            &&& before.annotations is Some && before.annotations->0.contains_key(key) ==> after.annotations->0[key]
                == before.annotations->0[key]
        }),
{
}

/// How the broker is started is not touched, nor are its ports, mounts and volumes by other names.
pub proof fn lemma_rest_of_broker_kept(
    set: StatefulSetModel,
    resource: HawkbitModel,
    hash: Seq<char>,
    other: Seq<char>,
)
    requires
        rabbit::stateful_set(set, resource, hash) is Ok,
        set.spec is Some,
        set.spec->0.template.spec is Some,
        entries::holds::<Container>(set.spec->0.template.spec->0.containers, "rabbit"@),
    ensures
        ({
            let before = broker_of(set);
            let after = broker_of(rabbit::stateful_set(set, resource, hash)->Ok_0);
            let pod = set.spec->0.template.spec->0;
            let pod_after = rabbit::stateful_set(set, resource, hash)->Ok_0.spec->0.template.spec->0;
            &&& after.command == before.command
            &&& after.args == before.args
            &&& after.working_dir == before.working_dir
            &&& after.image_pull_policy == before.image_pull_policy
            &&& after.rest == before.rest
            &&& other != "amqp"@ && other != "management"@ && other != "epmd"@ && other != "cluster-links"@
                && before.ports is Some && entries::holds::<ContainerPort>(before.ports->0, other) ==> (entries::holds::<
                ContainerPort,
            >(after.ports->0, other) && entries::entry::<ContainerPort>(after.ports->0, other) == entries::entry::<
                ContainerPort,
            >(before.ports->0, other))
            &&& other != "config"@ && other != "config-rw"@ && other != "storage"@ && before.volume_mounts is Some
                && entries::holds::<VolumeMount>(before.volume_mounts->0, other) ==> (entries::holds::<VolumeMount>(
                after.volume_mounts->0,
                other,
            ) && entries::entry::<VolumeMount>(after.volume_mounts->0, other) == entries::entry::<VolumeMount>(
                before.volume_mounts->0,
                other,
            ))
            &&& other != "config"@ && other != "config-rw"@ && wiring::has_volume(pod, other) ==> wiring::has_volume(
                pod_after,
                other,
            ) && wiring::volume(pod_after, other) == wiring::volume(pod, other)
        }),
{
    lemma_broker_of(set, resource, hash);
    let before = broker_of(set);
    if other != "amqp"@ && other != "management"@ && other != "epmd"@ && other != "cluster-links"@ {
        let amqp = |p: ContainerPortModel| install::port_set(p, 5672, "TCP"@);
        let management = |p: ContainerPortModel| install::port_set(p, 15672, "TCP"@);
        let epmd = |p: ContainerPortModel| install::port_set(p, 4369, "TCP"@);
        let links = |p: ContainerPortModel| install::port_set(p, 25672, "TCP"@);
        let start = install::or_empty(before.ports);
        let a = entries::applied::<ContainerPort>(start, "amqp"@, amqp);
        let b = entries::applied::<ContainerPort>(a, "management"@, management);
        let c = entries::applied::<ContainerPort>(b, "epmd"@, epmd);
        entries::lemma_applied_other::<ContainerPort>(start, "amqp"@, amqp, other);
        entries::lemma_applied_other::<ContainerPort>(a, "management"@, management, other);
        entries::lemma_applied_other::<ContainerPort>(b, "epmd"@, epmd, other);
        entries::lemma_applied_other::<ContainerPort>(c, "cluster-links"@, links, other);
    }
    if other != "config"@ && other != "config-rw"@ && other != "storage"@ {
        let config = |m: VolumeMountModel| install::mount_set(m, "/etc/rabbitmq"@, false);
        let storage = |m: VolumeMountModel| install::mount_set(m, "/var/lib/rabbitmq/mnesia"@, false);
        let a = install::or_empty(install::without::<VolumeMount>(before.volume_mounts, "config"@));
        let b = entries::applied::<VolumeMount>(a, "config-rw"@, config);
        if before.volume_mounts is Some {
            entries::lemma_found_after_drop::<VolumeMount>(before.volume_mounts->0, "config"@, other);
        }
        entries::lemma_applied_other::<VolumeMount>(a, "config-rw"@, config, other);
        entries::lemma_applied_other::<VolumeMount>(b, "storage"@, storage, other);
    }
    if other != "config"@ && other != "config-rw"@ {
        let base = server::broker_name(resource);
        let filled = |v: VolumeModel| install::from_config_map(v, base, Some(420));
        let writable = |v: VolumeModel| install::from_nothing(v);
        let start = install::or_empty(set.spec->0.template.spec->0.volumes);
        let a = entries::applied::<Volume>(start, "config"@, filled);
        entries::lemma_applied_other::<Volume>(start, "config"@, filled, other);
        entries::lemma_applied_other::<Volume>(a, "config-rw"@, writable, other);
    }
}

/// The broker's account may look at endpoints and create events, and nothing else.
pub proof fn lemma_broker_rights(
    account: ServiceAccountModel,
    role: RoleModel,
    binding: RoleBindingModel,
    resource: HawkbitModel,
)
    ensures
        rabbit::account(account, resource) matches Ok(after) ==> after.metadata.labels == Some(
            serving::labelled(resource, "rabbit"@, "broker"@),
        ),
        rabbit::role(role, resource) matches Ok(after) ==> {
            let rules = after.rules->0;
            &&& after.metadata.labels == Some(serving::labelled(resource, "rabbit"@, "broker"@))
            &&& after.rules is Some
            &&& rules.len() == 2
            &&& rules[0].api_groups == seq![""@]
            &&& rules[0].resources == seq!["endpoints"@]
            &&& rules[0].verbs == seq!["get"@, "list"@, "watch"@]
            &&& rules[1].api_groups == seq![""@]
            &&& rules[1].resources == seq!["events"@]
            &&& rules[1].verbs == seq!["create"@]
        },
        rabbit::role_binding(binding, resource) matches Ok(after) ==> {
            &&& after.metadata.labels == Some(serving::labelled(resource, "rabbit"@, "broker"@))
            &&& after.subjects is Some
            &&& after.subjects->0.len() == 1
            &&& after.subjects->0[0].kind == "ServiceAccount"@
            &&& after.subjects->0[0].name == resource.metadata.name->0 + "-rabbit"@
            &&& after.role_ref.api_group == "rbac.authorization.k8s.io"@
            &&& after.role_ref.kind == "Role"@
            &&& after.role_ref.name == resource.metadata.name->0 + "-rabbit"@
        },
{
    serving::lemma_labelled(resource, "rabbit"@, "broker"@);
}

/// Credentials of the broker that are missing are filled in with the standard ones, and no others are.
pub proof fn lemma_broker_credentials(secret: SecretModel, resource: HawkbitModel, key: Seq<char>)
    requires
        rabbit::secret(secret, resource) is Ok,
    ensures
        ({
            let before = secret.data;
            let after = rabbit::secret(secret, resource)->Ok_0.data->0;
            let is_there = before is Some && before->0.contains_key(key);
            &&& rabbit::secret(secret, resource)->Ok_0.metadata.labels == Some(
                serving::labelled(resource, "rabbit"@, "broker"@),
            )
            &&& rabbit::secret(secret, resource)->Ok_0.data is Some
            &&& after.contains_key(key) <==> is_there || key == "erlang.cookie"@ || key == "default.username"@ || key
                == "default.password"@
            &&& is_there ==> after[key] == before->0[key]
            &&& !is_there && key == "erlang.cookie"@ ==> after[key] == encode_utf8("1234"@)
            &&& !is_there && key == "default.username"@ ==> after[key] == encode_utf8("hawkbit"@)
            &&& !is_there && key == "default.password"@ ==> after[key] == encode_utf8("hawkbit"@)
        }),
{
    serving::lemma_labelled(resource, "rabbit"@, "broker"@);
    reveal_strlit("erlang.cookie");
    reveal_strlit("default.username");
    reveal_strlit("default.password");
    assert("erlang.cookie"@[0] == 'e' && "default.username"@[0] == 'd' && "default.password"@[0] == 'd'
        && "default.username"@[8] == 'u' && "default.password"@[8] == 'p');
}

/// The broker's configuration and plugins are written, and texts under other keys are kept.
pub proof fn lemma_broker_configuration(config: ConfigMapModel, resource: HawkbitModel, key: Seq<char>)
    requires
        rabbit::config_map(config, resource) is Ok,
    ensures
        ({
            let before = config.data;
            let after = rabbit::config_map(config, resource)->Ok_0.data->0;
            let is_there = before is Some && before->0.contains_key(key);
            let text = "# Rabbit configuration

cluster_formation.peer_discovery_backend = rabbit_peer_discovery_k8s
cluster_formation.k8s.address_type = hostname
cluster_formation.node_cleanup.interval = 10
cluster_formation.node_cleanup.only_log_warning = true
cluster_partition_handling = autoheal

loopback_users.guest = false

queue_master_locator = min-masters
"@;
            let plugins = "[rabbitmq_management, rabbitmq_peer_discovery_k8s]."@;
            &&& rabbit::config_map(config, resource)->Ok_0.metadata.labels == Some(
                serving::labelled(resource, "rabbit"@, "broker"@),
            )
            &&& rabbit::config_map(config, resource)->Ok_0.data is Some
            &&& after.contains_key(key) <==> is_there || key == "rabbitmq.conf"@ || key == "enabled_plugins"@
            &&& key == "rabbitmq.conf"@ ==> after[key] == text
            &&& key == "enabled_plugins"@ ==> after[key] == plugins
            &&& is_there && key != "rabbitmq.conf"@ && key != "enabled_plugins"@ ==> after[key] == before->0[key]
        }),
{
    serving::lemma_labelled(resource, "rabbit"@, "broker"@);
    reveal_strlit("rabbitmq.conf");
    reveal_strlit("enabled_plugins");
    assert("rabbitmq.conf"@[0] == 'r' && "enabled_plugins"@[0] == 'e');
}

/// An object of the broker cannot be had just when the instance cannot control it, and for that reason.
pub proof fn lemma_no_broker(
    account: ServiceAccountModel,
    role: RoleModel,
    binding: RoleBindingModel,
    secret: SecretModel,
    config: ConfigMapModel,
    set: StatefulSetModel,
    service: ServiceModel,
    resource: HawkbitModel,
    hash: Seq<char>,
    e: Error,
)
    ensures
        ownership::owned(account.metadata, resource) == Err::<ObjectMetaModel, Error>(e) <==>
            rabbit::account(account, resource)
            == Err::<ServiceAccountModel, Error>(e),
        ownership::owned(role.metadata, resource) == Err::<ObjectMetaModel, Error>(e) <==>
            rabbit::role(role, resource) == Err::<
            RoleModel,
            Error,
        >(e),
        ownership::owned(binding.metadata, resource) == Err::<ObjectMetaModel, Error>(e) <==>
            rabbit::role_binding(binding, resource)
            == Err::<RoleBindingModel, Error>(e),
        ownership::owned(secret.metadata, resource) == Err::<ObjectMetaModel, Error>(e) <==>
            rabbit::secret(secret, resource)
            == Err::<SecretModel, Error>(e),
        ownership::owned(config.metadata, resource) == Err::<ObjectMetaModel, Error>(e) <==>
            rabbit::config_map(config, resource)
            == Err::<ConfigMapModel, Error>(e),
        ownership::owned(set.metadata, resource) == Err::<ObjectMetaModel, Error>(e) <==>
            rabbit::stateful_set(set, resource, hash)
            == Err::<StatefulSetModel, Error>(e),
        ownership::owned(service.metadata, resource) == Err::<ObjectMetaModel, Error>(e) <==> rabbit::headless_service(
            service,
            resource,
        ) == Err::<ServiceModel, Error>(e),
        ownership::owned(service.metadata, resource) == Err::<ObjectMetaModel, Error>(e) <==>
            rabbit::service(service, resource)
            == Err::<ServiceModel, Error>(e),
{
}

} // verus!
