//! The message broker that is kept for an instance.

use vstd::prelude::*;

use crate::content;
use crate::controller;
use crate::controller::resources;
use crate::controller::server;
use crate::controller::HawkbitController;
use crate::crd::{Hawkbit, HawkbitModel};
use crate::entries;
use crate::error;
use crate::error::Error;
use crate::install;
use crate::laws::wiring;
use crate::objects::config::{
    ConfigMap, ConfigMapModel, PolicyRule, PolicyRuleModel, Role, RoleBinding, RoleBindingModel, RoleModel, RoleRef,
    RoleRefModel, Secret, SecretModel, ServiceAccount, ServiceAccountModel, Subject, SubjectModel,
};
use crate::objects::meta::{LabelSelector, LabelSelectorModel, ObjectMeta, ObjectMetaModel};
use crate::objects::network::{Service, ServiceModel, ServicePortModel, ServiceSpec, ServiceSpecModel};
use crate::objects::pod::{
    Container, ContainerModel, EnvVar, EnvVarModel, ExecProbe, ExecProbeModel, PodSpec, PodSpecModel, PodTemplateSpec,
    PodTemplateSpecModel, Probe, ProbeModel, VolumeMount,
};
use crate::objects::storage::{
    PersistentVolumeClaim, PersistentVolumeClaimModel, PersistentVolumeClaimSpec, PersistentVolumeClaimSpecModel,
    ResourceRequirements, ResourceRequirementsModel,
};
use crate::objects::workload::{
    StatefulSet, StatefulSetModel, StatefulSetSpec, StatefulSetSpecModel, UpdateStrategy, UpdateStrategyModel,
};
use crate::outside;
use crate::ownership;
use crate::text;
use crate::text_map::TextMap;

use operator_framework::tracker::ConfigTracker;

verus! {

/// The configuration of the broker.
pub const BROKER_CONFIG: &'static str = "# Rabbit configuration

cluster_formation.peer_discovery_backend = rabbit_peer_discovery_k8s
cluster_formation.k8s.address_type = hostname
cluster_formation.node_cleanup.interval = 10
cluster_formation.node_cleanup.only_log_warning = true
cluster_partition_handling = autoheal

loopback_users.guest = false

queue_master_locator = min-masters
";

/// The plugins of the broker.
pub const BROKER_PLUGINS: &'static str = "[rabbitmq_management, rabbitmq_peer_discovery_k8s].";

/// What makes the broker's configuration writable, and adds its user.
pub const BROKER_INIT_SCRIPT: &'static str = "
set -e

cp /etc/config/* /etc/config-rw/
echo \"default_user = ${RABBITMQ_DEFAULT_USER}\" >> /etc/config-rw/rabbitmq.conf
echo \"default_pass = ${RABBITMQ_DEFAULT_PASSWORD}\" >> /etc/config-rw/rabbitmq.conf

";

/// The name of a node of the broker.
pub const BROKER_NODE: &'static str =
    "rabbit@$(MY_POD_NAME).$(K8S_SERVICE_NAME).$(MY_POD_NAMESPACE).svc.cluster.local";

/// The labels of the broker.
pub open spec fn broker_labels(resource: HawkbitModel) -> Map<Seq<char>, Seq<char>> {
    controller::labels(resource, "rabbit"@, "broker"@)
}

/// The service by which the nodes of the broker find each other.
pub open spec fn headless_name(resource: HawkbitModel) -> Seq<char> {
    server::broker_name(resource) + "-headless"@
}

/// The metadata of an object of the broker, or why the object cannot be had.
pub open spec fn broker_meta(meta: ObjectMetaModel, resource: HawkbitModel) -> Result<ObjectMetaModel, Error> {
    match ownership::owned(meta, resource) {
        Err(e) => Err(e),
        Ok(meta) => Ok(ObjectMetaModel { labels: Some(broker_labels(resource)), ..meta }),
    }
}

/// The broker's account, or why there is none.
pub open spec fn account(account: ServiceAccountModel, resource: HawkbitModel) -> Result<ServiceAccountModel, Error> {
    match broker_meta(account.metadata, resource) {
        Err(e) => Err(e),
        Ok(metadata) => Ok(ServiceAccountModel { metadata, ..account }),
    }
}

/// What the broker may do.
pub open spec fn rules() -> Seq<PolicyRuleModel> {
    seq![
        PolicyRuleModel {
            api_groups: seq![""@],
            resources: seq!["endpoints"@],
            verbs: seq!["get"@, "list"@, "watch"@],
        },
        PolicyRuleModel { api_groups: seq![""@], resources: seq!["events"@], verbs: seq!["create"@] },
    ]
}

/// The broker's role, or why there is none.
pub open spec fn role(role: RoleModel, resource: HawkbitModel) -> Result<RoleModel, Error> {
    match broker_meta(role.metadata, resource) {
        Err(e) => Err(e),
        Ok(metadata) => Ok(RoleModel { metadata, rules: Some(rules()) }),
    }
}

/// What gives the role to the account, or why there is none.
pub open spec fn role_binding(binding: RoleBindingModel, resource: HawkbitModel) -> Result<RoleBindingModel, Error> {
    match broker_meta(binding.metadata, resource) {
        Err(e) => Err(e),
        Ok(metadata) => Ok(
            RoleBindingModel {
                metadata,
                subjects: Some(
                    seq![SubjectModel { kind: "ServiceAccount"@, name: server::broker_name(resource) }],
                ),
                role_ref: RoleRefModel {
                    api_group: "rbac.authorization.k8s.io"@,
                    kind: "Role"@,
                    name: server::broker_name(resource),
                },
            },
        ),
    }
}

/// The broker's credentials: those that are there, else standard ones.
pub open spec fn broker_data(data: Option<Map<Seq<char>, Seq<u8>>>) -> Option<Map<Seq<char>, Seq<u8>>> {
    install::with_initial(
        install::with_initial(
            install::with_initial(data, "erlang.cookie"@, "1234"@),
            "default.username"@,
            "hawkbit"@,
        ),
        "default.password"@,
        "hawkbit"@,
    )
}

/// The secret with the broker's credentials, or why there is none.
pub open spec fn secret(secret: SecretModel, resource: HawkbitModel) -> Result<SecretModel, Error> {
    match broker_meta(secret.metadata, resource) {
        Err(e) => Err(e),
        Ok(metadata) => Ok(SecretModel { metadata, data: broker_data(secret.data), ..secret }),
    }
}

/// The broker's config map, or why there is none.
pub open spec fn config_map(config: ConfigMapModel, resource: HawkbitModel) -> Result<ConfigMapModel, Error> {
    match broker_meta(config.metadata, resource) {
        Err(e) => Err(e),
        Ok(metadata) => Ok(
            ConfigMapModel {
                metadata,
                data: install::with_text(
                    install::with_text(config.data, "rabbitmq.conf"@, BROKER_CONFIG@),
                    "enabled_plugins"@,
                    BROKER_PLUGINS@,
                ),
                ..config
            },
        ),
    }
}

/// The environment of the container that prepares the configuration.
pub open spec fn init_env(resource: HawkbitModel) -> Seq<EnvVarModel> {
    seq![
        install::env_secret("RABBITMQ_DEFAULT_USER"@, server::broker_name(resource), "default.username"@),
        install::env_secret("RABBITMQ_DEFAULT_PASSWORD"@, server::broker_name(resource), "default.password"@),
    ]
}

/// The container that prepares the configuration.
pub open spec fn init_container(resource: HawkbitModel) -> ContainerModel {
    ContainerModel {
        name: "init-config"@,
        image: Some("registry.access.redhat.com/ubi8-minimal"@),
        env: Some(init_env(resource)),
        volume_mounts: install::with_mount(
            install::with_mount(None, "config"@, "/etc/config"@, false),
            "config-rw"@,
            "/etc/config-rw"@,
            false,
        ),
        command: Some(seq!["bash"@, "-c"@, BROKER_INIT_SCRIPT@]),
        ..ContainerModel::blank()
    }
}

/// The environment of the broker.
pub open spec fn broker_env(resource: HawkbitModel) -> Seq<EnvVarModel> {
    seq![
        install::env_secret("RABBITMQ_ERLANG_COOKIE"@, server::broker_name(resource), "erlang.cookie"@),
        install::env_field("MY_POD_IP"@, "status.podIP"@),
        install::env_field("MY_POD_NAME"@, "metadata.name"@),
        install::env_field("MY_POD_NAMESPACE"@, "metadata.namespace"@),
        install::env_value("RABBITMQ_FORCE_BOOT"@, "false"@),
        install::env_value("K8S_SERVICE_NAME"@, headless_name(resource)),
        install::env_value(
            "K8S_HOSTNAME_SUFFIX"@,
            ".$(K8S_SERVICE_NAME).$(MY_POD_NAMESPACE).svc.cluster.local"@,
        ),
        install::env_value("RABBITMQ_NODE_NAME"@, BROKER_NODE@),
        install::env_value("RABBITMQ_NODENAME"@, BROKER_NODE@),
        install::env_value("RABBITMQ_USE_LONGNAME"@, "true"@),
    ]
}

/// A check that the broker works.
pub open spec fn broker_probe(command: Seq<char>, delay: i32, timeout: i32) -> ProbeModel {
    ProbeModel::Exec(
        ExecProbeModel {
            command: seq!["rabbitmq-diagnostics"@, command],
            initial_delay_seconds: delay,
            period_seconds: 60,
            timeout_seconds: timeout,
        },
    )
}

/// The broker's container.
pub open spec fn broker_container(container: ContainerModel, resource: HawkbitModel) -> ContainerModel {
    ContainerModel {
        image: Some("docker.io/library/rabbitmq:3"@),
        volume_mounts: install::with_mount(
            install::with_mount(
                install::without::<VolumeMount>(container.volume_mounts, "config"@),
                "config-rw"@,
                "/etc/rabbitmq"@,
                false,
            ),
            "storage"@,
            "/var/lib/rabbitmq/mnesia"@,
            false,
        ),
        env: Some(broker_env(resource)),
        ports: install::with_port(
            install::with_port(
                install::with_port(
                    install::with_port(container.ports, "amqp"@, 5672, "TCP"@),
                    "management"@,
                    15672,
                    "TCP"@,
                ),
                "epmd"@,
                4369,
                "TCP"@,
            ),
            "cluster-links"@,
            25672,
            "TCP"@,
        ),
        liveness_probe: Some(broker_probe("status"@, 30, 15)),
        readiness_probe: Some(broker_probe("ping"@, 20, 10)),
        ..container
    }
}

/// The broker's pod.
pub open spec fn broker_pod(pod: PodSpecModel, resource: HawkbitModel) -> PodSpecModel {
    PodSpecModel {
        service_account: Some(server::broker_name(resource)),
        restart_policy: Some("Always"@),
        init_containers: Some(seq![init_container(resource)]),
        containers: entries::applied::<Container>(
            pod.containers,
            "rabbit"@,
            |c: ContainerModel| broker_container(c, resource),
        ),
        volumes: install::with_empty_dir(
            install::with_config_map(pod.volumes, "config"@, server::broker_name(resource), Some(420)),
            "config-rw"@,
        ),
        ..pod
    }
}

/// The claim that every node of the broker gets.
pub open spec fn claim_template(resource: HawkbitModel) -> PersistentVolumeClaimModel {
    PersistentVolumeClaimModel {
        metadata: ObjectMetaModel {
            labels: Some(broker_labels(resource)),
            name: Some("storage"@),
            ..ObjectMetaModel::blank()
        },
        spec: Some(
            PersistentVolumeClaimSpecModel {
                access_modes: Some(seq!["ReadWriteOnce"@]),
                resources: Some(
                    ResourceRequirementsModel {
                        requests: Some(Map::empty().insert("storage"@, "8Gi"@)),
                        ..ResourceRequirementsModel::blank()
                    },
                ),
                ..PersistentVolumeClaimSpecModel::blank()
            },
        ),
        ..PersistentVolumeClaimModel::blank()
    }
}

/// The metadata of the broker's pods.
pub open spec fn broker_pod_meta(
    meta: Option<ObjectMetaModel>,
    resource: HawkbitModel,
    hash: Seq<char>,
) -> ObjectMetaModel {
    let meta = if meta is Some {
        meta->0
    } else {
        ObjectMetaModel::blank()
    };
    ObjectMetaModel {
        labels: Some(broker_labels(resource)),
        annotations: install::with_text(meta.annotations, "config-hash"@, hash),
        ..meta
    }
}

/// What the broker's stateful set asks for.
pub open spec fn stateful_set_spec(
    spec: StatefulSetSpecModel,
    resource: HawkbitModel,
    hash: Seq<char>,
) -> StatefulSetSpecModel {
    StatefulSetSpecModel {
        service_name: headless_name(resource),
        selector: LabelSelectorModel { match_labels: Some(broker_labels(resource)) },
        template: PodTemplateSpecModel {
            metadata: Some(broker_pod_meta(spec.template.metadata, resource, hash)),
            spec: Some(
                broker_pod(
                    if spec.template.spec is Some {
                        spec.template.spec->0
                    } else {
                        PodSpecModel::blank()
                    },
                    resource,
                ),
            ),
        },
        pod_management_policy: Some("OrderedReady"@),
        update_strategy: Some(UpdateStrategyModel { type_: Some("RollingUpdate"@) }),
        volume_claim_templates: Some(seq![claim_template(resource)]),
        ..spec
    }
}

/// The broker's stateful set, or why there is none.
pub open spec fn stateful_set(
    set: StatefulSetModel,
    resource: HawkbitModel,
    hash: Seq<char>,
) -> Result<StatefulSetModel, Error> {
    match broker_meta(set.metadata, resource) {
        Err(e) => Err(e),
        Ok(metadata) => Ok(
            StatefulSetModel {
                metadata,
                spec: Some(
                    stateful_set_spec(
                        if set.spec is Some {
                            set.spec->0
                        } else {
                            StatefulSetSpecModel::blank()
                        },
                        resource,
                        hash,
                    ),
                ),
                ..set
            },
        ),
    }
}

/// The ports by which the nodes of the broker talk to each other.
pub open spec fn headless_ports() -> Seq<ServicePortModel> {
    seq![
        resources::service_port("amqp"@, 5672),
        resources::service_port("epmd"@, 4369),
        resources::service_port("cluster-links"@, 25672),
    ]
}

/// The ports by which the broker is used.
pub open spec fn broker_ports() -> Seq<ServicePortModel> {
    seq![resources::service_port("amqp"@, 5672), resources::service_port("management"@, 15672)]
}

/// The service by which the nodes of the broker find each other, or why there is none.
pub open spec fn headless_service(service: ServiceModel, resource: HawkbitModel) -> Result<ServiceModel, Error> {
    match broker_meta(service.metadata, resource) {
        Err(e) => Err(e),
        Ok(metadata) => Ok(
            ServiceModel {
                metadata,
                spec: Some(
                    ServiceSpecModel {
                        selector: Some(broker_labels(resource)),
                        type_: Some("ClusterIP"@),
                        cluster_ip: Some("None"@),
                        ports: Some(headless_ports()),
                        ..if service.spec is Some {
                            service.spec->0
                        } else {
                            ServiceSpecModel::blank()
                        }
                    },
                ),
                ..service
            },
        ),
    }
}

/// The service by which the broker is used, or why there is none.
pub open spec fn service(service: ServiceModel, resource: HawkbitModel) -> Result<ServiceModel, Error> {
    match broker_meta(service.metadata, resource) {
        Err(e) => Err(e),
        Ok(metadata) => Ok(
            ServiceModel {
                metadata,
                spec: Some(
                    ServiceSpecModel {
                        selector: Some(broker_labels(resource)),
                        type_: Some("ClusterIP"@),
                        ports: Some(broker_ports()),
                        ..if service.spec is Some {
                            service.spec->0
                        } else {
                            ServiceSpecModel::blank()
                        }
                    },
                ),
                ..service
            },
        ),
    }
}

fn one(text: &str) -> (r: Vec<String>)
    ensures
        r.deep_view() == seq![text@],
{
    let r = vec![text.to_string()];
    assert(r.deep_view() =~= seq![text@]);
    r
}

fn probe(command: &str, delay: i32, timeout: i32) -> (r: Probe)
    ensures
        r.deep_view() == broker_probe(command@, delay, timeout),
{
    let command = vec!["rabbitmq-diagnostics".to_string(), command.to_string()];
    let ghost words = command.deep_view();
    assert(words =~= seq!["rabbitmq-diagnostics"@, words[1]]);
    Probe::Exec(
        ExecProbe { command, initial_delay_seconds: delay, period_seconds: 60, timeout_seconds: timeout },
    )
}

impl HawkbitController {
    fn broker_selector(&self, resource: &Hawkbit) -> (r: TextMap<String>)
        requires
            resource.deep_view().is_named(),
        ensures
            r.deep_view() == broker_labels(resource.deep_view()),
    {
        self.selector(resource, "rabbit", "broker")
    }

    /// The name that the objects of the broker go by.
    pub fn broker_base(&self, resource: &Hawkbit) -> (r: String)
        requires
            resource.deep_view().is_named(),
        ensures
            r@ == server::broker_name(resource.deep_view()),
    {
        text::chain(resource.name().as_str(), "-rabbit")
    }

    /// The name of the service by which the nodes of the broker find each other.
    pub fn broker_headless(&self, resource: &Hawkbit) -> (r: String)
        requires
            resource.deep_view().is_named(),
        ensures
            r@ == headless_name(resource.deep_view()),
    {
        text::chain(self.broker_base(resource).as_str(), "-headless")
    }

    fn broker_metadata(&self, resource: &Hawkbit, meta: ObjectMeta) -> (r: Result<ObjectMeta, Error>)
        requires
            resource.deep_view().is_named(),
        ensures
            error::outcome(r) == broker_meta(meta.deep_view(), resource.deep_view()),
    {
        match ownership::owned_by_controller(meta, resource) {
            Ok(meta) => {
                let mut meta = meta;
                meta.labels = Some(self.broker_selector(resource));
                Ok(meta)
            },
            Err(e) => Err(e),
        }
    }

    /// Brings the broker's account into shape.
    pub fn create_broker_account(
        &self,
        resource: &Hawkbit,
        account: ServiceAccount,
    ) -> (r: Result<ServiceAccount, Error>)
        requires
            resource.deep_view().is_named(),
        ensures
            error::outcome(r) == self::account(account.deep_view(), resource.deep_view()),
    {
        match self.broker_metadata(resource, account.metadata) {
            Ok(metadata) => Ok(ServiceAccount { metadata, rest: account.rest }),
            Err(e) => Err(e),
        }
    }

    /// Brings the broker's role into shape.
    pub fn create_broker_role(&self, resource: &Hawkbit, role: Role) -> (r: Result<Role, Error>)
        requires
            resource.deep_view().is_named(),
        ensures
            error::outcome(r) == self::role(role.deep_view(), resource.deep_view()),
    {
        let metadata = match self.broker_metadata(resource, role.metadata) {
            Ok(metadata) => metadata,
            Err(e) => {
                return Err(e);
            },
        };
        let verbs = vec!["get".to_string(), "list".to_string(), "watch".to_string()];
        assert(verbs.deep_view() =~= seq!["get"@, "list"@, "watch"@]);
        let rules = vec![
            PolicyRule { api_groups: one(""), resources: one("endpoints"), verbs },
            PolicyRule { api_groups: one(""), resources: one("events"), verbs: one("create") },
        ];
        assert(rules.deep_view() =~= self::rules());
        Ok(Role { metadata, rules: Some(rules) })
    }

    /// Brings what gives the role to the account into shape.
    pub fn create_broker_role_binding(
        &self,
        resource: &Hawkbit,
        binding: RoleBinding,
    ) -> (r: Result<RoleBinding, Error>)
        requires
            resource.deep_view().is_named(),
        ensures
            error::outcome(r) == role_binding(binding.deep_view(), resource.deep_view()),
    {
        let metadata = match self.broker_metadata(resource, binding.metadata) {
            Ok(metadata) => metadata,
            Err(e) => {
                return Err(e);
            },
        };
        let subjects = vec![
            Subject { kind: "ServiceAccount".to_string(), name: self.broker_base(resource) },
        ];
        assert(subjects.deep_view() =~= seq![
            SubjectModel { kind: "ServiceAccount"@, name: server::broker_name(resource.deep_view()) },
        ]);
        Ok(
            RoleBinding {
                metadata,
                subjects: Some(subjects),
                role_ref: RoleRef {
                    api_group: "rbac.authorization.k8s.io".to_string(),
                    kind: "Role".to_string(),
                    name: self.broker_base(resource),
                },
            },
        )
    }

    /// Brings the secret with the broker's credentials into shape, and hashes it.
    pub fn create_broker_secret(
        &self,
        resource: &Hawkbit,
        secret: Secret,
        tracker: &mut ConfigTracker,
    ) -> (r: Result<Secret, Error>)
        requires
            resource.deep_view().is_named(),
        ensures
            error::outcome(r) == self::secret(secret.deep_view(), resource.deep_view()),
            outside::taken_in(*final(tracker)) == match r {
                Ok(secret) => outside::taken_in(*old(tracker)) + content::byte_content(secret.data.deep_view()),
                Err(_) => outside::taken_in(*old(tracker)),
            },
    {
        let metadata = match self.broker_metadata(resource, secret.metadata) {
            Ok(metadata) => metadata,
            Err(e) => {
                return Err(e);
            },
        };
        let mut data = secret.data;
        install::init_string(&mut data, "erlang.cookie", "1234");
        install::init_string(&mut data, "default.username", "hawkbit");
        install::init_string(&mut data, "default.password", "hawkbit");
        content::track_bytes(tracker, &data);
        Ok(Secret { metadata, data, rest: secret.rest })
    }

    /// Brings the broker's config map into shape, and hashes it.
    pub fn create_broker_config(
        &self,
        resource: &Hawkbit,
        config: ConfigMap,
        tracker: &mut ConfigTracker,
    ) -> (r: Result<ConfigMap, Error>)
        requires
            resource.deep_view().is_named(),
        ensures
            error::outcome(r) == config_map(config.deep_view(), resource.deep_view()),
            outside::taken_in(*final(tracker)) == match r {
                Ok(config) => outside::taken_in(*old(tracker)) + content::text_content(config.data.deep_view()),
                Err(_) => outside::taken_in(*old(tracker)),
            },
    {
        let metadata = match self.broker_metadata(resource, config.metadata) {
            Ok(metadata) => metadata,
            Err(e) => {
                return Err(e);
            },
        };
        let mut data = config.data;
        install::append_string(&mut data, "rabbitmq.conf", BROKER_CONFIG);
        install::append_string(&mut data, "enabled_plugins", BROKER_PLUGINS);
        content::track_texts(tracker, &data);
        Ok(ConfigMap { metadata, data, rest: config.rest })
    }

    /// The container that prepares the configuration.
    fn broker_init(&self, resource: &Hawkbit) -> (r: Container)
        requires
            resource.deep_view().is_named(),
        ensures
            r.deep_view() == init_container(resource.deep_view()),
    {
        let base = self.broker_base(resource);
        let mut container = Container::default();
        container.name = "init-config".to_string();
        container.image = Some("registry.access.redhat.com/ubi8-minimal".to_string());
        let mut env: Vec<EnvVar> = Vec::new();
        assert(env.deep_view() =~= Seq::empty());
        install::add_env_from_secret(&mut env, "RABBITMQ_DEFAULT_USER", base.as_str(), "default.username");
        install::add_env_from_secret(&mut env, "RABBITMQ_DEFAULT_PASSWORD", base.as_str(), "default.password");
        proof {
            let none = Seq::<EnvVarModel>::empty();
            let variables = init_env(resource.deep_view());
            install::lemma_with_next(none, variables, 0);
            install::lemma_with_next(none, variables, 1);
            wiring::lemma_broker_env_is_distinct(resource.deep_view());
            install::lemma_from_nothing(variables);
        }
        container.env = Some(env);
        install::add_mount(&mut container.volume_mounts, "config", "/etc/config", false);
        install::add_mount(&mut container.volume_mounts, "config-rw", "/etc/config-rw", false);
        let command = vec!["bash".to_string(), "-c".to_string(), BROKER_INIT_SCRIPT.to_string()];
        assert(command.deep_view() =~= seq!["bash"@, "-c"@, BROKER_INIT_SCRIPT@]);
        container.command = Some(command);
        container
    }

    /// The environment of the broker.
    fn broker_environment(&self, resource: &Hawkbit) -> (r: Vec<EnvVar>)
        requires
            resource.deep_view().is_named(),
        ensures
            r.deep_view() == broker_env(resource.deep_view()),
    {
        let base = self.broker_base(resource);
        let headless = self.broker_headless(resource);
        let mut env: Vec<EnvVar> = Vec::new();
        assert(env.deep_view() =~= Seq::empty());
        install::add_env_from_secret(&mut env, "RABBITMQ_ERLANG_COOKIE", base.as_str(), "erlang.cookie");
        install::add_env_from_field_path(&mut env, "MY_POD_IP", "status.podIP");
        install::add_env_from_field_path(&mut env, "MY_POD_NAME", "metadata.name");
        install::add_env_from_field_path(&mut env, "MY_POD_NAMESPACE", "metadata.namespace");
        install::add_env(&mut env, "RABBITMQ_FORCE_BOOT", "false");
        install::add_env(&mut env, "K8S_SERVICE_NAME", headless.as_str());
        install::add_env(
            &mut env,
            "K8S_HOSTNAME_SUFFIX",
            ".$(K8S_SERVICE_NAME).$(MY_POD_NAMESPACE).svc.cluster.local",
        );
        install::add_env(&mut env, "RABBITMQ_NODE_NAME", BROKER_NODE);
        install::add_env(&mut env, "RABBITMQ_NODENAME", BROKER_NODE);
        install::add_env(&mut env, "RABBITMQ_USE_LONGNAME", "true");
        proof {
            let none = Seq::<EnvVarModel>::empty();
            let variables = broker_env(resource.deep_view());
            install::lemma_with_next(none, variables, 0);
            install::lemma_with_next(none, variables, 1);
            install::lemma_with_next(none, variables, 2);
            install::lemma_with_next(none, variables, 3);
            install::lemma_with_next(none, variables, 4);
            install::lemma_with_next(none, variables, 5);
            install::lemma_with_next(none, variables, 6);
            install::lemma_with_next(none, variables, 7);
            install::lemma_with_next(none, variables, 8);
            install::lemma_with_next(none, variables, 9);
            wiring::lemma_broker_env_is_distinct(resource.deep_view());
            install::lemma_from_nothing(variables);
        }
        env
    }

    /// Fills in the broker's container.
    fn apply_broker_container(&self, container: &mut Container, resource: &Hawkbit)
        requires
            resource.deep_view().is_named(),
        ensures
            final(container).deep_view() == broker_container(old(container).deep_view(), resource.deep_view()),
    {
        container.image = Some("docker.io/library/rabbitmq:3".to_string());
        install::drop_entry(&mut container.volume_mounts, "config");
        install::add_mount(&mut container.volume_mounts, "config-rw", "/etc/rabbitmq", false);
        install::add_mount(&mut container.volume_mounts, "storage", "/var/lib/rabbitmq/mnesia", false);
        container.env = Some(self.broker_environment(resource));
        install::add_port(&mut container.ports, "amqp", 5672, "TCP");
        install::add_port(&mut container.ports, "management", 15672, "TCP");
        install::add_port(&mut container.ports, "epmd", 4369, "TCP");
        install::add_port(&mut container.ports, "cluster-links", 25672, "TCP");
        container.liveness_probe = Some(probe("status", 30, 15));
        container.readiness_probe = Some(probe("ping", 20, 10));
    }

    /// Fills in the broker's pod.
    fn apply_broker_pod(&self, pod: &mut PodSpec, resource: &Hawkbit)
        requires
            resource.deep_view().is_named(),
        ensures
            final(pod).deep_view() == broker_pod(old(pod).deep_view(), resource.deep_view()),
    {
        let base = self.broker_base(resource);
        pod.service_account = Some(self.broker_base(resource));
        pod.restart_policy = Some("Always".to_string());
        let inits = vec![self.broker_init(resource)];
        assert(inits.deep_view() =~= seq![init_container(resource.deep_view())]);
        pod.init_containers = Some(inits);
        install::add_config_map(&mut pod.volumes, "config", base.as_str(), Some(420));
        install::add_empty_dir(&mut pod.volumes, "config-rw");
        let ghost start = pod.containers.deep_view();
        let at = entries::find_or_add(&mut pod.containers, "rabbit");
        let ghost before = pod.containers.deep_view();
        self.apply_broker_container(&mut pod.containers[at], resource);
        assert(pod.containers.deep_view() =~= before.update(
            at as int,
            broker_container(before[at as int], resource.deep_view()),
        ));
        assert(pod.containers.deep_view() =~= entries::applied::<Container>(
            start,
            "rabbit"@,
            |c: ContainerModel| broker_container(c, resource.deep_view()),
        ));
    }

    /// The claim that every node of the broker gets.
    fn broker_claim(&self, resource: &Hawkbit) -> (r: PersistentVolumeClaim)
        requires
            resource.deep_view().is_named(),
        ensures
            r.deep_view() == claim_template(resource.deep_view()),
    {
        let mut metadata = ObjectMeta::default();
        metadata.labels = Some(self.broker_selector(resource));
        metadata.name = Some("storage".to_string());
        let mut requests = TextMap::new();
        requests.insert("storage".to_string(), "8Gi".to_string());
        let mut resources = ResourceRequirements::default();
        resources.requests = Some(requests);
        let mut spec = PersistentVolumeClaimSpec::default();
        spec.access_modes = Some(one("ReadWriteOnce"));
        spec.resources = Some(resources);
        PersistentVolumeClaim { metadata, spec: Some(spec), rest: None }
    }

    /// Brings the broker's stateful set into shape.
    pub fn create_broker_set(
        &self,
        resource: &Hawkbit,
        set: StatefulSet,
        tracker: &ConfigTracker,
    ) -> (r: Result<StatefulSet, Error>)
        requires
            resource.deep_view().is_named(),
        ensures
            error::outcome(r) == stateful_set(
                set.deep_view(),
                resource.deep_view(),
                outside::digest(outside::taken_in(*tracker)),
            ),
    {
        let metadata = match self.broker_metadata(resource, set.metadata) {
            Ok(metadata) => metadata,
            Err(e) => {
                return Err(e);
            },
        };
        let mut spec = match set.spec {
            Some(spec) => spec,
            None => StatefulSetSpec::default(),
        };
        let mut pod_meta = match spec.template.metadata {
            Some(meta) => meta,
            None => ObjectMeta::default(),
        };
        let mut pod = match spec.template.spec {
            Some(pod) => pod,
            None => PodSpec::default(),
        };
        let hash = tracker.current_hash();
        pod_meta.labels = Some(self.broker_selector(resource));
        install::append_string(&mut pod_meta.annotations, "config-hash", hash.as_str());
        self.apply_broker_pod(&mut pod, resource);
        spec.service_name = self.broker_headless(resource);
        spec.selector = LabelSelector { match_labels: Some(self.broker_selector(resource)) };
        spec.template = PodTemplateSpec { metadata: Some(pod_meta), spec: Some(pod) };
        spec.pod_management_policy = Some("OrderedReady".to_string());
        spec.update_strategy = Some(UpdateStrategy { type_: Some("RollingUpdate".to_string()) });
        let claims = vec![self.broker_claim(resource)];
        assert(claims.deep_view() =~= seq![claim_template(resource.deep_view())]);
        spec.volume_claim_templates = Some(claims);
        Ok(StatefulSet { metadata, spec: Some(spec), rest: set.rest })
    }

    /// Brings the service by which the nodes of the broker find each other into shape.
    pub fn create_broker_headless_service(
        &self,
        resource: &Hawkbit,
        service: Service,
    ) -> (r: Result<Service, Error>)
        requires
            resource.deep_view().is_named(),
        ensures
            error::outcome(r) == headless_service(service.deep_view(), resource.deep_view()),
    {
        let metadata = match self.broker_metadata(resource, service.metadata) {
            Ok(metadata) => metadata,
            Err(e) => {
                return Err(e);
            },
        };
        let mut spec = match service.spec {
            Some(spec) => spec,
            None => ServiceSpec::default(),
        };
        spec.selector = Some(self.broker_selector(resource));
        spec.type_ = Some("ClusterIP".to_string());
        spec.cluster_ip = Some("None".to_string());
        let ports = vec![
            resources::tcp_port("amqp", 5672),
            resources::tcp_port("epmd", 4369),
            resources::tcp_port("cluster-links", 25672),
        ];
        assert(ports.deep_view() =~= headless_ports());
        spec.ports = Some(ports);
        Ok(Service { metadata, spec: Some(spec), rest: service.rest })
    }

    /// Brings the service by which the broker is used into shape.
    pub fn create_broker_service(&self, resource: &Hawkbit, service: Service) -> (r: Result<Service, Error>)
        requires
            resource.deep_view().is_named(),
        ensures
            error::outcome(r) == self::service(service.deep_view(), resource.deep_view()),
    {
        let metadata = match self.broker_metadata(resource, service.metadata) {
            Ok(metadata) => metadata,
            Err(e) => {
                return Err(e);
            },
        };
        let mut spec = match service.spec {
            Some(spec) => spec,
            None => ServiceSpec::default(),
        };
        spec.selector = Some(self.broker_selector(resource));
        spec.type_ = Some("ClusterIP".to_string());
        let ports = vec![resources::tcp_port("amqp", 5672), resources::tcp_port("management", 15672)];
        assert(ports.deep_view() =~= broker_ports());
        spec.ports = Some(ports);
        Ok(Service { metadata, spec: Some(spec), rest: service.rest })
    }
}

} // verus!
