use hawkbit_operator::controller::HawkbitController;
use hawkbit_operator::crd::{Database, Embedded, Hawkbit, HawkbitSpec, Rabbit, RabbitManaged};
use hawkbit_operator::error::Error;
use hawkbit_operator::objects::config::{ConfigMap, PolicyRule, Role, RoleBinding, RoleRef, Secret, ServiceAccount, Subject};
use hawkbit_operator::objects::meta::ObjectMeta;
use hawkbit_operator::objects::network::{Service, ServiceSpec};
use hawkbit_operator::objects::pod::{Container, EnvVarSource, ExecProbe, PodSpec, PodTemplateSpec, Probe, VolumeMount};
use hawkbit_operator::objects::workload::{StatefulSet, StatefulSetSpec};
use hawkbit_operator::text_map::TextMap;
use operator_framework::tracker::ConfigTracker;

fn instance() -> Hawkbit {
    Hawkbit {
        metadata: ObjectMeta {
            name: Some("default".to_string()),
            namespace: Some("ns".to_string()),
            uid: Some("123".to_string()),
            ..ObjectMeta::default()
        },
        spec: HawkbitSpec {
            database: Database { embedded: Some(Embedded {}), ..Database::default() },
            rabbit: Rabbit { managed: Some(RabbitManaged::default()), ..Rabbit::default() },
            ..HawkbitSpec::default()
        },
        status: None,
    }
}

fn found(name: &str) -> ObjectMeta {
    ObjectMeta { name: Some(name.to_string()), namespace: Some("ns".to_string()), ..ObjectMeta::default() }
}

fn label(labels: &Option<TextMap<String>>, key: &str) -> String {
    labels.as_ref().unwrap().get(key).unwrap().clone()
}

fn rules() -> HawkbitController {
    HawkbitController::new("ns", false)
}

fn strings(list: Vec<&str>) -> Vec<String> {
    list.into_iter().map(|s| s.to_string()).collect()
}

fn new_set() -> StatefulSet {
    let set = StatefulSet { metadata: found("default-rabbit"), ..StatefulSet::default() };
    rules().create_broker_set(&instance(), set, &ConfigTracker::new()).unwrap()
}

fn pod(set: &StatefulSet) -> &PodSpec {
    set.spec.as_ref().unwrap().template.spec.as_ref().unwrap()
}

#[test]
fn the_broker_goes_by_the_name_of_the_instance() {
    assert_eq!(rules().broker_base(&instance()), "default-rabbit");
    assert_eq!(rules().broker_headless(&instance()), "default-rabbit-headless");
}

#[test]
fn the_brokers_account_is_labelled() {
    let account = ServiceAccount { metadata: found("default-rabbit"), ..ServiceAccount::default() };
    let account = rules().create_broker_account(&instance(), account).unwrap();
    assert_eq!(label(&account.metadata.labels, "app.kubernetes.io/name"), "rabbit");
    assert_eq!(label(&account.metadata.labels, "app.kubernetes.io/instance"), "rabbit-default");
    assert_eq!(label(&account.metadata.labels, "app.kubernetes.io/component"), "broker");
    assert_eq!(
        rules().create_broker_account(&instance(), ServiceAccount::default()).unwrap_err(),
        Error::ClusterScoped
    );
}

#[test]
fn the_broker_may_find_its_nodes() {
    let role = Role { metadata: found("default-rabbit"), ..Role::default() };
    let role = rules().create_broker_role(&instance(), role).unwrap();
    assert_eq!(
        role.rules,
        Some(vec![
            PolicyRule {
                api_groups: strings(vec![""]),
                resources: strings(vec!["endpoints"]),
                verbs: strings(vec!["get", "list", "watch"]),
            },
            PolicyRule {
                api_groups: strings(vec![""]),
                resources: strings(vec!["events"]),
                verbs: strings(vec!["create"]),
            },
        ])
    );
}

#[test]
fn the_role_is_bound_to_the_account() {
    let binding = RoleBinding { metadata: found("default-rabbit"), ..RoleBinding::default() };
    let binding = rules().create_broker_role_binding(&instance(), binding).unwrap();
    assert_eq!(
        binding.subjects,
        Some(vec![Subject { kind: "ServiceAccount".to_string(), name: "default-rabbit".to_string() }])
    );
    assert_eq!(
        binding.role_ref,
        RoleRef {
            api_group: "rbac.authorization.k8s.io".to_string(),
            kind: "Role".to_string(),
            name: "default-rabbit".to_string(),
        }
    );
}

#[test]
fn the_broker_has_standard_credentials() {
    let mut tracker = ConfigTracker::new();
    let secret = Secret { metadata: found("default-rabbit"), ..Secret::default() };
    let secret = rules().create_broker_secret(&instance(), secret, &mut tracker).unwrap();
    let data = secret.data.unwrap();
    assert_eq!(data.get("erlang.cookie"), Some(&b"1234".to_vec()));
    assert_eq!(data.get("default.username"), Some(&b"hawkbit".to_vec()));
    assert_eq!(data.get("default.password"), Some(&b"hawkbit".to_vec()));
    let mut expected = ConfigTracker::new();
    expected.track(b"hawkbithawkbit1234");
    assert_eq!(tracker.current_hash(), expected.current_hash());
}

#[test]
fn the_brokers_credentials_are_kept() {
    let mut data = TextMap::new();
    data.insert("default.password".to_string(), b"mine".to_vec());
    let secret = Secret { metadata: found("default-rabbit"), data: Some(data), rest: None };
    let secret = rules().create_broker_secret(&instance(), secret, &mut ConfigTracker::new()).unwrap();
    assert_eq!(secret.data.unwrap().get("default.password"), Some(&b"mine".to_vec()));
}

#[test]
fn the_broker_is_configured() {
    let mut tracker = ConfigTracker::new();
    let config = ConfigMap { metadata: found("default-rabbit"), ..ConfigMap::default() };
    let config = rules().create_broker_config(&instance(), config, &mut tracker).unwrap();
    let data = config.data.unwrap();
    assert_eq!(data.entries().len(), 2);
    let plugins = "[rabbitmq_management, rabbitmq_peer_discovery_k8s].";
    assert_eq!(data.get("enabled_plugins"), Some(&plugins.to_string()));
    let text = r#"# Rabbit configuration

cluster_formation.peer_discovery_backend = rabbit_peer_discovery_k8s
cluster_formation.k8s.address_type = hostname
cluster_formation.node_cleanup.interval = 10
cluster_formation.node_cleanup.only_log_warning = true
cluster_partition_handling = autoheal

loopback_users.guest = false

queue_master_locator = min-masters
"#;
    assert_eq!(data.get("rabbitmq.conf"), Some(&text.to_string()));
    let mut expected = ConfigTracker::new();
    expected.track(plugins.as_bytes());
    expected.track(text.as_bytes());
    assert_eq!(tracker.current_hash(), expected.current_hash());
}

#[test]
fn a_new_set_is_filled_in() {
    let set = new_set();
    assert_eq!(label(&set.metadata.labels, "app.kubernetes.io/component"), "broker");
    let spec = set.spec.as_ref().unwrap();
    assert_eq!(spec.service_name, "default-rabbit-headless");
    assert_eq!(spec.pod_management_policy, Some("OrderedReady".to_string()));
    assert_eq!(spec.update_strategy.as_ref().unwrap().type_, Some("RollingUpdate".to_string()));
    assert_eq!(label(&spec.selector.match_labels, "app.kubernetes.io/instance"), "rabbit-default");
    let pods = spec.template.metadata.as_ref().unwrap();
    assert_eq!(label(&pods.labels, "app.kubernetes.io/instance"), "rabbit-default");
    assert_eq!(label(&pods.annotations, "config-hash"), "da39a3ee5e6b4b0d3255bfef95601890afd80709");
    let claims = spec.volume_claim_templates.as_ref().unwrap();
    assert_eq!(claims.len(), 1);
    assert_eq!(claims[0].metadata.name, Some("storage".to_string()));
    assert_eq!(label(&claims[0].metadata.labels, "app.kubernetes.io/name"), "rabbit");
    let claim = claims[0].spec.as_ref().unwrap();
    assert_eq!(claim.access_modes, Some(strings(vec!["ReadWriteOnce"])));
    assert_eq!(label(&claim.resources.as_ref().unwrap().requests, "storage"), "8Gi");
    assert_eq!(claim.resources.as_ref().unwrap().limits, None);
}

#[test]
fn the_brokers_pod_is_filled_in() {
    let set = new_set();
    let pod = pod(&set);
    assert_eq!(pod.service_account, Some("default-rabbit".to_string()));
    assert_eq!(pod.restart_policy, Some("Always".to_string()));
    let volumes = pod.volumes.as_ref().unwrap();
    assert_eq!(volumes.len(), 2);
    assert_eq!(volumes[0].name, "config");
    assert_eq!(volumes[0].config_map.as_ref().unwrap().name, Some("default-rabbit".to_string()));
    assert_eq!(volumes[0].config_map.as_ref().unwrap().default_mode, Some(420));
    assert_eq!(volumes[1].name, "config-rw");
    assert!(volumes[1].empty_dir.is_some());
    let inits = pod.init_containers.as_ref().unwrap();
    assert_eq!(inits.len(), 1);
    assert_eq!(inits[0].name, "init-config");
    assert_eq!(inits[0].image, Some("registry.access.redhat.com/ubi8-minimal".to_string()));
    let env = inits[0].env.as_ref().unwrap();
    assert_eq!(env.len(), 2);
    assert_eq!(env[0].name, "RABBITMQ_DEFAULT_USER");
    assert_eq!(env[1].name, "RABBITMQ_DEFAULT_PASSWORD");
    assert_eq!(
        env[1].value_from,
        Some(EnvVarSource::SecretKey { name: "default-rabbit".to_string(), key: "default.password".to_string() })
    );
    let mounts = inits[0].volume_mounts.as_ref().unwrap();
    assert_eq!(mounts.len(), 2);
    assert_eq!(mounts[0].mount_path, "/etc/config");
    assert_eq!(mounts[1].mount_path, "/etc/config-rw");
    let script = r#"
set -e

cp /etc/config/* /etc/config-rw/
echo "default_user = ${RABBITMQ_DEFAULT_USER}" >> /etc/config-rw/rabbitmq.conf
echo "default_pass = ${RABBITMQ_DEFAULT_PASSWORD}" >> /etc/config-rw/rabbitmq.conf

"#;
    assert_eq!(inits[0].command, Some(strings(vec!["bash", "-c", script])));
}

#[test]
fn the_brokers_container_is_filled_in() {
    let set = new_set();
    let containers = &pod(&set).containers;
    assert_eq!(containers.len(), 1);
    let broker = &containers[0];
    assert_eq!(broker.name, "rabbit");
    assert_eq!(broker.image, Some("docker.io/library/rabbitmq:3".to_string()));
    let env: Vec<(String, String)> = broker
        .env
        .as_ref()
        .unwrap()
        .iter()
        .map(|e| {
            let value = match (&e.value, &e.value_from) {
                (Some(value), None) => value.clone(),
                (None, Some(EnvVarSource::SecretKey { name, key })) => format!("{}:{}", name, key),
                (None, Some(EnvVarSource::FieldPath { path })) => format!("@{}", path),
                _ => panic!("{:?}", e),
            };
            (e.name.clone(), value)
        })
        .collect();
    let node = "rabbit@$(MY_POD_NAME).$(K8S_SERVICE_NAME).$(MY_POD_NAMESPACE).svc.cluster.local";
    let expected: Vec<(String, String)> = vec![
        ("RABBITMQ_ERLANG_COOKIE", "default-rabbit:erlang.cookie"),
        ("MY_POD_IP", "@status.podIP"),
        ("MY_POD_NAME", "@metadata.name"),
        ("MY_POD_NAMESPACE", "@metadata.namespace"),
        ("RABBITMQ_FORCE_BOOT", "false"),
        ("K8S_SERVICE_NAME", "default-rabbit-headless"),
        ("K8S_HOSTNAME_SUFFIX", ".$(K8S_SERVICE_NAME).$(MY_POD_NAMESPACE).svc.cluster.local"),
        ("RABBITMQ_NODE_NAME", node),
        ("RABBITMQ_NODENAME", node),
        ("RABBITMQ_USE_LONGNAME", "true"),
    ]
    .into_iter()
    .map(|(a, b)| (a.to_string(), b.to_string()))
    .collect();
    assert_eq!(env, expected);
    let ports: Vec<(String, i32)> =
        broker.ports.as_ref().unwrap().iter().map(|p| (p.name.clone().unwrap(), p.container_port)).collect();
    assert_eq!(
        ports,
        vec![
            ("amqp".to_string(), 5672),
            ("management".to_string(), 15672),
            ("epmd".to_string(), 4369),
            ("cluster-links".to_string(), 25672),
        ]
    );
    assert_eq!(
        broker.liveness_probe,
        Some(Probe::Exec(ExecProbe {
            command: strings(vec!["rabbitmq-diagnostics", "status"]),
            initial_delay_seconds: 30,
            period_seconds: 60,
            timeout_seconds: 15,
        }))
    );
    assert_eq!(
        broker.readiness_probe,
        Some(Probe::Exec(ExecProbe {
            command: strings(vec!["rabbitmq-diagnostics", "ping"]),
            initial_delay_seconds: 20,
            period_seconds: 60,
            timeout_seconds: 10,
        }))
    );
    let mounts: Vec<(String, String)> = broker
        .volume_mounts
        .as_ref()
        .unwrap()
        .iter()
        .map(|m| (m.name.clone(), m.mount_path.clone()))
        .collect();
    assert_eq!(
        mounts,
        vec![
            ("config-rw".to_string(), "/etc/rabbitmq".to_string()),
            ("storage".to_string(), "/var/lib/rabbitmq/mnesia".to_string()),
        ]
    );
}

#[test]
fn an_old_set_is_brought_into_shape() {
    let mut annotations = TextMap::new();
    annotations.insert("mine".to_string(), "1".to_string());
    annotations.insert("config-hash".to_string(), "old".to_string());
    let mount = |name: &str| VolumeMount { name: name.to_string(), ..VolumeMount::default() };
    let set = StatefulSet {
        metadata: found("default-rabbit"),
        spec: Some(StatefulSetSpec {
            template: PodTemplateSpec {
                metadata: Some(ObjectMeta { annotations: Some(annotations), ..ObjectMeta::default() }),
                spec: Some(PodSpec {
                    init_containers: Some(vec![Container { name: "old".to_string(), ..Container::default() }]),
                    containers: vec![Container {
                        name: "rabbit".to_string(),
                        volume_mounts: Some(vec![mount("config"), mount("mine"), mount("config")]),
                        ..Container::default()
                    }],
                    ..PodSpec::default()
                }),
            },
            ..StatefulSetSpec::default()
        }),
        rest: None,
    };
    let set = rules().create_broker_set(&instance(), set, &ConfigTracker::new()).unwrap();
    let pods = set.spec.as_ref().unwrap().template.metadata.as_ref().unwrap();
    assert_eq!(label(&pods.annotations, "mine"), "1");
    assert_eq!(label(&pods.annotations, "config-hash"), "da39a3ee5e6b4b0d3255bfef95601890afd80709");
    let inits = pod(&set).init_containers.as_ref().unwrap();
    assert_eq!(inits.len(), 1);
    assert_eq!(inits[0].name, "init-config");
    let names: Vec<&str> =
        pod(&set).containers[0].volume_mounts.as_ref().unwrap().iter().map(|m| m.name.as_str()).collect();
    assert_eq!(names, vec!["mine", "config-rw", "storage"]);
}

#[test]
fn a_second_set_is_the_same() {
    let twice = rules().create_broker_set(&instance(), new_set(), &ConfigTracker::new()).unwrap();
    assert_eq!(twice, new_set());
}

#[test]
fn the_nodes_find_each_other() {
    let service = Service { metadata: found("default-rabbit-headless"), ..Service::default() };
    let service = rules().create_broker_headless_service(&instance(), service).unwrap();
    let spec = service.spec.unwrap();
    assert_eq!(spec.cluster_ip, Some("None".to_string()));
    assert_eq!(spec.type_, Some("ClusterIP".to_string()));
    assert_eq!(label(&spec.selector, "app.kubernetes.io/component"), "broker");
    let ports: Vec<(String, i32)> =
        spec.ports.unwrap().into_iter().map(|p| (p.target_port.unwrap(), p.port)).collect();
    assert_eq!(
        ports,
        vec![("amqp".to_string(), 5672), ("epmd".to_string(), 4369), ("cluster-links".to_string(), 25672)]
    );
}

#[test]
fn the_broker_can_be_used() {
    let service = Service {
        metadata: found("default-rabbit"),
        spec: Some(ServiceSpec { cluster_ip: Some("1.2.3.4".to_string()), ..ServiceSpec::default() }),
        rest: None,
    };
    let service = rules().create_broker_service(&instance(), service).unwrap();
    let spec = service.spec.unwrap();
    assert_eq!(spec.cluster_ip, Some("1.2.3.4".to_string()));
    assert_eq!(spec.type_, Some("ClusterIP".to_string()));
    let ports: Vec<(Option<String>, i32)> = spec.ports.unwrap().into_iter().map(|p| (p.name, p.port)).collect();
    assert_eq!(ports, vec![(Some("amqp".to_string()), 5672), (Some("management".to_string()), 15672)]);
}
