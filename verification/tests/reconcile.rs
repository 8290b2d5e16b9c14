use std::collections::BTreeMap;

use hawkbit_operator::controller::reconcile::{Action, Reconciliation, Step};
use hawkbit_operator::controller::target::Target;
use hawkbit_operator::controller::HawkbitController;
use hawkbit_operator::crd::{
    Database, Embedded, Hawkbit, HawkbitSpec, HawkbitStatus, KeycloakConfig, MySQL, Rabbit, RabbitExternal,
    RabbitManaged, SignOn,
};
use hawkbit_operator::error::Error;
use hawkbit_operator::objects::config::{ConfigMap, Role, RoleBinding, Secret, ServiceAccount};
use hawkbit_operator::objects::keycloak::{
    Keycloak, KeycloakClient, KeycloakRealm, KeycloakStatus, KeycloakUser,
};
use hawkbit_operator::objects::meta::{ObjectMeta, OwnerReference};
use hawkbit_operator::objects::network::{Route, Service};
use hawkbit_operator::objects::object::{Kind, Object};
use hawkbit_operator::objects::storage::PersistentVolumeClaim;
use hawkbit_operator::objects::workload::{Deployment, StatefulSet};

fn instance() -> Hawkbit {
    Hawkbit {
        metadata: ObjectMeta {
            name: Some("default".to_string()),
            namespace: Some("ns".to_string()),
            uid: Some("123".to_string()),
            ..ObjectMeta::default()
        },
        spec: HawkbitSpec {
            database: Database { embedded: Some(Embedded {}), ..Database::default() },
            rabbit: Rabbit { managed: Some(RabbitManaged::default()), ..Rabbit::default() },
            ..HawkbitSpec::default()
        },
        status: None,
    }
}

fn signing_on(url: Option<&str>) -> Hawkbit {
    let mut resource = instance();
    resource.spec.sign_on = Some(SignOn::Keycloak {
        config: KeycloakConfig { use_instance: None, hawkbit_url: url.map(|s| s.to_string()) },
    });
    resource
}

fn external() -> Hawkbit {
    let mut resource = instance();
    resource.spec.rabbit = Rabbit { external: Some(RabbitExternal::default()), managed: None };
    resource.spec.database = Database { mysql: Some(MySQL::default()), ..Database::default() };
    resource
}

fn fresh(kind: Kind, name: &str) -> Object {
    let metadata =
        ObjectMeta { name: Some(name.to_string()), namespace: Some("ns".to_string()), ..ObjectMeta::default() };
    match kind {
        Kind::ServiceAccount => Object::ServiceAccount(ServiceAccount { metadata, ..ServiceAccount::default() }),
        Kind::Role => Object::Role(Role { metadata, ..Role::default() }),
        Kind::RoleBinding => Object::RoleBinding(RoleBinding { metadata, ..RoleBinding::default() }),
        Kind::Secret => Object::Secret(Secret { metadata, ..Secret::default() }),
        Kind::ConfigMap => Object::ConfigMap(ConfigMap { metadata, ..ConfigMap::default() }),
        Kind::StatefulSet => Object::StatefulSet(StatefulSet { metadata, ..StatefulSet::default() }),
        Kind::Deployment => Object::Deployment(Deployment { metadata, ..Deployment::default() }),
        Kind::Service => Object::Service(Service { metadata, ..Service::default() }),
        Kind::Route => Object::Route(Route { metadata, ..Route::default() }),
        Kind::PersistentVolumeClaim => {
            Object::PersistentVolumeClaim(PersistentVolumeClaim { metadata, ..PersistentVolumeClaim::default() })
        }
        Kind::Keycloak => Object::Keycloak(Keycloak { metadata, ..Keycloak::default() }),
        Kind::KeycloakRealm => Object::KeycloakRealm(KeycloakRealm { metadata, ..KeycloakRealm::default() }),
        Kind::KeycloakClient => Object::KeycloakClient(KeycloakClient { metadata, ..KeycloakClient::default() }),
        Kind::KeycloakUser => Object::KeycloakUser(KeycloakUser { metadata, ..KeycloakUser::default() }),
    }
}

/// The objects of a namespace, and what has been written to it.
struct Cluster {
    objects: BTreeMap<String, Object>,
    written: Vec<String>,
}

fn key(kind: Kind, name: &str) -> String {
    format!("{:?}/{}", kind, name)
}

impl Cluster {
    fn new() -> Self {
        Cluster { objects: BTreeMap::new(), written: vec![] }
    }

    fn put(&mut self, object: Object, name: &str) {
        self.objects.insert(key(object.kind(), name), object);
    }

    fn run(&mut self, rules: &HawkbitController, resource: Hawkbit, instances: &Vec<Keycloak>) -> Result<(), String> {
        let mut run = rules.do_reconcile(resource);
        loop {
            match run.action() {
                Action::Apply { target, name } => self.apply(&mut run, target, &name),
                Action::Delete { target, name } => {
                    if self.objects.remove(&key(target.kind(), &name)).is_some() {
                        self.written.push(format!("-{}", key(target.kind(), &name)));
                    }
                    run.succeeded();
                }
                Action::ListKeycloaks { .. } => run.listed(instances),
                Action::Done => return Ok(()),
                Action::Failed { message } => return Err(message),
            }
        }
    }

    fn apply(&mut self, run: &mut Reconciliation, target: Target, name: &str) {
        let key = key(target.kind(), name);
        let object = self.objects.remove(&key);
        let before = object.as_ref().map(|o| format!("{:?}", o));
        let object = match object {
            Some(object) => object,
            None => fresh(target.kind(), name),
        };
        match run.apply(object) {
            Ok(object) => {
                if before != Some(format!("{:?}", object)) {
                    self.written.push(key.clone());
                }
                self.objects.insert(key, object);
                run.succeeded();
            }
            Err(e) => run.failed(e.message()),
        }
    }

    fn labels_of_server(&self) -> Vec<(String, String)> {
        match self.objects.get("Deployment/default") {
            Some(Object::Deployment(d)) => d
                .spec
                .as_ref()
                .unwrap()
                .template
                .metadata
                .as_ref()
                .unwrap()
                .labels
                .as_ref()
                .unwrap()
                .entries()
                .clone(),
            _ => vec![],
        }
    }
}

fn keys(cluster: &Cluster) -> Vec<&str> {
    cluster.objects.keys().map(|k| k.as_str()).collect()
}

#[test]
fn an_instance_is_installed() {
    let rules = HawkbitController::new("ns", false);
    let mut cluster = Cluster::new();
    assert_eq!(cluster.run(&rules, instance(), &vec![]), Ok(()));
    assert_eq!(
        cluster.written,
        vec![
            "ServiceAccount/default-rabbit",
            "Role/default-rabbit",
            "RoleBinding/default-rabbit",
            "Secret/default-rabbit",
            "ConfigMap/default-rabbit",
            "StatefulSet/default-rabbit",
            "Service/default-rabbit-headless",
            "Service/default-rabbit",
            "ServiceAccount/default",
            "ConfigMap/default",
            "Secret/default-admin",
            "PersistentVolumeClaim/default-data",
            "PersistentVolumeClaim/default-embedded-db",
            "Deployment/default",
            "Service/default",
        ]
    );
    assert_eq!(cluster.objects.len(), 15);
}

#[test]
fn the_second_time_nothing_is_written() {
    let rules = HawkbitController::new("ns", true);
    let mut cluster = Cluster::new();
    let instances =
        vec![Keycloak { status: Some(KeycloakStatus { internal_url: "https://kc".to_string() }), ..Keycloak::default() }];
    assert_eq!(cluster.run(&rules, signing_on(Some("https://hawkbit")), &instances), Ok(()));
    assert_eq!(cluster.written.len(), 20);
    cluster.written.clear();
    assert_eq!(cluster.run(&rules, signing_on(Some("https://hawkbit")), &instances), Ok(()));
    assert_eq!(cluster.written, Vec::<String>::new());
}

#[test]
fn a_broker_that_is_not_kept_is_deleted() {
    let rules = HawkbitController::new("ns", false);
    let mut cluster = Cluster::new();
    assert_eq!(cluster.run(&rules, instance(), &vec![]), Ok(()));
    cluster.written.clear();
    assert_eq!(cluster.run(&rules, external(), &vec![]), Ok(()));
    assert_eq!(
        cluster.written,
        vec![
            "-ServiceAccount/default-rabbit",
            "-Role/default-rabbit",
            "-RoleBinding/default-rabbit",
            "-ConfigMap/default-rabbit",
            "-Secret/default-rabbit",
            "-StatefulSet/default-rabbit",
            "-Service/default-rabbit",
            "-Service/default-rabbit-headless",
            "Deployment/default",
        ]
    );
    assert!(!keys(&cluster).iter().any(|k| k.contains("rabbit")));
}

#[test]
fn signing_on_waits_for_the_route() {
    let rules = HawkbitController::new("ns", true);
    let mut cluster = Cluster::new();
    assert_eq!(
        cluster.run(&rules, signing_on(None), &vec![]),
        Err("Waiting for hawkbit route to be applied".to_string())
    );
    assert_eq!(cluster.written[0], "Route/default");
    assert_eq!(cluster.written.len(), 9);
    assert!(!keys(&cluster).contains(&"Keycloak/default"));
    match cluster.objects.get_mut("Route/default") {
        Some(Object::Route(route)) => route.spec.host = "hawkbit.example.com".to_string(),
        _ => panic!(),
    }
    assert_eq!(cluster.run(&rules, signing_on(None), &vec![]), Ok(()));
    match cluster.objects.get("KeycloakClient/default-hawkbit") {
        Some(Object::KeycloakClient(client)) => {
            assert_eq!(client.spec.client.base_url, "https://hawkbit.example.com")
        }
        _ => panic!(),
    }
}

#[test]
fn without_routes_signing_on_takes_no_url() {
    let rules = HawkbitController::new("ns", false);
    let mut cluster = Cluster::new();
    assert_eq!(cluster.run(&rules, signing_on(None), &vec![]), Ok(()));
    for key in vec![
        "Keycloak/default",
        "KeycloakRealm/default-hawkbit",
        "KeycloakClient/default-hawkbit",
        "KeycloakUser/default-admin",
        "Deployment/default",
    ] {
        assert!(keys(&cluster).contains(&key), "{}", key);
    }
    cluster.written.clear();
    assert_eq!(cluster.run(&rules, signing_on(Some("https://x")), &vec![]), Ok(()));
    assert_eq!(cluster.written, vec!["KeycloakClient/default-hawkbit"]);
}

#[test]
fn the_issuer_gets_into_the_configuration() {
    let rules = HawkbitController::new("ns", false);
    let mut cluster = Cluster::new();
    assert_eq!(cluster.run(&rules, signing_on(Some("https://x")), &vec![]), Ok(()));
    let before = cluster.labels_of_server();
    let instances =
        vec![Keycloak { status: Some(KeycloakStatus { internal_url: "https://kc".to_string() }), ..Keycloak::default() }];
    cluster.written.clear();
    assert_eq!(cluster.run(&rules, signing_on(Some("https://x")), &instances), Ok(()));
    assert_eq!(cluster.written, vec!["ConfigMap/default", "Deployment/default"]);
    assert_ne!(cluster.labels_of_server(), before);
    match cluster.objects.get("ConfigMap/default") {
        Some(Object::ConfigMap(config)) => assert!(config
            .data
            .as_ref()
            .unwrap()
            .get("application.yaml")
            .unwrap()
            .contains("issuer-uri: \"https://kc/auth/realms/default-hawkbit\"\n")),
        _ => panic!(),
    }
}

#[test]
fn new_credentials_get_to_the_server() {
    let rules = HawkbitController::new("ns", false);
    let mut cluster = Cluster::new();
    assert_eq!(cluster.run(&rules, instance(), &vec![]), Ok(()));
    let before = cluster.labels_of_server();
    match cluster.objects.get_mut("Secret/default-admin") {
        Some(Object::Secret(secret)) => {
            secret.data.as_mut().unwrap().insert("adminPassword".to_string(), b"{noop}mine".to_vec())
        }
        _ => panic!(),
    }
    cluster.written.clear();
    assert_eq!(cluster.run(&rules, instance(), &vec![]), Ok(()));
    assert_eq!(cluster.written, vec!["Deployment/default"]);
    assert_ne!(cluster.labels_of_server(), before);
}

#[test]
fn the_claim_for_the_embedded_database_stays() {
    let rules = HawkbitController::new("ns", false);
    let mut cluster = Cluster::new();
    assert_eq!(cluster.run(&rules, external(), &vec![]), Ok(()));
    assert!(!keys(&cluster).contains(&"PersistentVolumeClaim/default-embedded-db"));
    assert_eq!(cluster.run(&rules, instance(), &vec![]), Ok(()));
    assert!(keys(&cluster).contains(&"PersistentVolumeClaim/default-embedded-db"));
    assert_eq!(cluster.run(&rules, external(), &vec![]), Ok(()));
    assert!(keys(&cluster).contains(&"PersistentVolumeClaim/default-embedded-db"));
}

#[test]
fn without_a_database_there_is_no_deployment() {
    let rules = HawkbitController::new("ns", false);
    let mut cluster = Cluster::new();
    let mut resource = instance();
    resource.spec.database = Database::default();
    assert_eq!(cluster.run(&rules, resource, &vec![]), Err("Invalid database configuration".to_string()));
    assert_eq!(cluster.written.last().unwrap(), "PersistentVolumeClaim/default-data");
}

#[test]
fn without_a_broker_there_is_no_deployment() {
    let rules = HawkbitController::new("ns", false);
    let mut cluster = Cluster::new();
    let mut resource = instance();
    resource.spec.rabbit = Rabbit::default();
    assert_eq!(cluster.run(&rules, resource, &vec![]), Err("Invalid Rabbit configuration".to_string()));
    assert!(!keys(&cluster).contains(&"Deployment/default"));
}

#[test]
fn an_object_of_something_else_is_left_alone() {
    let rules = HawkbitController::new("ns", false);
    let mut cluster = Cluster::new();
    let mut object = fresh(Kind::ConfigMap, "default");
    if let Object::ConfigMap(config) = &mut object {
        config.metadata.owner_references = Some(vec![OwnerReference {
            api_version: "v1".to_string(),
            kind: "Other".to_string(),
            name: "other".to_string(),
            uid: "1".to_string(),
            controller: Some(true),
            block_owner_deletion: None,
        }]);
    }
    cluster.put(object, "default");
    assert_eq!(cluster.run(&rules, external(), &vec![]), Err("Object already has a controller".to_string()));
    assert_eq!(cluster.written, vec!["ServiceAccount/default"]);
}

#[test]
fn every_object_is_controlled_by_the_instance() {
    let rules = HawkbitController::new("ns", true);
    let mut cluster = Cluster::new();
    assert_eq!(cluster.run(&rules, signing_on(Some("https://x")), &vec![]), Ok(()));
    for object in cluster.objects.values() {
        let text = format!("{:?}", object);
        assert!(text.contains("kind: \"Hawkbit\", name: \"default\", uid: \"123\", controller: Some(true)"), "{}", text);
    }
}

#[test]
fn a_failure_is_final() {
    let rules = HawkbitController::new("ns", false);
    let mut run = rules.do_reconcile(instance());
    assert_eq!(
        run.action(),
        Action::Apply { target: Target::BrokerAccount, name: "default-rabbit".to_string() }
    );
    run.failed("first".to_string());
    run.succeeded();
    run.failed("second".to_string());
    run.listed(&vec![]);
    assert_eq!(run.action(), Action::Failed { message: "first".to_string() });
    let object = fresh(Kind::Secret, "x");
    assert_eq!(run.apply(object), Ok(fresh(Kind::Secret, "x")));
}

#[test]
fn a_listing_is_waited_for() {
    let rules = HawkbitController::new("ns", false);
    let mut resource = signing_on(Some("https://x"));
    resource.spec.rabbit = Rabbit { external: Some(RabbitExternal::default()), managed: None };
    let mut run = rules.do_reconcile(resource);
    for _ in 0..12 {
        run.listed(&vec![]);
        run.succeeded();
    }
    assert_eq!(
        run.action(),
        Action::ListKeycloaks {
            selector: "app.kubernetes.io/component=sso,app.kubernetes.io/instance=keycloak-default,\
                       app.kubernetes.io/name=keycloak"
                .to_string()
        }
    );
    run.listed(&vec![]);
    assert_eq!(run.action(), Action::Apply { target: Target::Account, name: "default".to_string() });
}

#[test]
fn an_object_of_another_kind_is_not_changed() {
    let rules = HawkbitController::new("ns", false);
    let mut run = rules.do_reconcile(instance());
    assert_eq!(run.apply(fresh(Kind::Secret, "x")), Ok(fresh(Kind::Secret, "x")));
}

#[test]
fn an_object_that_cannot_be_had_is_an_error() {
    let rules = HawkbitController::new("ns", false);
    let mut run = rules.do_reconcile(instance());
    let r = run.apply(Object::ServiceAccount(ServiceAccount::default()));
    assert_eq!(r, Err(Error::ClusterScoped));
    assert_eq!(
        run.action(),
        Action::Apply { target: Target::BrokerAccount, name: "default-rabbit".to_string() }
    );
}

#[test]
fn steps_depend_on_what_is_asked_for() {
    assert_eq!(HawkbitController::new("ns", false).steps_for(&external()).len(), 14);
    assert_eq!(HawkbitController::new("ns", false).steps_for(&instance()).len(), 15);
    let all = HawkbitController::new("ns", true).steps_for(&signing_on(None));
    assert_eq!(all.len(), 21);
    assert_eq!(all[0], Step::Apply(Target::Route));
    assert_eq!(all[13], Step::FindIssuer);
    for (i, a) in all.iter().enumerate() {
        for b in &all[i + 1..] {
            assert_ne!(a, b);
        }
    }
}

#[test]
fn objects_have_kinds_and_names() {
    let resource = instance();
    let expected = vec![
        (Target::Route, Kind::Route, "default"),
        (Target::BrokerAccount, Kind::ServiceAccount, "default-rabbit"),
        (Target::BrokerRole, Kind::Role, "default-rabbit"),
        (Target::BrokerRoleBinding, Kind::RoleBinding, "default-rabbit"),
        (Target::BrokerSecret, Kind::Secret, "default-rabbit"),
        (Target::BrokerConfig, Kind::ConfigMap, "default-rabbit"),
        (Target::BrokerSet, Kind::StatefulSet, "default-rabbit"),
        (Target::BrokerHeadlessService, Kind::Service, "default-rabbit-headless"),
        (Target::BrokerService, Kind::Service, "default-rabbit"),
        (Target::Keycloak, Kind::Keycloak, "default"),
        (Target::KeycloakRealm, Kind::KeycloakRealm, "default-hawkbit"),
        (Target::KeycloakClient, Kind::KeycloakClient, "default-hawkbit"),
        (Target::KeycloakUser, Kind::KeycloakUser, "default-admin"),
        (Target::Account, Kind::ServiceAccount, "default"),
        (Target::Config, Kind::ConfigMap, "default"),
        (Target::AdminSecret, Kind::Secret, "default-admin"),
        (Target::DataClaim, Kind::PersistentVolumeClaim, "default-data"),
        (Target::DatabaseClaim, Kind::PersistentVolumeClaim, "default-embedded-db"),
        (Target::Deployment, Kind::Deployment, "default"),
        (Target::Service, Kind::Service, "default"),
    ];
    for (target, kind, name) in expected {
        assert_eq!(target.kind(), kind);
        assert_eq!(target.name(&resource), name);
    }
}

fn status(phase: &str, message: Option<&str>) -> HawkbitStatus {
    HawkbitStatus { phase: phase.to_string(), message: message.map(|s| s.to_string()) }
}

#[test]
fn the_status_says_how_it_went() {
    let rules = HawkbitController::new("ns", false);
    assert_eq!(rules.reconcile(&instance(), Ok(())), Some(status("Active", None)));
    assert_eq!(
        rules.reconcile(&instance(), Err("broken".to_string())),
        Some(status("Failed", Some("broken")))
    );
}

#[test]
fn a_status_is_written_when_it_changes() {
    let rules = HawkbitController::new("ns", false);
    let mut resource = instance();
    resource.status = Some(status("Active", None));
    assert_eq!(rules.reconcile(&resource, Ok(())), None);
    assert_eq!(rules.reconcile(&resource, Err("x".to_string())), Some(status("Failed", Some("x"))));
    resource.status = Some(status("Failed", Some("x")));
    assert_eq!(rules.reconcile(&resource, Err("x".to_string())), None);
    assert_eq!(rules.reconcile(&resource, Err("y".to_string())), Some(status("Failed", Some("y"))));
    assert_eq!(rules.reconcile(&resource, Ok(())), Some(status("Active", None)));
    resource.status = Some(status("Active", Some("x")));
    assert_eq!(rules.reconcile(&resource, Ok(())), Some(status("Active", None)));
}
