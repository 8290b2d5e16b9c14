use hawkbit_operator::controller::HawkbitController;
use hawkbit_operator::crd::{Database, Embedded, Hawkbit, HawkbitSpec, KeycloakConfig, Rabbit, RabbitManaged, SignOn};
use hawkbit_operator::error::Error;
use hawkbit_operator::objects::config::{ConfigMap, Secret, ServiceAccount};
use hawkbit_operator::objects::meta::ObjectMeta;
use hawkbit_operator::objects::network::{Route, Service, ServicePort, ServiceSpec};
use hawkbit_operator::objects::storage::{PersistentVolumeClaim, PersistentVolumeClaimSpec, ResourceRequirements};
use hawkbit_operator::text_map::TextMap;
use operator_framework::tracker::ConfigTracker;

fn instance() -> Hawkbit {
    Hawkbit {
        metadata: ObjectMeta {
            name: Some("default".to_string()),
            namespace: Some("ns".to_string()),
            uid: Some("123".to_string()),
            ..ObjectMeta::default()
        },
        spec: HawkbitSpec {
            database: Database { embedded: Some(Embedded {}), ..Database::default() },
            rabbit: Rabbit { managed: Some(RabbitManaged::default()), ..Rabbit::default() },
            ..HawkbitSpec::default()
        },
        status: None,
    }
}

fn found(name: &str) -> ObjectMeta {
    ObjectMeta { name: Some(name.to_string()), namespace: Some("ns".to_string()), ..ObjectMeta::default() }
}

fn label(labels: &Option<TextMap<String>>, key: &str) -> String {
    labels.as_ref().unwrap().get(key).unwrap().clone()
}

fn rules() -> HawkbitController {
    HawkbitController::new("ns", true)
}

const CONFIG: &str = r#"server:
  useForwardHeaders: true
hawkbit: null
spring:
  cloud:
    stream:
      bindings:
        default:
          group: hawkbit
        device-created:
          destination: device-registry.device-created
        device-deleted:
          destination: device-registry.device-deleted
        device-updated:
          destination: device-registry.device-updated
"#;

const SIGN_ON: &str = r#"
  security:
    oauth2:
      client:
        registration:
          hawkbit:
            provider: hawkbit-keycloak
            scope: openid
        provider:
          hawkbit-keycloak:
            issuer-uri: "ISSUER"
"#;

fn configured(resource: &Hawkbit, issuer_uri: Option<&str>) -> String {
    let config = ConfigMap { metadata: found("default"), ..ConfigMap::default() };
    let config = rules()
        .create_application_config(resource, config, &mut ConfigTracker::new(), &issuer_uri.map(|s| s.to_string()))
        .unwrap();
    config.data.unwrap().get("application.yaml").unwrap().clone()
}

#[test]
fn the_configuration_is_written() {
    assert_eq!(configured(&instance(), None), CONFIG);
    assert_eq!(configured(&instance(), Some("ignored")), CONFIG);
}

#[test]
fn signing_on_is_configured() {
    let mut resource = instance();
    resource.spec.sign_on = Some(SignOn::Keycloak { config: KeycloakConfig::default() });
    assert_eq!(configured(&resource, Some("https://x/auth")), format!("{}{}", CONFIG, SIGN_ON.replace("ISSUER", "https://x/auth")));
    assert_eq!(configured(&resource, None), format!("{}{}", CONFIG, SIGN_ON.replace("ISSUER", "")));
}

#[test]
fn other_configuration_is_kept_and_hashed() {
    let mut data = TextMap::new();
    data.insert("extra".to_string(), "abc".to_string());
    data.insert("application.yaml".to_string(), "old".to_string());
    let config = ConfigMap { metadata: found("default"), data: Some(data), rest: None };
    let mut tracker = ConfigTracker::new();
    let config = rules().create_application_config(&instance(), config, &mut tracker, &None).unwrap();
    assert_eq!(config.data.as_ref().unwrap().get("extra"), Some(&"abc".to_string()));
    let mut expected = ConfigTracker::new();
    expected.track(CONFIG.as_bytes());
    expected.track("abc".as_bytes());
    assert_eq!(tracker.current_hash(), expected.current_hash());
}

#[test]
fn what_cannot_be_had_is_not_hashed() {
    let mut tracker = ConfigTracker::new();
    let config = ConfigMap::default();
    let r = rules().create_application_config(&instance(), config, &mut tracker, &None);
    assert_eq!(r.unwrap_err(), Error::ClusterScoped);
    let r = rules().create_application_secrets(&instance(), Secret::default(), &mut tracker);
    assert_eq!(r.unwrap_err(), Error::ClusterScoped);
    assert_eq!(tracker.current_hash(), ConfigTracker::new().current_hash());
}

#[test]
fn credentials_are_made_up() {
    let mut tracker = ConfigTracker::new();
    let secret = Secret { metadata: found("default-admin"), ..Secret::default() };
    let secret = rules().create_application_secrets(&instance(), secret, &mut tracker).unwrap();
    let data = secret.data.unwrap();
    assert_eq!(data.get("adminUsername"), Some(&b"admin".to_vec()));
    let password = data.get("adminPassword").unwrap();
    assert_eq!(password.len(), 22);
    assert_eq!(password[0..6].to_vec(), b"{noop}".to_vec());
    for c in &password[6..] {
        assert!((b'0'..=b'9').contains(c) || (b'a'..=b'z').contains(c));
    }
    let mut expected = ConfigTracker::new();
    expected.track(password);
    expected.track(b"admin");
    assert_eq!(tracker.current_hash(), expected.current_hash());
}

#[test]
fn passwords_are_random() {
    let a = rules().new_password();
    let b = rules().new_password();
    assert_eq!(a.len(), 16);
    assert_ne!(a, b);
}

#[test]
fn credentials_are_kept() {
    let mut data = TextMap::new();
    data.insert("adminPassword".to_string(), b"mine".to_vec());
    data.insert("other".to_string(), vec![0]);
    let secret = Secret { metadata: found("default-admin"), data: Some(data), rest: None };
    let secret = rules().create_application_secrets(&instance(), secret, &mut ConfigTracker::new()).unwrap();
    let data = secret.data.unwrap();
    assert_eq!(data.get("adminPassword"), Some(&b"mine".to_vec()));
    assert_eq!(data.get("adminUsername"), Some(&b"admin".to_vec()));
    assert_eq!(data.get("other"), Some(&vec![0]));
}

#[test]
fn another_password_does_not_replace_the_first() {
    let secret = Secret { metadata: found("default-admin"), ..Secret::default() };
    let once = rules()
        .create_application_secrets_with(&instance(), secret, &mut ConfigTracker::new(), "first")
        .unwrap();
    assert_eq!(once.data.as_ref().unwrap().get("adminPassword"), Some(&b"{noop}first".to_vec()));
    let twice = rules()
        .create_application_secrets_with(&instance(), once, &mut ConfigTracker::new(), "second")
        .unwrap();
    assert_eq!(twice.data.unwrap().get("adminPassword"), Some(&b"{noop}first".to_vec()));
}

#[test]
fn the_account_is_claimed() {
    let account = ServiceAccount { metadata: found("default"), ..ServiceAccount::default() };
    let account = rules().create_service_account(&instance(), account).unwrap();
    assert_eq!(account.metadata.labels, None);
    assert_eq!(account.metadata.owner_references.unwrap()[0].name, "default");
}

#[test]
fn storage_is_claimed() {
    let claim = PersistentVolumeClaim { metadata: found("default-data"), ..PersistentVolumeClaim::default() };
    let claim = rules().create_storage(&instance(), claim).unwrap();
    let spec = claim.spec.unwrap();
    assert_eq!(spec.access_modes, Some(vec!["ReadWriteOnce".to_string()]));
    let resources = spec.resources.unwrap();
    assert_eq!(resources.requests.unwrap().get("storage"), Some(&"1Gi".to_string()));
    assert_eq!(resources.limits.unwrap().entries().len(), 0);
}

#[test]
fn other_amounts_are_kept() {
    let mut limits = TextMap::new();
    limits.insert("storage".to_string(), "9Gi".to_string());
    limits.insert("other".to_string(), "1".to_string());
    let claim = PersistentVolumeClaim {
        metadata: found("default-data"),
        spec: Some(PersistentVolumeClaimSpec {
            resources: Some(ResourceRequirements { limits: Some(limits), requests: None }),
            ..PersistentVolumeClaimSpec::default()
        }),
        rest: None,
    };
    let claim = rules().create_storage(&instance(), claim).unwrap();
    let limits = claim.spec.unwrap().resources.unwrap().limits.unwrap();
    assert_eq!(limits.get("storage"), None);
    assert_eq!(limits.get("other"), Some(&"1".to_string()));
}

#[test]
fn the_service_leads_to_the_server() {
    let service = Service {
        metadata: found("default"),
        spec: Some(ServiceSpec { cluster_ip: Some("1.2.3.4".to_string()), ..ServiceSpec::default() }),
        rest: None,
    };
    let service = rules().create_service(&instance(), service).unwrap();
    assert_eq!(label(&service.metadata.labels, "app.kubernetes.io/name"), "server");
    let spec = service.spec.unwrap();
    assert_eq!(spec.type_, Some("ClusterIP".to_string()));
    assert_eq!(spec.cluster_ip, Some("1.2.3.4".to_string()));
    assert_eq!(label(&spec.selector, "app.kubernetes.io/instance"), "server-default");
    assert_eq!(
        spec.ports,
        Some(vec![ServicePort {
            name: Some("http".to_string()),
            port: 8080,
            protocol: Some("TCP".to_string()),
            target_port: Some("http".to_string()),
        }])
    );
}

#[test]
fn the_route_leads_to_the_service() {
    let route = Route { metadata: found("default"), ..Route::default() };
    let (route, url) = rules().create_route(&instance(), route).unwrap();
    assert_eq!(url, None);
    assert_eq!(label(&route.metadata.labels, "app.kubernetes.io/component"), "server");
    assert_eq!(route.spec.to.kind, "Service");
    assert_eq!(route.spec.to.name, "default");
    assert_eq!(route.spec.to.weight, 100);
    assert_eq!(route.spec.port.unwrap().target_port, "http");
    let tls = route.spec.tls.unwrap();
    assert_eq!(tls.termination, "edge");
    assert_eq!(tls.insecure_edge_termination_policy, Some("None".to_string()));
}

#[test]
fn a_route_with_a_host_has_a_url() {
    let mut route = Route { metadata: found("default"), ..Route::default() };
    route.spec.host = "hawkbit.example.com".to_string();
    let (route, url) = rules().create_route(&instance(), route).unwrap();
    assert_eq!(url, Some("https://hawkbit.example.com".to_string()));
    assert_eq!(route.spec.host, "hawkbit.example.com");
}
