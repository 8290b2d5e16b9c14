use hawkbit_operator::controller::keycloak::{all_roles, find_issuer_uri};
use hawkbit_operator::controller::HawkbitController;
use hawkbit_operator::crd::{Database, Embedded, Hawkbit, HawkbitSpec, KeycloakConfig, Rabbit, RabbitManaged};
use hawkbit_operator::error::Error;
use hawkbit_operator::objects::keycloak::{
    Credential, Keycloak, KeycloakClient, KeycloakRealm, KeycloakStatus, KeycloakUser,
};
use hawkbit_operator::objects::meta::ObjectMeta;
use hawkbit_operator::text_map::TextMap;

fn instance() -> Hawkbit {
    Hawkbit {
        metadata: ObjectMeta {
            name: Some("default".to_string()),
            namespace: Some("ns".to_string()),
            uid: Some("123".to_string()),
            ..ObjectMeta::default()
        },
        spec: HawkbitSpec {
            database: Database { embedded: Some(Embedded {}), ..Database::default() },
            rabbit: Rabbit { managed: Some(RabbitManaged::default()), ..Rabbit::default() },
            ..HawkbitSpec::default()
        },
        status: None,
    }
}

fn found(name: &str) -> ObjectMeta {
    ObjectMeta { name: Some(name.to_string()), namespace: Some("ns".to_string()), ..ObjectMeta::default() }
}

fn label(labels: &Option<TextMap<String>>, key: &str) -> String {
    labels.as_ref().unwrap().get(key).unwrap().clone()
}

fn rules() -> HawkbitController {
    HawkbitController::new("ns", false)
}

#[test]
fn all_roles_are_known() {
    let roles = all_roles();
    assert_eq!(roles.len(), 18);
    assert_eq!(roles[0], "system_admin");
    assert_eq!(roles[10], "download_repository_artifact");
    assert_eq!(roles[17], "approve_rollout");
}

#[test]
fn the_url_that_is_given_comes_first() {
    let given = KeycloakConfig { hawkbit_url: Some("https://given".to_string()), ..KeycloakConfig::default() };
    let route = Some("https://route".to_string());
    assert_eq!(rules().hawkbit_url(&given, &route), Ok("https://given".to_string()));
    assert_eq!(rules().hawkbit_url(&given, &None), Ok("https://given".to_string()));
    assert_eq!(rules().hawkbit_url(&KeycloakConfig::default(), &route), Ok("https://route".to_string()));
}

#[test]
fn without_routes_no_url_is_needed() {
    assert_eq!(rules().hawkbit_url(&KeycloakConfig::default(), &None), Ok(String::new()));
    let client = KeycloakClient { metadata: found("default-hawkbit"), ..KeycloakClient::default() };
    let client = rules().create_keycloak_client(&instance(), client, "").unwrap().spec.client;
    assert_eq!(client.base_url, "");
    assert_eq!(client.redirect_uris, vec!["/login/oauth2/code/hawkbit".to_string()]);
}

#[test]
fn with_routes_the_url_is_waited_for() {
    let none = KeycloakConfig::default();
    assert_eq!(HawkbitController::new("ns", true).hawkbit_url(&none, &None), Err(Error::WaitingForRoute));
    assert_eq!(Error::WaitingForRoute.message(), "Waiting for hawkbit route to be applied");
}

#[test]
fn the_instance_is_found_by_its_labels() {
    assert_eq!(
        rules().keycloak_selector(&instance()),
        "app.kubernetes.io/component=sso,app.kubernetes.io/instance=keycloak-default,app.kubernetes.io/name=keycloak"
    );
}

#[test]
fn an_instance_is_brought_into_shape() {
    let keycloak = Keycloak {
        metadata: found("default"),
        status: Some(KeycloakStatus { internal_url: "https://kc".to_string() }),
        ..Keycloak::default()
    };
    let keycloak = rules().create_keycloak(&instance(), keycloak).unwrap();
    assert_eq!(label(&keycloak.metadata.labels, "app.kubernetes.io/name"), "keycloak");
    assert_eq!(keycloak.spec.instances, 1);
    assert!(keycloak.spec.external_access.enabled);
    assert_eq!(keycloak.status.unwrap().internal_url, "https://kc");
    assert_eq!(rules().create_keycloak(&instance(), Keycloak::default()).unwrap_err(), Error::ClusterScoped);
}

#[test]
fn a_realm_is_brought_into_shape() {
    let realm = KeycloakRealm { metadata: found("default-hawkbit"), ..KeycloakRealm::default() };
    let realm = rules().create_keycloak_realm(&instance(), realm).unwrap();
    assert_eq!(label(&realm.metadata.labels, "app.kubernetes.io/instance"), "keycloak-realm-default");
    assert_eq!(
        label(&realm.spec.instance_selector.match_labels, "app.kubernetes.io/instance"),
        "keycloak-default"
    );
    assert_eq!(realm.spec.realm.display_name, "hawkBit Realm");
    assert!(realm.spec.realm.enabled);
    assert_eq!(realm.spec.realm.realm, "default-hawkbit");
}

#[test]
fn a_client_is_brought_into_shape() {
    let client = KeycloakClient { metadata: found("default-hawkbit"), ..KeycloakClient::default() };
    let client = rules().create_keycloak_client(&instance(), client, "https://hawkbit").unwrap();
    assert_eq!(label(&client.metadata.labels, "app.kubernetes.io/instance"), "keycloak-client-default");
    assert_eq!(
        label(&client.spec.realm_selector.match_labels, "app.kubernetes.io/instance"),
        "keycloak-realm-default"
    );
    let client = client.spec.client;
    assert_eq!(client.client_id, "default-hawkbit");
    assert!(client.enabled);
    assert_eq!(client.root_url, "");
    assert_eq!(client.base_url, "https://hawkbit");
    assert_eq!(client.redirect_uris, vec!["https://hawkbit/login/oauth2/code/hawkbit".to_string()]);
    assert_eq!(client.client_authenticator_type, "client-secret");
    assert!(!client.implicit_flow_enabled);
    assert!(!client.public_client);
    assert!(client.standard_flow_enabled);
    assert_eq!(client.default_roles, all_roles());
}

#[test]
fn an_administrator_is_made_up() {
    let user = KeycloakUser { metadata: found("default-admin"), ..KeycloakUser::default() };
    let user = rules().create_keycloak_user(&instance(), user).unwrap();
    assert_eq!(user.metadata.labels, None);
    assert_eq!(
        label(&user.spec.realm_selector.match_labels, "app.kubernetes.io/instance"),
        "keycloak-realm-default"
    );
    let user = user.spec.user;
    assert_eq!(user.username, "admin");
    assert!(user.enabled);
    assert_eq!(user.first_name, "System");
    assert_eq!(user.last_name, "Admin");
    assert_eq!(user.client_roles.get("default-hawkbit"), Some(&all_roles()));
    assert_eq!(user.credentials.len(), 1);
    assert!(!user.credentials[0].temporary);
    assert_eq!(user.credentials[0].type_, "password");
    assert_eq!(user.credentials[0].value.len(), 16);
    assert!(user.credentials[0].value.chars().all(|c| c.is_ascii_digit() || c.is_ascii_lowercase()));
}

#[test]
fn an_administrator_keeps_credentials_and_roles() {
    let mut user = KeycloakUser { metadata: found("default-admin"), ..KeycloakUser::default() };
    user.spec.user.credentials =
        vec![Credential { temporary: true, type_: "password".to_string(), value: "mine".to_string() }];
    user.spec.user.client_roles.insert("other".to_string(), vec!["role".to_string()]);
    user.spec.user.client_roles.insert("default-hawkbit".to_string(), vec!["role".to_string()]);
    let user = rules().create_keycloak_user_with(&instance(), user, "new").unwrap();
    assert_eq!(user.spec.user.credentials.len(), 1);
    assert!(user.spec.user.credentials[0].temporary);
    assert_eq!(user.spec.user.credentials[0].value, "mine");
    assert_eq!(user.spec.user.client_roles.get("other"), Some(&vec!["role".to_string()]));
    assert_eq!(user.spec.user.client_roles.get("default-hawkbit"), Some(&all_roles()));
}

fn with_url(url: Option<&str>) -> Keycloak {
    Keycloak { status: url.map(|url| KeycloakStatus { internal_url: url.to_string() }), ..Keycloak::default() }
}

#[test]
fn the_issuer_is_known_by_the_first_instance() {
    assert_eq!(find_issuer_uri(&vec![], "realm"), None);
    assert_eq!(find_issuer_uri(&vec![with_url(None), with_url(Some("https://b"))], "realm"), None);
    assert_eq!(find_issuer_uri(&vec![with_url(Some(""))], "realm"), None);
    assert_eq!(
        find_issuer_uri(&vec![with_url(Some("https://a")), with_url(Some("https://b"))], "default-hawkbit"),
        Some("https://a/auth/realms/default-hawkbit".to_string())
    );
    assert_eq!(rules().keycloak_realm_name(&instance()), "default-hawkbit");
}
