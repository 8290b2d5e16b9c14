use hawkbit_operator::controller::HawkbitController;
use hawkbit_operator::crd::{
    CommonJdbc, Database, Embedded, Hawkbit, HawkbitSpec, ImageOverride, KeycloakConfig, MySQL, PasswordSecretSource,
    PostgreSQL, Rabbit, RabbitExternal, RabbitManaged, SignOn,
};
use hawkbit_operator::error::Error;
use hawkbit_operator::objects::meta::{ObjectMeta, OwnerReference};
use hawkbit_operator::objects::pod::{Container, EnvVar, EnvVarSource, HttpProbe, PodSpec, PodTemplateSpec, Probe, Volume};
use hawkbit_operator::objects::workload::{Deployment, DeploymentSpec};
use hawkbit_operator::text_map::TextMap;
use operator_framework::tracker::ConfigTracker;

fn instance() -> Hawkbit {
    Hawkbit {
        metadata: ObjectMeta {
            name: Some("default".to_string()),
            namespace: Some("ns".to_string()),
            uid: Some("123".to_string()),
            ..ObjectMeta::default()
        },
        spec: HawkbitSpec {
            database: Database { embedded: Some(Embedded {}), ..Database::default() },
            rabbit: Rabbit { managed: Some(RabbitManaged::default()), ..Rabbit::default() },
            ..HawkbitSpec::default()
        },
        status: None,
    }
}

fn found(name: &str) -> ObjectMeta {
    ObjectMeta { name: Some(name.to_string()), namespace: Some("ns".to_string()), ..ObjectMeta::default() }
}

fn label(labels: &Option<TextMap<String>>, key: &str) -> String {
    labels.as_ref().unwrap().get(key).unwrap().clone()
}

fn jdbc() -> CommonJdbc {
    CommonJdbc {
        host: "db".to_string(),
        database: "hawkbit".to_string(),
        username: "user".to_string(),
        password_secret: PasswordSecretSource { name: "db-secret".to_string(), field: "pw".to_string() },
        ..CommonJdbc::default()
    }
}

fn with_mysql() -> Hawkbit {
    let mut resource = instance();
    resource.spec.database = Database { mysql: Some(MySQL { jdbc: jdbc() }), ..Database::default() };
    resource
}

fn rules() -> HawkbitController {
    HawkbitController::new("ns", false)
}

fn deploy(rules: &HawkbitController, resource: &Hawkbit, deployment: Deployment) -> Result<Deployment, Error> {
    rules.create_deployment(resource, deployment, &ConfigTracker::new())
}

fn new_deployment(resource: &Hawkbit) -> Deployment {
    deploy(&rules(), resource, Deployment { metadata: found("default"), ..Deployment::default() }).unwrap()
}

fn pod(deployment: &Deployment) -> &PodSpec {
    deployment.spec.as_ref().unwrap().template.spec.as_ref().unwrap()
}

fn server(deployment: &Deployment) -> &Container {
    pod(deployment).containers.iter().find(|c| c.name == "server").unwrap()
}

fn env(deployment: &Deployment) -> Vec<(String, String)> {
    server(deployment)
        .env
        .as_ref()
        .unwrap()
        .iter()
        .map(|e| {
            let value = match (&e.value, &e.value_from) {
                (Some(value), None) => value.clone(),
                (None, Some(EnvVarSource::SecretKey { name, key })) => format!("{}:{}", name, key),
                _ => panic!("{:?}", e),
            };
            (e.name.clone(), value)
        })
        .collect()
}

fn pairs(pairs: Vec<(&str, &str)>) -> Vec<(String, String)> {
    pairs.into_iter().map(|(a, b)| (a.to_string(), b.to_string())).collect()
}

#[test]
fn labels_name_instance_and_component() {
    let labels = rules().selector(&instance(), "server", "other");
    assert_eq!(labels.entries().len(), 3);
    assert_eq!(labels.get("app.kubernetes.io/name"), Some(&"server".to_string()));
    assert_eq!(labels.get("app.kubernetes.io/instance"), Some(&"server-default".to_string()));
    assert_eq!(labels.get("app.kubernetes.io/component"), Some(&"other".to_string()));
}

#[test]
fn images_come_from_the_registry() {
    assert_eq!(rules().image_name("hawkbit-update-server"), "docker.io/hawkbit/hawkbit-update-server:0.3.0M6");
}

#[test]
fn a_new_deployment_is_filled_in() {
    let deployment = new_deployment(&instance());
    assert_eq!(deployment.metadata.name, Some("default".to_string()));
    assert_eq!(label(&deployment.metadata.labels, "app.kubernetes.io/component"), "server");
    assert_eq!(deployment.metadata.owner_references.as_ref().unwrap().len(), 1);
    let spec = deployment.spec.as_ref().unwrap();
    assert_eq!(spec.replicas, Some(1));
    assert_eq!(spec.strategy.as_ref().unwrap().type_, Some("Recreate".to_string()));
    assert_eq!(spec.selector.match_labels.as_ref().unwrap().entries().len(), 3);
    assert_eq!(label(&spec.selector.match_labels, "app.kubernetes.io/instance"), "server-default");
    let pods = spec.template.metadata.as_ref().unwrap();
    assert_eq!(label(&pods.labels, "config-hash"), "da39a3ee5e6b4b0d3255bfef95601890afd80709");
    assert_eq!(label(&pods.labels, "app.kubernetes.io/instance"), "server-default");
    assert_eq!(pods.labels.as_ref().unwrap().entries().len(), 4);
    assert_eq!(pod(&deployment).service_account, Some("default".to_string()));
    assert_eq!(pod(&deployment).containers.len(), 1);
    assert_eq!(pod(&deployment).init_containers, None);
}

#[test]
fn a_new_server_is_filled_in() {
    let deployment = new_deployment(&instance());
    let server = server(&deployment);
    assert_eq!(server.image, Some("docker.io/hawkbit/hawkbit-update-server:0.3.0M6".to_string()));
    assert_eq!(server.image_pull_policy, None);
    assert_eq!(server.args, None);
    assert_eq!(server.working_dir, None);
    assert_eq!(
        server.command,
        Some(vec!["java".to_string(), "-jar".to_string(), "hawkbit-update-server.jar".to_string()])
    );
    let ports = server.ports.as_ref().unwrap();
    assert_eq!(ports.len(), 1);
    assert_eq!(ports[0].name, Some("http".to_string()));
    assert_eq!(ports[0].container_port, 8080);
    assert_eq!(ports[0].protocol, Some("TCP".to_string()));
    assert_eq!(
        server.readiness_probe,
        Some(Probe::Http(HttpProbe {
            path: "/VAADIN/themes/hawkbit/favicon.ico".to_string(),
            port: "http".to_string(),
            failure_threshold: 3,
            initial_delay_seconds: 10,
            period_seconds: 1,
            success_threshold: 1,
            timeout_seconds: 2,
        }))
    );
    assert_eq!(
        server.liveness_probe,
        Some(Probe::Http(HttpProbe {
            path: "/VAADIN/themes/hawkbit/favicon.ico".to_string(),
            port: "http".to_string(),
            failure_threshold: 5,
            initial_delay_seconds: 30,
            period_seconds: 5,
            success_threshold: 1,
            timeout_seconds: 2,
        }))
    );
}

#[test]
fn embedded_database_and_managed_broker_make_the_environment() {
    assert_eq!(
        env(&new_deployment(&instance())),
        pairs(vec![
            ("SPRING_JPA_DATABASE", "H2"),
            ("SPRING_DATASOURCE_DRIVERCLASSNAME", "org.h2.Driver"),
            ("SPRING_DATASOURCE_URL", "jdbc:h2:/embedded-db/hawkbit"),
            ("SPRING_SECURITY_USER_NAME", "default-admin:adminUsername"),
            ("SPRING_SECURITY_USER_PASSWORD", "default-admin:adminPassword"),
            ("SPRING_RABBITMQ_HOST", "default-rabbit"),
            ("SPRING_RABBITMQ_PORT", "5672"),
            ("SPRING_RABBITMQ_USERNAME", "default-rabbit:default.username"),
            ("SPRING_RABBITMQ_PASSWORD", "default-rabbit:default.password"),
            ("org.eclipse.hawkbit.repository.file.path", "/etc/hawkbit/storage"),
        ])
    );
}

#[test]
fn mysql_external_broker_and_keycloak_make_the_environment() {
    let mut resource = with_mysql();
    resource.spec.rabbit = Rabbit {
        external: Some(RabbitExternal {
            host: "mq".to_string(),
            port: 1234,
            username: "me".to_string(),
            password_secret: PasswordSecretSource { name: "mq-secret".to_string(), field: "f".to_string() },
        }),
        managed: None,
    };
    resource.spec.sign_on = Some(SignOn::Keycloak { config: KeycloakConfig::default() });
    let rules = HawkbitController::new("ns", true);
    let deployment =
        deploy(&rules, &resource, Deployment { metadata: found("default"), ..Deployment::default() }).unwrap();
    assert_eq!(
        env(&deployment),
        pairs(vec![
            ("SPRING_JPA_DATABASE", "MYSQL"),
            ("SPRING_DATASOURCE_DRIVERCLASSNAME", "org.mariadb.jdbc.Driver"),
            ("SPRING_DATASOURCE_URL", "jdbc:mysql://db:3306/hawkbit"),
            ("SPRING_DATASOURCE_USERNAME", "user"),
            ("SPRING_DATASOURCE_PASSWORD", "db-secret:pw"),
            (
                "SPRING_SECURITY_OAUTH2_CLIENT_REGISTRATION_HAWKBIT_CLIENTID",
                "keycloak-client-secret-default-hawkbit:CLIENT_ID"
            ),
            (
                "SPRING_SECURITY_OAUTH2_CLIENT_REGISTRATION_HAWKBIT_CLIENTSECRET",
                "keycloak-client-secret-default-hawkbit:CLIENT_SECRET"
            ),
            ("SPRING_RABBITMQ_HOST", "mq"),
            ("SPRING_RABBITMQ_PORT", "1234"),
            ("SPRING_RABBITMQ_USERNAME", "me"),
            ("SPRING_RABBITMQ_PASSWORD", "mq-secret:f"),
            ("org.eclipse.hawkbit.repository.file.path", "/etc/hawkbit/storage"),
            ("hawkbit.artifact.url.protocols.download-http.port", "443"),
            ("hawkbit.artifact.url.protocols.download-http.protocol", "https"),
        ])
    );
}

#[test]
fn postgres_makes_the_environment() {
    let mut resource = instance();
    resource.spec.database = Database { postgres: Some(PostgreSQL { jdbc: jdbc() }), ..Database::default() };
    let env = env(&new_deployment(&resource));
    assert_eq!(
        env[0..5].to_vec(),
        pairs(vec![
            ("SPRING_JPA_DATABASE", "POSTGRESQL"),
            ("SPRING_DATASOURCE_DRIVERCLASSNAME", "org.postgresql.Driver"),
            ("SPRING_DATASOURCE_URL", "jdbc:postgresql://db:5432/hawkbit"),
            ("SPRING_DATASOURCE_USERNAME", "user"),
            ("SPRING_DATASOURCE_PASSWORD", "db-secret:pw"),
        ])
    );
}

#[test]
fn database_variables_that_are_there_are_changed() {
    let variable = |name: &str| EnvVar { name: name.to_string(), value: Some("old".to_string()), value_from: None };
    let mut env = vec![variable("SPRING_DATASOURCE_PASSWORD"), variable("OTHER"), variable("SPRING_DATASOURCE_URL")];
    rules().apply_common_jdbc(&mut env, &MySQL { jdbc: jdbc() });
    let names: Vec<&str> = env.iter().map(|e| e.name.as_str()).collect();
    assert_eq!(
        names,
        vec!["SPRING_DATASOURCE_PASSWORD", "OTHER", "SPRING_DATASOURCE_URL", "SPRING_DATASOURCE_USERNAME"]
    );
    assert_eq!(env[0].value, None);
    assert_eq!(
        env[0].value_from,
        Some(EnvVarSource::SecretKey { name: "db-secret".to_string(), key: "pw".to_string() })
    );
    assert_eq!(env[1].value, Some("old".to_string()));
    assert_eq!(env[2].value, Some("jdbc:mysql://db:3306/hawkbit".to_string()));
    assert_eq!(env[3].value, Some("user".to_string()));
}

#[test]
fn no_variable_is_set_twice() {
    for resource in vec![instance(), with_mysql()] {
        let mut names: Vec<String> = env(&new_deployment(&resource)).into_iter().map(|e| e.0).collect();
        let n = names.len();
        names.sort();
        names.dedup();
        assert_eq!(names.len(), n);
    }
}

#[test]
fn mysql_has_an_image_of_its_own() {
    let deployment = new_deployment(&with_mysql());
    assert_eq!(
        server(&deployment).image,
        Some("docker.io/hawkbit/hawkbit-update-server:0.3.0M6-mysql".to_string())
    );
}

#[test]
fn an_image_can_be_asked_for() {
    let mut resource = with_mysql();
    resource.spec.image_overrides.insert(
        "hawkbit-update-server".to_string(),
        ImageOverride { image: Some("mine:1".to_string()), pull_policy: Some("Always".to_string()) },
    );
    let deployment = new_deployment(&resource);
    assert_eq!(server(&deployment).image, Some("mine:1".to_string()));
    assert_eq!(server(&deployment).image_pull_policy, Some("Always".to_string()));
    let mut resource = with_mysql();
    resource.spec.image_overrides.insert(
        "hawkbit-update-server".to_string(),
        ImageOverride { image: None, pull_policy: Some("Never".to_string()) },
    );
    let deployment = new_deployment(&resource);
    assert_eq!(
        server(&deployment).image,
        Some("docker.io/hawkbit/hawkbit-update-server:0.3.0M6-mysql".to_string())
    );
    assert_eq!(server(&deployment).image_pull_policy, Some("Never".to_string()));
}

#[test]
fn the_embedded_database_has_storage() {
    let deployment = new_deployment(&instance());
    let mounts: Vec<(String, String, Option<bool>)> = server(&deployment)
        .volume_mounts
        .as_ref()
        .unwrap()
        .iter()
        .map(|m| (m.name.clone(), m.mount_path.clone(), m.read_only))
        .collect();
    assert_eq!(
        mounts,
        vec![
            ("embedded-db".to_string(), "/embedded-db".to_string(), Some(false)),
            ("config".to_string(), "/opt/hawkbit/config".to_string(), Some(true)),
            ("storage".to_string(), "/etc/hawkbit/storage".to_string(), Some(false)),
        ]
    );
    let volumes = pod(&deployment).volumes.as_ref().unwrap();
    assert_eq!(volumes.len(), 3);
    assert_eq!(volumes[0].config_map.as_ref().unwrap().name, Some("default".to_string()));
    assert_eq!(volumes[0].config_map.as_ref().unwrap().default_mode, None);
    assert_eq!(volumes[1].persistent_volume_claim.as_ref().unwrap().claim_name, "default-data");
    assert_eq!(volumes[2].name, "embedded-db");
    assert_eq!(volumes[2].persistent_volume_claim.as_ref().unwrap().claim_name, "default-embedded-db");
}

#[test]
fn another_database_drops_the_embedded_one() {
    let deployment = deploy(&rules(), &with_mysql(), new_deployment(&instance())).unwrap();
    let names: Vec<&str> = pod(&deployment).volumes.as_ref().unwrap().iter().map(|v| v.name.as_str()).collect();
    assert_eq!(names, vec!["config", "storage"]);
}

#[test]
fn a_second_deployment_is_the_same() {
    for resource in vec![instance(), with_mysql()] {
        let once = new_deployment(&resource);
        let twice = deploy(&rules(), &resource, new_deployment(&resource)).unwrap();
        assert_eq!(once, twice);
    }
}

#[test]
fn what_others_have_added_is_kept() {
    let mut deployment = Deployment { metadata: found("default"), ..Deployment::default() };
    deployment.metadata.uid = Some("own".to_string());
    deployment.spec = Some(DeploymentSpec {
        template: PodTemplateSpec {
            metadata: None,
            spec: Some(PodSpec {
                containers: vec![
                    Container { name: "sidecar".to_string(), ..Container::default() },
                    Container {
                        name: "server".to_string(),
                        image: Some("old".to_string()),
                        env: Some(vec![EnvVar { name: "X".to_string(), value: None, value_from: None }]),
                        args: Some(vec!["x".to_string()]),
                        ..Container::default()
                    },
                ],
                volumes: Some(vec![Volume { name: "mine".to_string(), ..Volume::default() }]),
                restart_policy: Some("Always".to_string()),
                ..PodSpec::default()
            }),
        },
        ..DeploymentSpec::default()
    });
    let deployment = deploy(&rules(), &instance(), deployment).unwrap();
    assert_eq!(deployment.metadata.uid, Some("own".to_string()));
    let pod = pod(&deployment);
    assert_eq!(pod.restart_policy, Some("Always".to_string()));
    assert_eq!(pod.containers.len(), 2);
    assert_eq!(pod.containers[0], Container { name: "sidecar".to_string(), ..Container::default() });
    assert_eq!(pod.containers[1].args, None);
    assert_eq!(pod.containers[1].env.as_ref().unwrap().len(), 10);
    assert_eq!(pod.volumes.as_ref().unwrap()[0], Volume { name: "mine".to_string(), ..Volume::default() });
}

#[test]
fn a_deployment_takes_one_database_and_one_broker() {
    let new = || Deployment { metadata: found("default"), ..Deployment::default() };
    let mut resource = instance();
    resource.spec.database = Database::default();
    resource.spec.rabbit = Rabbit::default();
    assert_eq!(deploy(&rules(), &resource, new()).unwrap_err(), Error::InvalidDatabase);
    let mut resource = instance();
    resource.spec.rabbit = Rabbit::default();
    assert_eq!(deploy(&rules(), &resource, new()).unwrap_err(), Error::InvalidRabbit);
    let mut resource = instance();
    resource.spec.rabbit.external = Some(RabbitExternal::default());
    assert_eq!(deploy(&rules(), &resource, new()).unwrap_err(), Error::InvalidRabbit);
    assert_eq!(Error::InvalidRabbit.message(), "Invalid Rabbit configuration");
}

#[test]
fn a_deployment_of_something_else_is_refused_first() {
    let mut resource = instance();
    resource.spec.database = Database::default();
    let mut deployment = Deployment { metadata: found("default"), ..Deployment::default() };
    deployment.metadata.owner_references = Some(vec![OwnerReference {
        api_version: "v1".to_string(),
        kind: "Other".to_string(),
        name: "other".to_string(),
        uid: "1".to_string(),
        controller: Some(true),
        block_owner_deletion: None,
    }]);
    assert_eq!(deploy(&rules(), &resource, deployment).unwrap_err(), Error::AlreadyControlled);
}
