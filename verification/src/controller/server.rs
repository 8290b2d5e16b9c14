//! The deployment of an instance's update server.

use vstd::prelude::*;

use crate::controller;
use crate::controller::HawkbitController;
use crate::crd;
use crate::crd::{
    CommonJdbcModel, DatabaseOptions, DatabaseVariant, DatabaseVariantModel, Hawkbit, HawkbitModel, ImageOverrideModel,
};
use crate::entries;
use crate::error;
use crate::error::Error;
use crate::install;
use crate::laws::wiring;
use crate::objects::meta::{LabelSelector, LabelSelectorModel, ObjectMeta, ObjectMetaModel};
use crate::objects::pod::{
    Container, ContainerModel, EnvVar, EnvVarModel, HttpProbe, HttpProbeModel, PodSpec, PodSpecModel, PodTemplateSpec,
    PodTemplateSpecModel, Probe, ProbeModel, Volume, VolumeModel,
    VolumeMountModel,
};
use crate::objects::workload::{
    Deployment, DeploymentModel, DeploymentSpec, DeploymentSpecModel, UpdateStrategy,
    UpdateStrategyModel,
};
use crate::outside;
use crate::ownership;
use crate::text;

use operator_framework::tracker::ConfigTracker;

verus! {

/// The variables for a database that is reached through JDBC.
pub open spec fn jdbc_env(protocol: Seq<char>, port: u16, jdbc: CommonJdbcModel) -> Seq<EnvVarModel> {
    seq![
        install::env_value("SPRING_DATASOURCE_URL"@, crd::jdbc_url(protocol, port, jdbc)),
        install::env_value("SPRING_DATASOURCE_USERNAME"@, jdbc.username),
        install::env_secret("SPRING_DATASOURCE_PASSWORD"@, jdbc.password_secret.name, jdbc.password_secret.field),
    ]
}

/// The variables for the database.
pub open spec fn database_env(variant: DatabaseVariantModel) -> Seq<EnvVarModel> {
    match variant {
        DatabaseVariantModel::MySQL(mysql) => seq![
            install::env_value("SPRING_JPA_DATABASE"@, "MYSQL"@),
            install::env_value("SPRING_DATASOURCE_DRIVERCLASSNAME"@, "org.mariadb.jdbc.Driver"@),
        ] + jdbc_env("mysql"@, 3306, mysql.jdbc),
        DatabaseVariantModel::PostgreSQL(postgres) => seq![
            install::env_value("SPRING_JPA_DATABASE"@, "POSTGRESQL"@),
            install::env_value("SPRING_DATASOURCE_DRIVERCLASSNAME"@, "org.postgresql.Driver"@),
        ] + jdbc_env("postgresql"@, 5432, postgres.jdbc),
        DatabaseVariantModel::Embedded => seq![
            install::env_value("SPRING_JPA_DATABASE"@, "H2"@),
            install::env_value("SPRING_DATASOURCE_DRIVERCLASSNAME"@, "org.h2.Driver"@),
            install::env_value("SPRING_DATASOURCE_URL"@, "jdbc:h2:/embedded-db/hawkbit"@),
        ],
    }
}

/// The secret that Keycloak's operator makes for the client.
pub open spec fn client_secret_name(resource: HawkbitModel) -> Seq<char> {
    "keycloak-client-secret-"@ + resource.name() + "-hawkbit"@
}

/// The secret with the administrator's credentials.
pub open spec fn admin_secret_name(resource: HawkbitModel) -> Seq<char> {
    resource.name() + "-admin"@
}

/// The name that the objects of the broker go by.
pub open spec fn broker_name(resource: HawkbitModel) -> Seq<char> {
    resource.name() + "-rabbit"@
}

/// The claim for the artifacts.
pub open spec fn data_claim_name(resource: HawkbitModel) -> Seq<char> {
    resource.name() + "-data"@
}

/// The claim for the embedded database.
pub open spec fn database_claim_name(resource: HawkbitModel) -> Seq<char> {
    resource.name() + "-embedded-db"@
}

/// The variables for signing on.
pub open spec fn sign_on_env(resource: HawkbitModel) -> Seq<EnvVarModel> {
    if resource.spec.sign_on is Some {
        seq![
            install::env_secret(
                "SPRING_SECURITY_OAUTH2_CLIENT_REGISTRATION_HAWKBIT_CLIENTID"@,
                client_secret_name(resource),
                "CLIENT_ID"@,
            ),
            install::env_secret(
                "SPRING_SECURITY_OAUTH2_CLIENT_REGISTRATION_HAWKBIT_CLIENTSECRET"@,
                client_secret_name(resource),
                "CLIENT_SECRET"@,
            ),
        ]
    } else {
        seq![
            install::env_secret("SPRING_SECURITY_USER_NAME"@, admin_secret_name(resource), "adminUsername"@),
            install::env_secret("SPRING_SECURITY_USER_PASSWORD"@, admin_secret_name(resource), "adminPassword"@),
        ]
    }
}

/// The variables for the broker, if exactly one is given.
pub open spec fn broker_env(resource: HawkbitModel) -> Option<Seq<EnvVarModel>> {
    match (resource.spec.rabbit.external, resource.spec.rabbit.managed) {
        (Some(external), None) => Some(
            seq![
                install::env_value("SPRING_RABBITMQ_HOST"@, external.host),
                install::env_value("SPRING_RABBITMQ_PORT"@, text::decimal(external.port as nat)),
                install::env_value("SPRING_RABBITMQ_USERNAME"@, external.username),
                install::env_secret(
                    "SPRING_RABBITMQ_PASSWORD"@,
                    external.password_secret.name,
                    external.password_secret.field,
                ),
            ],
        ),
        (None, Some(_)) => Some(
            seq![
                install::env_value("SPRING_RABBITMQ_HOST"@, broker_name(resource)),
                install::env_value("SPRING_RABBITMQ_PORT"@, "5672"@),
                install::env_secret("SPRING_RABBITMQ_USERNAME"@, broker_name(resource), "default.username"@),
                install::env_secret("SPRING_RABBITMQ_PASSWORD"@, broker_name(resource), "default.password"@),
            ],
        ),
        _ => None,
    }
}

/// The variables for where artifacts are kept, and how they are reached.
pub open spec fn artifact_env(has_openshift: bool) -> Seq<EnvVarModel> {
    if has_openshift {
        seq![
            install::env_value("org.eclipse.hawkbit.repository.file.path"@, "/etc/hawkbit/storage"@),
            install::env_value("hawkbit.artifact.url.protocols.download-http.port"@, "443"@),
            install::env_value("hawkbit.artifact.url.protocols.download-http.protocol"@, "https"@),
        ]
    } else {
        seq![install::env_value("org.eclipse.hawkbit.repository.file.path"@, "/etc/hawkbit/storage"@)]
    }
}

/// The environment of the server.
pub open spec fn server_env(
    resource: HawkbitModel,
    has_openshift: bool,
    variant: DatabaseVariantModel,
    broker: Seq<EnvVarModel>,
) -> Seq<EnvVarModel> {
    database_env(variant) + sign_on_env(resource) + broker + artifact_env(has_openshift)
}

/// What is asked of the server's image, if anything.
pub open spec fn server_override(resource: HawkbitModel) -> ImageOverrideModel {
    if resource.spec.image_overrides.contains_key("hawkbit-update-server"@) {
        resource.spec.image_overrides["hawkbit-update-server"@]
    } else {
        ImageOverrideModel::blank()
    }
}

/// The image of the server: the one asked for, or the one that fits the database.
pub open spec fn server_image(resource: HawkbitModel, variant: DatabaseVariantModel) -> Seq<char> {
    match server_override(resource).image {
        Some(image) => image,
        None => controller::image("hawkbit-update-server"@) + if variant is MySQL {
            "-mysql"@
        } else {
            ""@
        },
    }
}

/// A check that the server answers.
pub open spec fn server_probe(failures: i32, delay: i32, period: i32) -> ProbeModel {
    ProbeModel::Http(
        HttpProbeModel {
            path: "/VAADIN/themes/hawkbit/favicon.ico"@,
            port: "http"@,
            failure_threshold: failures,
            initial_delay_seconds: delay,
            period_seconds: period,
            success_threshold: 1,
            timeout_seconds: 2,
        },
    )
}

/// The volumes that the server has mounted, besides those it had.
pub open spec fn server_mounts(
    mounts: Option<Seq<VolumeMountModel>>,
    variant: DatabaseVariantModel,
) -> Option<Seq<VolumeMountModel>> {
    let database = if variant is Embedded {
        install::with_mount(mounts, "embedded-db"@, "/embedded-db"@, false)
    } else {
        mounts
    };
    install::with_mount(
        install::with_mount(database, "config"@, "/opt/hawkbit/config"@, true),
        "storage"@,
        "/etc/hawkbit/storage"@,
        false,
    )
}

/// The server's container.
pub open spec fn server_container(
    container: ContainerModel,
    resource: HawkbitModel,
    has_openshift: bool,
    variant: DatabaseVariantModel,
    broker: Seq<EnvVarModel>,
) -> ContainerModel {
    ContainerModel {
        image: Some(server_image(resource, variant)),
        image_pull_policy: server_override(resource).pull_policy,
        args: None,
        command: Some(seq!["java"@, "-jar"@, "hawkbit-update-server.jar"@]),
        working_dir: None,
        env: Some(server_env(resource, has_openshift, variant, broker)),
        ports: install::with_port(container.ports, "http"@, 8080, "TCP"@),
        readiness_probe: Some(server_probe(3, 10, 1)),
        liveness_probe: Some(server_probe(5, 30, 5)),
        volume_mounts: server_mounts(container.volume_mounts, variant),
        ..container
    }
}

/// The volumes of the server's pod.
pub open spec fn server_volumes(
    volumes: Option<Seq<VolumeModel>>,
    resource: HawkbitModel,
    variant: DatabaseVariantModel,
) -> Option<Seq<VolumeModel>> {
    let common = install::with_claim(
        install::with_config_map(volumes, "config"@, resource.name(), None),
        "storage"@,
        data_claim_name(resource),
    );
    if variant is Embedded {
        install::with_claim(common, "embedded-db"@, database_claim_name(resource))
    } else {
        install::without::<Volume>(common, "embedded-db"@)
    }
}

/// The server's pod.
pub open spec fn server_pod(
    pod: PodSpecModel,
    resource: HawkbitModel,
    has_openshift: bool,
    variant: DatabaseVariantModel,
    broker: Seq<EnvVarModel>,
) -> PodSpecModel {
    PodSpecModel {
        containers: entries::applied::<Container>(
            pod.containers,
            "server"@,
            |c: ContainerModel| server_container(c, resource, has_openshift, variant, broker),
        ),
        service_account: Some(resource.name()),
        init_containers: None,
        volumes: server_volumes(pod.volumes, resource, variant),
        ..pod
    }
}

/// The labels of the server.
pub open spec fn server_labels(resource: HawkbitModel) -> Map<Seq<char>, Seq<char>> {
    controller::labels(resource, "server"@, "server"@)
}

/// What the server's deployment asks for.
pub open spec fn deployment_spec(
    spec: DeploymentSpecModel,
    resource: HawkbitModel,
    has_openshift: bool,
    variant: DatabaseVariantModel,
    broker: Seq<EnvVarModel>,
    hash: Seq<char>,
) -> DeploymentSpecModel {
    DeploymentSpecModel {
        replicas: Some(1),
        strategy: Some(UpdateStrategyModel { type_: Some("Recreate"@) }),
        selector: LabelSelectorModel { match_labels: Some(server_labels(resource)) },
        template: PodTemplateSpecModel {
            metadata: Some(
                ObjectMetaModel {
                    labels: Some(server_labels(resource).insert("config-hash"@, hash)),
                    ..ObjectMetaModel::blank()
                },
            ),
            spec: Some(
                server_pod(
                    if spec.template.spec is Some {
                        spec.template.spec->0
                    } else {
                        PodSpecModel::blank()
                    },
                    resource,
                    has_openshift,
                    variant,
                    broker,
                ),
            ),
        },
        ..spec
    }
}

/// The server's deployment, or why there is none.
pub open spec fn deployment(
    deployment: DeploymentModel,
    resource: HawkbitModel,
    has_openshift: bool,
    hash: Seq<char>,
) -> Result<DeploymentModel, Error> {
    match ownership::owned(deployment.metadata, resource) {
        Err(e) => Err(e),
        Ok(meta) => match (resource.spec.database.variant(), broker_env(resource)) {
            (None, _) => Err(Error::InvalidDatabase),
            (_, None) => Err(Error::InvalidRabbit),
            (Some(variant), Some(broker)) => Ok(
                DeploymentModel {
                    metadata: ObjectMetaModel { labels: Some(server_labels(resource)), ..meta },
                    spec: Some(
                        deployment_spec(
                            if deployment.spec is Some {
                                deployment.spec->0
                            } else {
                                DeploymentSpecModel::blank()
                            },
                            resource,
                            has_openshift,
                            variant,
                            broker,
                            hash,
                        ),
                    ),
                    ..deployment
                },
            ),
        },
    }
}

fn probe(failures: i32, delay: i32, period: i32) -> (r: Probe)
    ensures
        r.deep_view() == server_probe(failures, delay, period),
{
    Probe::Http(
        HttpProbe {
            path: "/VAADIN/themes/hawkbit/favicon.ico".to_string(),
            port: "http".to_string(),
            failure_threshold: failures,
            initial_delay_seconds: delay,
            period_seconds: period,
            success_threshold: 1,
            timeout_seconds: 2,
        },
    )
}

impl HawkbitController {
    /// Sets the variables for a database that is reached through JDBC.
    pub fn apply_common_jdbc<J: DatabaseOptions>(&self, env: &mut Vec<EnvVar>, jdbc: &J)
        ensures
            final(env).deep_view() == install::with_all(
                old(env).deep_view(),
                jdbc_env(jdbc.protocol(), jdbc.standard_port(), jdbc.jdbc()),
            ),
    {
        let url = match jdbc.url() {
            Ok(url) => url,
            Err(_) => String::new(),
        };
        let common = jdbc.common();
        install::add_env(env, "SPRING_DATASOURCE_URL", url.as_str());
        install::add_env(env, "SPRING_DATASOURCE_USERNAME", common.username.as_str());
        install::add_env_from_secret(
            env,
            "SPRING_DATASOURCE_PASSWORD",
            common.password_secret.name.as_str(),
            common.password_secret.field.as_str(),
        );
        proof {
            let start = old(env).deep_view();
            let variables = jdbc_env(jdbc.protocol(), jdbc.standard_port(), jdbc.jdbc());
            install::lemma_with_next(start, variables, 0);
            install::lemma_with_next(start, variables, 1);
            install::lemma_with_next(start, variables, 2);
        }
    }

    fn apply_database(&self, env: &mut Vec<EnvVar>, variant: &DatabaseVariant)
        ensures
            final(env).deep_view() == install::with_all(old(env).deep_view(), database_env(variant.deep_view())),
    {
        match variant {
            DatabaseVariant::MySQL(mysql) => {
                install::add_env(env, "SPRING_JPA_DATABASE", "MYSQL");
                install::add_env(env, "SPRING_DATASOURCE_DRIVERCLASSNAME", "org.mariadb.jdbc.Driver");
                self.apply_common_jdbc(env, *mysql);
            },
            DatabaseVariant::PostgreSQL(postgres) => {
                install::add_env(env, "SPRING_JPA_DATABASE", "POSTGRESQL");
                install::add_env(env, "SPRING_DATASOURCE_DRIVERCLASSNAME", "org.postgresql.Driver");
                self.apply_common_jdbc(env, *postgres);
            },
            DatabaseVariant::Embedded => {
                install::add_env(env, "SPRING_JPA_DATABASE", "H2");
                install::add_env(env, "SPRING_DATASOURCE_DRIVERCLASSNAME", "org.h2.Driver");
                install::add_env(env, "SPRING_DATASOURCE_URL", "jdbc:h2:/embedded-db/hawkbit");
            },
        }
        proof {
            let start = old(env).deep_view();
            let variables = database_env(variant.deep_view());
            match variant {
                DatabaseVariant::Embedded => {
                    install::lemma_with_next(start, variables, 0);
                    install::lemma_with_next(start, variables, 1);
                    install::lemma_with_next(start, variables, 2);
                },
                _ => {
                    let first = variables.take(2);
                    install::lemma_with_next(start, first, 0);
                    install::lemma_with_next(start, first, 1);
                    assert(first.take(2) =~= first);
                    assert(first + variables.skip(2) =~= variables);
                    install::lemma_with_more(start, first, variables.skip(2));
                },
            }
            match variant {
                DatabaseVariant::MySQL(mysql) => {
                    assert(variables.skip(2) =~= jdbc_env("mysql"@, 3306, mysql.deep_view().jdbc));
                },
                DatabaseVariant::PostgreSQL(postgres) => {
                    assert(variables.skip(2) =~= jdbc_env("postgresql"@, 5432, postgres.deep_view().jdbc));
                },
                _ => {},
            }
        }
    }

    fn apply_sign_on(&self, env: &mut Vec<EnvVar>, resource: &Hawkbit)
        requires
            resource.deep_view().is_named(),
        ensures
            final(env).deep_view() == install::with_all(old(env).deep_view(), sign_on_env(resource.deep_view())),
    {
        match &resource.spec.sign_on {
            Some(_) => {
                let secret = text::chain3("keycloak-client-secret-", resource.name().as_str(), "-hawkbit");
                install::add_env_from_secret(
                    env,
                    "SPRING_SECURITY_OAUTH2_CLIENT_REGISTRATION_HAWKBIT_CLIENTID",
                    secret.as_str(),
                    "CLIENT_ID",
                );
                install::add_env_from_secret(
                    env,
                    "SPRING_SECURITY_OAUTH2_CLIENT_REGISTRATION_HAWKBIT_CLIENTSECRET",
                    secret.as_str(),
                    "CLIENT_SECRET",
                );
            },
            None => {
                let secret = text::chain(resource.name().as_str(), "-admin");
                install::add_env_from_secret(env, "SPRING_SECURITY_USER_NAME", secret.as_str(), "adminUsername");
                install::add_env_from_secret(env, "SPRING_SECURITY_USER_PASSWORD", secret.as_str(), "adminPassword");
            },
        }
        proof {
            let start = old(env).deep_view();
            let variables = sign_on_env(resource.deep_view());
            install::lemma_with_next(start, variables, 0);
            install::lemma_with_next(start, variables, 1);
        }
    }

    /// Sets the variables for the broker; nothing is promised of them where there is an error.
    fn apply_broker(&self, env: &mut Vec<EnvVar>, resource: &Hawkbit) -> (r: Result<(), Error>)
        requires
            resource.deep_view().is_named(),
        ensures
            match broker_env(resource.deep_view()) {
                Some(broker) => r is Ok && final(env).deep_view() == install::with_all(old(env).deep_view(), broker),
                None => r == Err::<(), Error>(Error::InvalidRabbit),
            },
    {
        match (&resource.spec.rabbit.external, &resource.spec.rabbit.managed) {
            (Some(external), None) => {
                install::add_env(env, "SPRING_RABBITMQ_HOST", external.host.as_str());
                install::add_env(env, "SPRING_RABBITMQ_PORT", text::to_decimal(external.port).as_str());
                install::add_env(env, "SPRING_RABBITMQ_USERNAME", external.username.as_str());
                install::add_env_from_secret(
                    env,
                    "SPRING_RABBITMQ_PASSWORD",
                    external.password_secret.name.as_str(),
                    external.password_secret.field.as_str(),
                );
            },
            (None, Some(_)) => {
                let rabbit = text::chain(resource.name().as_str(), "-rabbit");
                install::add_env(env, "SPRING_RABBITMQ_HOST", rabbit.as_str());
                install::add_env(env, "SPRING_RABBITMQ_PORT", "5672");
                install::add_env_from_secret(env, "SPRING_RABBITMQ_USERNAME", rabbit.as_str(), "default.username");
                install::add_env_from_secret(env, "SPRING_RABBITMQ_PASSWORD", rabbit.as_str(), "default.password");
            },
            _ => {
                return Err(Error::InvalidRabbit);
            },
        }
        proof {
            let start = old(env).deep_view();
            let variables = broker_env(resource.deep_view())->0;
            install::lemma_with_next(start, variables, 0);
            install::lemma_with_next(start, variables, 1);
            install::lemma_with_next(start, variables, 2);
            install::lemma_with_next(start, variables, 3);
        }
        Ok(())
    }

    fn apply_artifacts(&self, env: &mut Vec<EnvVar>)
        ensures
            final(env).deep_view() == install::with_all(old(env).deep_view(), artifact_env(self.has_openshift)),
    {
        install::add_env(env, "org.eclipse.hawkbit.repository.file.path", "/etc/hawkbit/storage");
        if self.has_openshift {
            install::add_env(env, "hawkbit.artifact.url.protocols.download-http.port", "443");
            install::add_env(env, "hawkbit.artifact.url.protocols.download-http.protocol", "https");
        }
        proof {
            let start = old(env).deep_view();
            let variables = artifact_env(self.has_openshift);
            install::lemma_with_next(start, variables, 0);
            if self.has_openshift {
                install::lemma_with_next(start, variables, 1);
                install::lemma_with_next(start, variables, 2);
            }
        }
    }

    /// The environment of the server.
    fn environment(&self, resource: &Hawkbit, variant: &DatabaseVariant) -> (r: Result<Vec<EnvVar>, Error>)
        requires
            resource.deep_view().is_named(),
        ensures
            error::outcome(r) == match broker_env(resource.deep_view()) {
                Some(broker) => Ok::<Seq<EnvVarModel>, Error>(
                    server_env(resource.deep_view(), self.has_openshift, variant.deep_view(), broker),
                ),
                None => Err(Error::InvalidRabbit),
            },
    {
        let mut env: Vec<EnvVar> = Vec::new();
        assert(env.deep_view() =~= Seq::empty());
        self.apply_database(&mut env, variant);
        self.apply_sign_on(&mut env, resource);
        match self.apply_broker(&mut env, resource) {
            Ok(_) => {},
            Err(e) => {
                return Err(e);
            },
        }
        self.apply_artifacts(&mut env);
        proof {
            let none = Seq::<EnvVarModel>::empty();
            let database = database_env(variant.deep_view());
            let sign_on = sign_on_env(resource.deep_view());
            let broker = broker_env(resource.deep_view())->0;
            let artifacts = artifact_env(self.has_openshift);
            install::lemma_with_more(none, database, sign_on);
            install::lemma_with_more(none, database + sign_on, broker);
            install::lemma_with_more(none, database + sign_on + broker, artifacts);
            wiring::lemma_server_env_is_distinct(resource.deep_view(), self.has_openshift, variant.deep_view());
            install::lemma_from_nothing(database + sign_on + broker + artifacts);
        }
        Ok(env)
    }

    /// The image of the server, and when it is pulled.
    fn image_of(&self, resource: &Hawkbit, variant: &DatabaseVariant) -> (r: (String, Option<String>))
        ensures
            r.0@ == server_image(resource.deep_view(), variant.deep_view()),
            r.1.deep_view() == server_override(resource.deep_view()).pull_policy,
    {
        let suffix = match variant {
            DatabaseVariant::MySQL(_) => "-mysql",
            _ => "",
        };
        let over = resource.spec.image_overrides.get("hawkbit-update-server");
        let pull_policy = match over {
            Some(over) => over.pull_policy.clone(),
            None => None,
        };
        let image = match over {
            Some(over) => over.image.clone(),
            None => None,
        };
        let name = match image {
            Some(image) => image,
            None => text::chain(self.image_name("hawkbit-update-server").as_str(), suffix),
        };
        (name, pull_policy)
    }

    /// Fills in the server's container.
    fn apply_server(&self, container: &mut Container, resource: &Hawkbit, variant: &DatabaseVariant, env: Vec<EnvVar>)
        requires
            resource.deep_view().is_named(),
            broker_env(resource.deep_view()) is Some,
            env.deep_view() == server_env(
                resource.deep_view(),
                self.has_openshift,
                variant.deep_view(),
                broker_env(resource.deep_view())->0,
            ),
        ensures
            final(container).deep_view() == server_container(
                old(container).deep_view(),
                resource.deep_view(),
                self.has_openshift,
                variant.deep_view(),
                broker_env(resource.deep_view())->0,
            ),
    {
        let (image, pull_policy) = self.image_of(resource, variant);
        container.image = Some(image);
        container.image_pull_policy = pull_policy;
        container.args = None;
        let command = vec!["java".to_string(), "-jar".to_string(), "hawkbit-update-server.jar".to_string()];
        assert(command.deep_view() =~= seq!["java"@, "-jar"@, "hawkbit-update-server.jar"@]);
        container.command = Some(command);
        container.working_dir = None;
        container.env = Some(env);
        match variant {
            DatabaseVariant::Embedded => {
                install::add_mount(&mut container.volume_mounts, "embedded-db", "/embedded-db", false);
            },
            _ => {},
        }
        install::add_port(&mut container.ports, "http", 8080, "TCP");
        container.readiness_probe = Some(probe(3, 10, 1));
        container.liveness_probe = Some(probe(5, 30, 5));
        install::add_mount(&mut container.volume_mounts, "config", "/opt/hawkbit/config", true);
        install::add_mount(&mut container.volume_mounts, "storage", "/etc/hawkbit/storage", false);
    }

    /// Fills in the volumes of the server's pod.
    fn apply_volumes(&self, volumes: &mut Option<Vec<Volume>>, resource: &Hawkbit, variant: &DatabaseVariant)
        requires
            resource.deep_view().is_named(),
        ensures
            final(volumes).deep_view() == server_volumes(
                old(volumes).deep_view(),
                resource.deep_view(),
                variant.deep_view(),
            ),
    {
        let name = resource.name();
        let data = text::chain(name.as_str(), "-data");
        install::add_config_map(volumes, "config", name.as_str(), None);
        install::add_claim(volumes, "storage", data.as_str());
        match variant {
            DatabaseVariant::Embedded => {
                let database = text::chain(name.as_str(), "-embedded-db");
                install::add_claim(volumes, "embedded-db", database.as_str());
            },
            _ => {
                install::drop_entry(volumes, "embedded-db");
            },
        }
    }

    /// Fills in the server's pod.
    fn apply_pod(&self, pod: &mut PodSpec, resource: &Hawkbit, variant: &DatabaseVariant, env: Vec<EnvVar>)
        requires
            resource.deep_view().is_named(),
            broker_env(resource.deep_view()) is Some,
            env.deep_view() == server_env(
                resource.deep_view(),
                self.has_openshift,
                variant.deep_view(),
                broker_env(resource.deep_view())->0,
            ),
        ensures
            final(pod).deep_view() == server_pod(
                old(pod).deep_view(),
                resource.deep_view(),
                self.has_openshift,
                variant.deep_view(),
                broker_env(resource.deep_view())->0,
            ),
    {
        let ghost broker = broker_env(resource.deep_view())->0;
        let ghost start = pod.containers.deep_view();
        let at = entries::find_or_add(&mut pod.containers, "server");
        let ghost before = pod.containers.deep_view();
        self.apply_server(&mut pod.containers[at], resource, variant, env);
        assert(pod.containers.deep_view() =~= before.update(
            at as int,
            server_container(
                before[at as int],
                resource.deep_view(),
                self.has_openshift,
                variant.deep_view(),
                broker,
            ),
        ));
        assert(pod.containers.deep_view() =~= entries::applied::<Container>(
            start,
            "server"@,
            |c: ContainerModel|
                server_container(c, resource.deep_view(), self.has_openshift, variant.deep_view(), broker),
        ));
        pod.service_account = Some(resource.name());
        pod.init_containers = None;
        self.apply_volumes(&mut pod.volumes, resource, variant);
    }

    /// Brings the server's deployment into shape.
    pub fn create_deployment(
        &self,
        resource: &Hawkbit,
        deployment: Deployment,
        tracker: &ConfigTracker,
    ) -> (r: Result<Deployment, Error>)
        requires
            resource.deep_view().is_named(),
        ensures
            error::outcome(r) == self::deployment(
                deployment.deep_view(),
                resource.deep_view(),
                self.has_openshift,
                outside::digest(outside::taken_in(*tracker)),
            ),
    {
        let mut metadata = match ownership::owned_by_controller(deployment.metadata, resource) {
            Ok(metadata) => metadata,
            Err(e) => {
                return Err(e);
            },
        };
        let variant = match resource.spec.database.variant() {
            Ok(variant) => variant,
            Err(e) => {
                return Err(e);
            },
        };
        let env = match self.environment(resource, &variant) {
            Ok(env) => env,
            Err(e) => {
                return Err(e);
            },
        };
        let mut spec = match deployment.spec {
            Some(spec) => spec,
            None => DeploymentSpec::default(),
        };
        let mut pod = match spec.template.spec {
            Some(pod) => pod,
            None => PodSpec::default(),
        };
        self.apply_pod(&mut pod, resource, &variant, env);
        metadata.labels = Some(self.selector(resource, "server", "server"));
        spec.replicas = Some(1);
        spec.strategy = Some(UpdateStrategy { type_: Some("Recreate".to_string()) });
        spec.selector = LabelSelector { match_labels: Some(self.selector(resource, "server", "server")) };
        let mut labels = self.selector(resource, "server", "server");
        labels.insert("config-hash".to_string(), tracker.current_hash());
        let mut pod_meta = ObjectMeta::default();
        pod_meta.labels = Some(labels);
        spec.template = PodTemplateSpec { metadata: Some(pod_meta), spec: Some(pod) };
        Ok(Deployment { metadata, spec: Some(spec), rest: deployment.rest })
    }
}

} // verus!
