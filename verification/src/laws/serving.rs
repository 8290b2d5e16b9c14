//! What the server is run with.

use vstd::prelude::*;

use crate::controller;
use crate::controller::server;
use crate::crd::HawkbitModel;
use crate::entries;
use crate::entries::Entry;
use crate::error::Error;
use crate::install;
use crate::laws::wiring;
use crate::objects::pod::{
    Container, ContainerModel, ContainerPort, ContainerPortModel, EnvVar, EnvVarModel, EnvVarSourceModel, PodSpecModel,
    ProbeModel, VolumeMount, VolumeMountModel,
};
use crate::objects::workload::{DeploymentModel, DeploymentSpecModel};
use crate::ownership;
use crate::text;

verus! {

/// The server's container in a deployment.
pub open spec fn server_of(deployment: DeploymentModel) -> ContainerModel {
    entries::entry::<Container>(deployment.spec->0.template.spec->0.containers, "server"@)
}

/// The variable has that value.
pub open spec fn is_set(env: Seq<EnvVarModel>, name: Seq<char>, value: Seq<char>) -> bool {
    &&& entries::holds::<EnvVar>(env, name)
    &&& entries::entry::<EnvVar>(env, name).value == Some(value)
    &&& entries::entry::<EnvVar>(env, name).value_from is None
}

/// The variable takes its value from that field of that secret.
pub open spec fn is_taken(env: Seq<EnvVarModel>, name: Seq<char>, secret: Seq<char>, key: Seq<char>) -> bool {
    &&& entries::holds::<EnvVar>(env, name)
    &&& entries::entry::<EnvVar>(env, name).value is None
    &&& entries::entry::<EnvVar>(env, name).value_from == Some(EnvVarSourceModel::SecretKey { name: secret, key })
}

/// The variable takes its value from that field of its pod.
pub open spec fn is_read(env: Seq<EnvVarModel>, name: Seq<char>, path: Seq<char>) -> bool {
    &&& entries::holds::<EnvVar>(env, name)
    &&& entries::entry::<EnvVar>(env, name).value is None
    &&& entries::entry::<EnvVar>(env, name).value_from == Some(EnvVarSourceModel::FieldPath { path })
}

/// Where no variable is set twice, each is found by its name.
pub proof fn lemma_found(env: Seq<EnvVarModel>, i: int)
    requires
        install::distinct(env),
        0 <= i < env.len(),
    ensures
        entries::holds::<EnvVar>(env, env[i].name),
        entries::entry::<EnvVar>(env, env[i].name) == env[i],
        entries::position::<EnvVar>(env, env[i].name) == i,
{
    assert forall|j: int| 0 <= j < i implies !EnvVar::goes_by(#[trigger] env[j], env[i].name) by {
        assert(env[j].name != env[i].name);
    }
    entries::lemma_position_is::<EnvVar>(env, env[i].name, i);
}

/// The server's container is there, with an environment in which no variable is set twice.
pub proof fn lemma_server_of(
    deployment: DeploymentModel,
    resource: HawkbitModel,
    has_openshift: bool,
    hash: Seq<char>,
)
    requires
        server::deployment(deployment, resource, has_openshift, hash) is Ok,
    ensures
        ({
            let after = server::deployment(deployment, resource, has_openshift, hash)->Ok_0;
            let pod = if deployment.spec is Some && deployment.spec->0.template.spec is Some {
                deployment.spec->0.template.spec->0
            } else {
                PodSpecModel::blank()
            };
            let before = if entries::holds::<Container>(pod.containers, "server"@) {
                entries::entry::<Container>(pod.containers, "server"@)
            } else {
                Container::blank_entry("server"@)
            };
            let variant = resource.spec.database.variant()->0;
            let broker = server::broker_env(resource)->0;
            &&& entries::holds::<Container>(after.spec->0.template.spec->0.containers, "server"@)
            &&& server_of(after) == server::server_container(before, resource, has_openshift, variant, broker)
            &&& server_of(after).env is Some
            &&& install::distinct(server_of(after).env->0)
        }),
{
    let variant = resource.spec.database.variant()->0;
    let broker = server::broker_env(resource)->0;
    let fill = |c: ContainerModel| server::server_container(c, resource, has_openshift, variant, broker);
    let spec = if deployment.spec is Some {
        deployment.spec->0
    } else {
        DeploymentSpecModel::blank()
    };
    let pod = if spec.template.spec is Some {
        spec.template.spec->0
    } else {
        PodSpecModel::blank()
    };
    entries::lemma_applied::<Container>(pod.containers, "server"@, fill);
    wiring::lemma_server_env_is_distinct(resource, has_openshift, variant);
}

/// The image that is asked for is used, whatever the database is; and so is the pull policy.
pub proof fn lemma_image_override(
    deployment: DeploymentModel,
    resource: HawkbitModel,
    has_openshift: bool,
    hash: Seq<char>,
)
    requires
        server::deployment(deployment, resource, has_openshift, hash) is Ok,
        resource.spec.image_overrides.contains_key("hawkbit-update-server"@),
    ensures
        ({
            let asked = resource.spec.image_overrides["hawkbit-update-server"@];
            let server = server_of(server::deployment(deployment, resource, has_openshift, hash)->Ok_0);
            &&& asked.image is Some ==> server.image == asked.image
            &&& server.image_pull_policy == asked.pull_policy
        }),
{
    lemma_server_of(deployment, resource, has_openshift, hash);
}

/// Where no image is asked for, it is the standard one, with another tag just for MySQL; and where nothing is asked
/// of it at all, the pull policy is left to the cluster.
pub proof fn lemma_standard_image(
    deployment: DeploymentModel,
    resource: HawkbitModel,
    has_openshift: bool,
    hash: Seq<char>,
)
    requires
        server::deployment(deployment, resource, has_openshift, hash) is Ok,
        resource.spec.image_overrides.contains_key("hawkbit-update-server"@)
            ==> resource.spec.image_overrides["hawkbit-update-server"@].image is None,
    ensures
        ({
            let server = server_of(server::deployment(deployment, resource, has_openshift, hash)->Ok_0);
            &&& resource.spec.database.mysql is Some ==> server.image == Some(
                "docker.io/hawkbit/hawkbit-update-server:0.3.0M6-mysql"@,
            )
            &&& resource.spec.database.mysql is None ==> server.image == Some(
                "docker.io/hawkbit/hawkbit-update-server:0.3.0M6"@,
            )
            &&& !resource.spec.image_overrides.contains_key("hawkbit-update-server"@) ==> server.image_pull_policy
                is None
        }),
{
    lemma_server_of(deployment, resource, has_openshift, hash);
    reveal_strlit("docker.io/hawkbit");
    reveal_strlit("/");
    reveal_strlit("hawkbit-update-server");
    reveal_strlit(":");
    reveal_strlit("0.3.0M6");
    reveal_strlit("-mysql");
    reveal_strlit("");
    reveal_strlit("docker.io/hawkbit/hawkbit-update-server:0.3.0M6");
    reveal_strlit("docker.io/hawkbit/hawkbit-update-server:0.3.0M6-mysql");
    let plain = "docker.io/hawkbit"@ + "/"@ + "hawkbit-update-server"@ + ":"@ + "0.3.0M6"@;
    assert(plain =~= "docker.io/hawkbit/hawkbit-update-server:0.3.0M6"@);
    assert(plain + "-mysql"@ =~= "docker.io/hawkbit/hawkbit-update-server:0.3.0M6-mysql"@);
    assert(plain + ""@ =~= plain);
}

/// Every image is that of the registry and the version that are installed.
pub proof fn lemma_image_name(base: Seq<char>)
    ensures
        controller::image(base) == "docker.io/hawkbit/"@ + base + ":0.3.0M6"@,
{
    reveal_strlit("docker.io/hawkbit");
    reveal_strlit("/");
    reveal_strlit(":");
    reveal_strlit("0.3.0M6");
    reveal_strlit("docker.io/hawkbit/");
    reveal_strlit(":0.3.0M6");
    assert("docker.io/hawkbit"@ + "/"@ =~= "docker.io/hawkbit/"@);
    assert(":"@ + "0.3.0M6"@ =~= ":0.3.0M6"@);
    assert(controller::image(base) =~= "docker.io/hawkbit/"@ + base + ":0.3.0M6"@);
}

/// What the server has mounted, in the deployment.
pub proof fn lemma_server_mounts(
    deployment: DeploymentModel,
    resource: HawkbitModel,
    has_openshift: bool,
    hash: Seq<char>,
)
    requires
        server::deployment(deployment, resource, has_openshift, hash) is Ok,
    ensures
        ({
            let server = server_of(server::deployment(deployment, resource, has_openshift, hash)->Ok_0);
            &&& wiring::is_mounted(server, "config"@, "/opt/hawkbit/config"@, true)
            &&& wiring::is_mounted(server, "storage"@, "/etc/hawkbit/storage"@, false)
            &&& resource.spec.database.embedded is Some ==> wiring::is_mounted(
                server,
                "embedded-db"@,
                "/embedded-db"@,
                false,
            )
        }),
{
    let variant = resource.spec.database.variant()->0;
    let broker = server::broker_env(resource)->0;
    let spec = if deployment.spec is Some {
        deployment.spec->0
    } else {
        DeploymentSpecModel::blank()
    };
    let pod = if spec.template.spec is Some {
        spec.template.spec->0
    } else {
        PodSpecModel::blank()
    };
    wiring::lemma_server_storage(pod, resource, has_openshift, variant, broker);
}

/// How many variables the server's environment has: those for the database, two for signing on, four for the broker
/// and those for the artifacts, none of them set twice. There is no room for any other.
pub proof fn lemma_number_of_variables(
    deployment: DeploymentModel,
    resource: HawkbitModel,
    has_openshift: bool,
    hash: Seq<char>,
)
    requires
        server::deployment(deployment, resource, has_openshift, hash) is Ok,
    ensures
        ({
            let server = server_of(server::deployment(deployment, resource, has_openshift, hash)->Ok_0);
            &&& server.env is Some
            &&& server.env->0.len() == (if resource.spec.database.embedded is Some {
                3int
            } else {
                5int
            }) + 2 + 4 + (if has_openshift {
                3int
            } else {
                1int
            })
            &&& install::distinct(server.env->0)
        }),
{
    lemma_server_of(deployment, resource, has_openshift, hash);
}

/// The variables stand in one order: the database, signing on, the broker, and the artifacts.
pub proof fn lemma_order_of_variables(
    deployment: DeploymentModel,
    resource: HawkbitModel,
    has_openshift: bool,
    hash: Seq<char>,
)
    requires
        server::deployment(deployment, resource, has_openshift, hash) is Ok,
    ensures
        ({
            let env = server_of(server::deployment(deployment, resource, has_openshift, hash)->Ok_0).env->0;
            let n = if resource.spec.database.embedded is Some {
                3int
            } else {
                5int
            };
            &&& env[0].name == "SPRING_JPA_DATABASE"@
            &&& env[1].name == "SPRING_DATASOURCE_DRIVERCLASSNAME"@
            &&& env[2].name == "SPRING_DATASOURCE_URL"@
            &&& n == 5 ==> env[3].name == "SPRING_DATASOURCE_USERNAME"@
            &&& n == 5 ==> env[4].name == "SPRING_DATASOURCE_PASSWORD"@
            &&& resource.spec.sign_on is None ==> env[n].name == "SPRING_SECURITY_USER_NAME"@
            &&& resource.spec.sign_on is None ==> env[n + 1].name == "SPRING_SECURITY_USER_PASSWORD"@
            &&& resource.spec.sign_on is Some ==> env[n].name
                == "SPRING_SECURITY_OAUTH2_CLIENT_REGISTRATION_HAWKBIT_CLIENTID"@
            &&& resource.spec.sign_on is Some ==> env[n + 1].name
                == "SPRING_SECURITY_OAUTH2_CLIENT_REGISTRATION_HAWKBIT_CLIENTSECRET"@
            &&& env[n + 2].name == "SPRING_RABBITMQ_HOST"@
            &&& env[n + 3].name == "SPRING_RABBITMQ_PORT"@
            &&& env[n + 4].name == "SPRING_RABBITMQ_USERNAME"@
            &&& env[n + 5].name == "SPRING_RABBITMQ_PASSWORD"@
            &&& env[n + 6].name == "org.eclipse.hawkbit.repository.file.path"@
            &&& has_openshift ==> env[n + 7].name == "hawkbit.artifact.url.protocols.download-http.port"@
            &&& has_openshift ==> env[n + 8].name == "hawkbit.artifact.url.protocols.download-http.protocol"@
        }),
{
    lemma_server_of(deployment, resource, has_openshift, hash);
}

/// Without another way to sign on, the server takes user and password from the administrator's secret; with
/// Keycloak, it takes the client's credentials from the secret that Keycloak's operator makes for the client.
pub proof fn lemma_server_signs_on(
    deployment: DeploymentModel,
    resource: HawkbitModel,
    has_openshift: bool,
    hash: Seq<char>,
)
    requires
        server::deployment(deployment, resource, has_openshift, hash) is Ok,
    ensures
        ({
            let env = server_of(server::deployment(deployment, resource, has_openshift, hash)->Ok_0).env->0;
            let name = resource.metadata.name->0;
            let client = "keycloak-client-secret-"@ + name + "-hawkbit"@;
            &&& resource.spec.sign_on is None ==> is_taken(
                env,
                "SPRING_SECURITY_USER_NAME"@,
                name + "-admin"@,
                "adminUsername"@,
            )
            &&& resource.spec.sign_on is None ==> is_taken(
                env,
                "SPRING_SECURITY_USER_PASSWORD"@,
                name + "-admin"@,
                "adminPassword"@,
            )
            &&& resource.spec.sign_on is Some ==> is_taken(
                env,
                "SPRING_SECURITY_OAUTH2_CLIENT_REGISTRATION_HAWKBIT_CLIENTID"@,
                client,
                "CLIENT_ID"@,
            )
            &&& resource.spec.sign_on is Some ==> is_taken(
                env,
                "SPRING_SECURITY_OAUTH2_CLIENT_REGISTRATION_HAWKBIT_CLIENTSECRET"@,
                client,
                "CLIENT_SECRET"@,
            )
        }),
{
    lemma_server_of(deployment, resource, has_openshift, hash);
    let env = server_of(server::deployment(deployment, resource, has_openshift, hash)->Ok_0).env->0;
    let variant = resource.spec.database.variant()->0;
    let at = server::database_env(variant).len() as int;
    assert(env[at] == server::sign_on_env(resource)[0]);
    assert(env[at + 1] == server::sign_on_env(resource)[1]);
    lemma_found(env, at);
    lemma_found(env, at + 1);
}

/// A broker that is there already is reached at the host and port that are given, with the user and the
/// password that are given.
pub proof fn lemma_server_uses_external_broker(
    deployment: DeploymentModel,
    resource: HawkbitModel,
    has_openshift: bool,
    hash: Seq<char>,
)
    requires
        server::deployment(deployment, resource, has_openshift, hash) is Ok,
        resource.spec.rabbit.external is Some,
    ensures
        ({
            let env = server_of(server::deployment(deployment, resource, has_openshift, hash)->Ok_0).env->0;
            let broker = resource.spec.rabbit.external->0;
            &&& is_set(env, "SPRING_RABBITMQ_HOST"@, broker.host)
            &&& is_set(env, "SPRING_RABBITMQ_PORT"@, text::decimal(broker.port as nat))
            &&& is_set(env, "SPRING_RABBITMQ_USERNAME"@, broker.username)
            &&& is_taken(
                env,
                "SPRING_RABBITMQ_PASSWORD"@,
                broker.password_secret.name,
                broker.password_secret.field,
            )
        }),
{
    lemma_broker_variables(deployment, resource, has_openshift, hash);
}

/// A broker that is kept is reached by the name of its service, at its port for AMQP.
pub proof fn lemma_server_uses_managed_broker(
    deployment: DeploymentModel,
    resource: HawkbitModel,
    has_openshift: bool,
    hash: Seq<char>,
)
    requires
        server::deployment(deployment, resource, has_openshift, hash) is Ok,
        resource.spec.rabbit.managed is Some,
    ensures
        ({
            let env = server_of(server::deployment(deployment, resource, has_openshift, hash)->Ok_0).env->0;
            let name = resource.metadata.name->0 + "-rabbit"@;
            &&& is_set(env, "SPRING_RABBITMQ_HOST"@, name)
            &&& is_set(env, "SPRING_RABBITMQ_PORT"@, "5672"@)
            &&& is_taken(env, "SPRING_RABBITMQ_USERNAME"@, name, "default.username"@)
            &&& is_taken(env, "SPRING_RABBITMQ_PASSWORD"@, name, "default.password"@)
        }),
{
    lemma_broker_variables(deployment, resource, has_openshift, hash);
}

/// The four variables for the broker are found.
proof fn lemma_broker_variables(
    deployment: DeploymentModel,
    resource: HawkbitModel,
    has_openshift: bool,
    hash: Seq<char>,
)
    requires
        server::deployment(deployment, resource, has_openshift, hash) is Ok,
    ensures
        ({
            let env = server_of(server::deployment(deployment, resource, has_openshift, hash)->Ok_0).env->0;
            let broker = server::broker_env(resource)->0;
            forall|i: int| #![trigger broker[i]]
                0 <= i < broker.len() ==> entries::holds::<EnvVar>(env, broker[i].name) && entries::entry::<EnvVar>(
                    env,
                    broker[i].name,
                ) == broker[i]
        }),
{
    lemma_server_of(deployment, resource, has_openshift, hash);
    let env = server_of(server::deployment(deployment, resource, has_openshift, hash)->Ok_0).env->0;
    let variant = resource.spec.database.variant()->0;
    let broker = server::broker_env(resource)->0;
    let at = server::database_env(variant).len() as int + server::sign_on_env(resource).len();
    assert forall|i: int| #![trigger broker[i]] 0 <= i < broker.len() implies entries::holds::<EnvVar>(
        env,
        broker[i].name,
    ) && entries::entry::<EnvVar>(env, broker[i].name) == broker[i] by {
        assert(env[at + i] == broker[i]);
        lemma_found(env, at + i);
    }
}

/// Artifacts are kept where the claim for them is mounted, and are downloaded through the route just where there is
/// one.
pub proof fn lemma_server_keeps_artifacts(
    deployment: DeploymentModel,
    resource: HawkbitModel,
    has_openshift: bool,
    hash: Seq<char>,
)
    requires
        server::deployment(deployment, resource, has_openshift, hash) is Ok,
    ensures
        ({
            let server = server_of(server::deployment(deployment, resource, has_openshift, hash)->Ok_0);
            let env = server.env->0;
            &&& is_set(env, "org.eclipse.hawkbit.repository.file.path"@, "/etc/hawkbit/storage"@)
            &&& wiring::is_mounted(server, "storage"@, "/etc/hawkbit/storage"@, false)
            &&& has_openshift ==> is_set(env, "hawkbit.artifact.url.protocols.download-http.port"@, "443"@)
            &&& has_openshift ==> is_set(env, "hawkbit.artifact.url.protocols.download-http.protocol"@, "https"@)
        }),
{
    lemma_server_of(deployment, resource, has_openshift, hash);
    lemma_server_mounts(deployment, resource, has_openshift, hash);
    let env = server_of(server::deployment(deployment, resource, has_openshift, hash)->Ok_0).env->0;
    let variant = resource.spec.database.variant()->0;
    let rest = server::artifact_env(has_openshift);
    let at = env.len() - rest.len();
    assert(env[at] == rest[0]);
    lemma_found(env, at);
    if has_openshift {
        assert(env[at + 1] == rest[1]);
        assert(env[at + 2] == rest[2]);
        lemma_found(env, at + 1);
        lemma_found(env, at + 2);
    }
}

/// How the server is started, and how it is seen to be there: by a port that it has.
pub proof fn lemma_server_runs(
    deployment: DeploymentModel,
    resource: HawkbitModel,
    has_openshift: bool,
    hash: Seq<char>,
)
    requires
        server::deployment(deployment, resource, has_openshift, hash) is Ok,
    ensures
        ({
            let server = server_of(server::deployment(deployment, resource, has_openshift, hash)->Ok_0);
            &&& server.name == "server"@
            &&& server.command == Some(seq!["java"@, "-jar"@, "hawkbit-update-server.jar"@])
            &&& server.args is None
            &&& server.working_dir is None
            &&& entries::holds::<ContainerPort>(server.ports->0, "http"@)
            &&& entries::entry::<ContainerPort>(server.ports->0, "http"@).container_port == 8080
            &&& entries::entry::<ContainerPort>(server.ports->0, "http"@).protocol == Some("TCP"@)
            &&& server.readiness_probe matches Some(ProbeModel::Http(ready)) && {
                &&& ready.path == "/VAADIN/themes/hawkbit/favicon.ico"@
                &&& ready.port == "http"@
                &&& ready.failure_threshold == 3
                &&& ready.initial_delay_seconds == 10
                &&& ready.period_seconds == 1
                &&& ready.success_threshold == 1
                &&& ready.timeout_seconds == 2
            }
            &&& server.liveness_probe matches Some(ProbeModel::Http(alive)) && {
                &&& alive.path == "/VAADIN/themes/hawkbit/favicon.ico"@
                &&& alive.port == "http"@
                &&& alive.failure_threshold == 5
                &&& alive.initial_delay_seconds == 30
                &&& alive.period_seconds == 5
                &&& alive.success_threshold == 1
                &&& alive.timeout_seconds == 2
            }
        }),
{
    lemma_server_of(deployment, resource, has_openshift, hash);
    let pod = if deployment.spec is Some && deployment.spec->0.template.spec is Some {
        deployment.spec->0.template.spec->0
    } else {
        PodSpecModel::blank()
    };
    entries::lemma_position::<Container>(pod.containers, "server"@);
    let before = if entries::holds::<Container>(pod.containers, "server"@) {
        entries::entry::<Container>(pod.containers, "server"@)
    } else {
        Container::blank_entry("server"@)
    };
    let http = |p: ContainerPortModel| install::port_set(p, 8080, "TCP"@);
    entries::lemma_applied::<ContainerPort>(install::or_empty(before.ports), "http"@, http);
}

/// The labels of a part of an instance: its name, the instance that it belongs to, and what it is for.
pub open spec fn labelled(resource: HawkbitModel, name: Seq<char>, component: Seq<char>) -> Map<Seq<char>, Seq<char>> {
    map![
        "app.kubernetes.io/name"@ => name,
        "app.kubernetes.io/instance"@ => name + "-"@ + resource.metadata.name->0,
        "app.kubernetes.io/component"@ => component,
    ]
}

/// Every part of an instance is labelled with just its name, its instance and what it is for.
pub proof fn lemma_labelled(resource: HawkbitModel, name: Seq<char>, component: Seq<char>)
    ensures
        controller::labels(resource, name, component) == labelled(resource, name, component),
{
    assert(controller::labels(resource, name, component) =~= labelled(resource, name, component));
}

/// The keys of labels and annotations are those that Kubernetes and OpenShift know.
pub proof fn lemma_known_keys()
    ensures
        controller::KUBERNETES_LABEL_NAME@ == "app.kubernetes.io/name"@,
        controller::KUBERNETES_LABEL_INSTANCE@ == "app.kubernetes.io/instance"@,
        controller::KUBERNETES_LABEL_COMPONENT@ == "app.kubernetes.io/component"@,
        controller::OPENSHIFT_ANNOTATION_CONNECT@ == "app.openshift.io/connects-to"@,
{
}

/// Parts of different instances are labelled differently, and so are parts of one instance with different names.
pub proof fn lemma_instances_are_told_apart(
    a: HawkbitModel,
    b: HawkbitModel,
    name: Seq<char>,
    other: Seq<char>,
    component: Seq<char>,
)
    ensures
        a.metadata.name->0 != b.metadata.name->0 ==> controller::labels(a, name, component) != controller::labels(
            b,
            name,
            component,
        ),
        name != other ==> controller::labels(a, name, component) != controller::labels(a, other, component),
{
    let instance = controller::KUBERNETES_LABEL_INSTANCE@;
    controller::lemma_labels(a, name, component);
    controller::lemma_labels(b, name, component);
    controller::lemma_labels(a, other, component);
    let n = (name + "-"@).len() as int;
    assert((name + "-"@ + a.metadata.name->0).skip(n) =~= a.metadata.name->0);
    assert((name + "-"@ + b.metadata.name->0).skip(n) =~= b.metadata.name->0);
    assert(a.metadata.name->0 != b.metadata.name->0 ==> controller::labels(a, name, component)[instance]
        != controller::labels(b, name, component)[instance]);
    assert(name != other ==> controller::labels(a, name, component)[controller::KUBERNETES_LABEL_NAME@]
        != controller::labels(a, other, component)[controller::KUBERNETES_LABEL_NAME@]);
}

/// One server at a time: the deployment, what it selects and the pods that it makes.
pub proof fn lemma_deployment(
    deployment: DeploymentModel,
    resource: HawkbitModel,
    has_openshift: bool,
    hash: Seq<char>,
)
    requires
        server::deployment(deployment, resource, has_openshift, hash) is Ok,
    ensures
        ({
            let after = server::deployment(deployment, resource, has_openshift, hash)->Ok_0;
            let spec = after.spec->0;
            let pod = spec.template.spec->0;
            let labels = labelled(resource, "server"@, "server"@);
            &&& after.metadata.labels == Some(labels)
            &&& after.spec is Some
            &&& spec.replicas == Some(1i32)
            &&& spec.strategy->0.type_ == Some("Recreate"@)
            &&& spec.selector.match_labels == Some(labels)
            &&& spec.template.metadata is Some
            &&& spec.template.metadata->0.labels == Some(labels.insert("config-hash"@, hash))
            &&& spec.template.metadata->0.name is None
            &&& spec.template.metadata->0.namespace is None
            &&& spec.template.metadata->0.uid is None
            &&& spec.template.metadata->0.annotations is None
            &&& spec.template.metadata->0.owner_references is None
            &&& spec.template.metadata->0.rest is None
            &&& spec.template.spec is Some
            &&& pod.service_account == Some(resource.metadata.name->0)
            &&& pod.init_containers is None
            &&& deployment.spec is Some && deployment.spec->0.template.spec is Some ==> pod.restart_policy
                == deployment.spec->0.template.spec->0.restart_policy
            &&& !(deployment.spec is Some && deployment.spec->0.template.spec is Some) ==> pod.restart_policy is None
        }),
{
    lemma_labelled(resource, "server"@, "server"@);
}

/// The volumes of the server's pod: the configuration and the artifacts, and the database just if it is embedded.
pub proof fn lemma_server_volumes(
    deployment: DeploymentModel,
    resource: HawkbitModel,
    has_openshift: bool,
    hash: Seq<char>,
)
    requires
        server::deployment(deployment, resource, has_openshift, hash) is Ok,
    ensures
        ({
            let after = server::deployment(deployment, resource, has_openshift, hash)->Ok_0;
            let pod = after.spec->0.template.spec->0;
            let name = resource.metadata.name->0;
            &&& wiring::has_volume(pod, "config"@)
            &&& wiring::volume(pod, "config"@).config_map->0.name == Some(name)
            &&& wiring::volume(pod, "config"@).config_map->0.default_mode is None
            &&& wiring::has_volume(pod, "storage"@)
            &&& wiring::volume(pod, "storage"@).persistent_volume_claim->0.claim_name == name + "-data"@
            &&& wiring::has_volume(pod, "embedded-db"@) <==> resource.spec.database.embedded is Some
            &&& resource.spec.database.embedded is Some ==> wiring::volume(
                pod,
                "embedded-db"@,
            ).persistent_volume_claim->0.claim_name == name + "-embedded-db"@
        }),
{
    let variant = resource.spec.database.variant()->0;
    let broker = server::broker_env(resource)->0;
    let spec = if deployment.spec is Some {
        deployment.spec->0
    } else {
        DeploymentSpecModel::blank()
    };
    let pod = if spec.template.spec is Some {
        spec.template.spec->0
    } else {
        PodSpecModel::blank()
    };
    wiring::lemma_server_storage(pod, resource, has_openshift, variant, broker);
    wiring::lemma_names(resource);
}

/// Ports and mounts of the server's container by other names are kept, and so is what is not looked at.
pub proof fn lemma_rest_of_server_kept(
    deployment: DeploymentModel,
    resource: HawkbitModel,
    has_openshift: bool,
    hash: Seq<char>,
    other: Seq<char>,
)
    requires
        server::deployment(deployment, resource, has_openshift, hash) is Ok,
        deployment.spec is Some,
        deployment.spec->0.template.spec is Some,
        entries::holds::<Container>(deployment.spec->0.template.spec->0.containers, "server"@),
    ensures
        ({
            let before = server_of(deployment);
            let after = server_of(server::deployment(deployment, resource, has_openshift, hash)->Ok_0);
            &&& after.rest == before.rest
            &&& other != "http"@ && before.ports is Some && entries::holds::<ContainerPort>(before.ports->0, other) ==> (
            entries::holds::<ContainerPort>(after.ports->0, other) && entries::entry::<ContainerPort>(
                after.ports->0,
                other,
            ) == entries::entry::<ContainerPort>(before.ports->0, other))
            &&& other != "config"@ && other != "storage"@ && (other != "embedded-db"@
                || resource.spec.database.embedded is None) && before.volume_mounts is Some && entries::holds::<
                VolumeMount,
            >(before.volume_mounts->0, other) ==> (entries::holds::<VolumeMount>(
                after.volume_mounts->0,
                other,
            ) && entries::entry::<VolumeMount>(after.volume_mounts->0, other) == entries::entry::<VolumeMount>(
                before.volume_mounts->0,
                other,
            ))
        }),
{
    lemma_server_of(deployment, resource, has_openshift, hash);
    let before = server_of(deployment);
    let variant = resource.spec.database.variant()->0;
    let http = |p: ContainerPortModel| install::port_set(p, 8080, "TCP"@);
    if other != "http"@ {
        entries::lemma_applied_other::<ContainerPort>(install::or_empty(before.ports), "http"@, http, other);
    }
    if other != "config"@ && other != "storage"@ && (other != "embedded-db"@ || !(variant is Embedded)) {
        let database = |m: VolumeMountModel| install::mount_set(m, "/embedded-db"@, false);
        let config = |m: VolumeMountModel| install::mount_set(m, "/opt/hawkbit/config"@, true);
        let storage = |m: VolumeMountModel| install::mount_set(m, "/etc/hawkbit/storage"@, false);
        let start = install::or_empty(before.volume_mounts);
        let a = if variant is Embedded {
            entries::applied::<VolumeMount>(start, "embedded-db"@, database)
        } else {
            start
        };
        let b = entries::applied::<VolumeMount>(a, "config"@, config);
        if other != "embedded-db"@ {
            entries::lemma_applied_other::<VolumeMount>(start, "embedded-db"@, database, other);
        }
        entries::lemma_applied_other::<VolumeMount>(a, "config"@, config, other);
        entries::lemma_applied_other::<VolumeMount>(b, "storage"@, storage, other);
    }
}

/// Why there is no deployment: the instance cannot control it, or has not exactly one database, or not exactly one
/// broker, in this order.
pub proof fn lemma_no_deployment(
    deployment: DeploymentModel,
    resource: HawkbitModel,
    has_openshift: bool,
    hash: Seq<char>,
)
    ensures
        ({
            let after = server::deployment(deployment, resource, has_openshift, hash);
            let database = resource.spec.database;
            let databases = (if database.mysql is Some { 1int } else { 0 }) + (if database.postgres is Some { 1int } else {
                0
            }) + (if database.embedded is Some { 1int } else { 0 });
            let one_broker = resource.spec.rabbit.external is Some != resource.spec.rabbit.managed is Some;
            match ownership::owned(deployment.metadata, resource) {
                Err(e) => after == Err::<DeploymentModel, Error>(e),
                Ok(_) => {
                    &&& databases != 1 ==> after == Err::<DeploymentModel, Error>(Error::InvalidDatabase)
                    &&& databases == 1 && !one_broker ==> after == Err::<DeploymentModel, Error>(Error::InvalidRabbit)
                    &&& databases == 1 && one_broker ==> after is Ok
                },
            }
        }),
{
}

} // verus!
