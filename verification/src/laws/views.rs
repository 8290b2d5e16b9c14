//! What contracts see of things is what the things hold.

use vstd::prelude::*;

use crate::controller::reconcile::{Action, ActionModel, Progress};
use crate::crd::{
    CommonJdbc, Database, DatabaseVariant, DatabaseVariantModel, Hawkbit, HawkbitSpec, HawkbitStatus, ImageOverride,
    KeycloakConfig, MySQL, PasswordSecretSource, PostgreSQL, Rabbit, RabbitExternal, RabbitManaged, SignOn, SignOnModel,
};
use crate::error;
use crate::error::Error;
use crate::objects::config::{ConfigMap, PolicyRule, Role, RoleBinding, RoleRef, Secret, ServiceAccount, Subject};
use crate::objects::keycloak::{
    Client, Credential, ExternalAccess, Keycloak, KeycloakClient, KeycloakClientSpec, KeycloakRealm, KeycloakRealmSpec,
    KeycloakSpec, KeycloakStatus, KeycloakUser, KeycloakUserSpec, Realm, User,
};
use crate::objects::meta::{LabelSelector, ObjectMeta, OwnerReference};
use crate::objects::network::{
    Route, RoutePort, RouteSpec, RouteTargetReference, Service, ServicePort, ServiceSpec, TLSConfig,
};
use crate::objects::object::{Object, ObjectModel};
use crate::objects::pod::{
    ConfigMapVolumeSource, Container, ContainerPort, EmptyDirVolumeSource, EnvVar, EnvVarSource, EnvVarSourceModel,
    ExecProbe, HttpProbe, PersistentVolumeClaimVolumeSource, PodSpec, PodTemplateSpec, Probe, ProbeModel, Volume,
    VolumeMount,
};
use crate::objects::storage::{PersistentVolumeClaim, PersistentVolumeClaimSpec, ResourceRequirements};
use crate::objects::workload::{Deployment, DeploymentSpec, StatefulSet, StatefulSetSpec, UpdateStrategy};
use crate::outside;
use crate::text_map;
use crate::text_map::TextMap;

verus! {

/// What is said of an instance is what its resource says, field by field.
pub proof fn lemma_view_of_instance(
    hawkbit: Hawkbit,
    hawkbit_spec: HawkbitSpec,
    keycloak_config: KeycloakConfig,
    image_override: ImageOverride,
    database: Database,
    rabbit: Rabbit,
    rabbit_managed: RabbitManaged,
    rabbit_external: RabbitExternal,
    common_jdbc: CommonJdbc,
    mysql: MySQL,
    postgresql: PostgreSQL,
    password_secret_source: PasswordSecretSource,
    hawkbit_status: HawkbitStatus,
)
    ensures
        hawkbit.deep_view().metadata == hawkbit.metadata.deep_view(),
        hawkbit.deep_view().spec == hawkbit.spec.deep_view(),
        hawkbit.deep_view().status == hawkbit.status.deep_view(),
        hawkbit_spec.deep_view().database == hawkbit_spec.database.deep_view(),
        hawkbit_spec.deep_view().rabbit == hawkbit_spec.rabbit.deep_view(),
        hawkbit_spec.deep_view().image_overrides == hawkbit_spec.image_overrides.deep_view(),
        hawkbit_spec.deep_view().sign_on == hawkbit_spec.sign_on.deep_view(),
        keycloak_config.deep_view().use_instance == keycloak_config.use_instance,
        keycloak_config.deep_view().hawkbit_url == keycloak_config.hawkbit_url.deep_view(),
        image_override.deep_view().image == image_override.image.deep_view(),
        image_override.deep_view().pull_policy == image_override.pull_policy.deep_view(),
        database.deep_view().mysql == database.mysql.deep_view(),
        database.deep_view().postgres == database.postgres.deep_view(),
        database.deep_view().embedded == database.embedded.deep_view(),
        rabbit.deep_view().external == rabbit.external.deep_view(),
        rabbit.deep_view().managed == rabbit.managed.deep_view(),
        rabbit_managed.deep_view().storage_size == rabbit_managed.storage_size.deep_view(),
        rabbit_managed.deep_view().resources == rabbit_managed.resources,
        rabbit_external.deep_view().host == rabbit_external.host.deep_view(),
        rabbit_external.deep_view().port == rabbit_external.port,
        rabbit_external.deep_view().username == rabbit_external.username.deep_view(),
        rabbit_external.deep_view().password_secret == rabbit_external.password_secret.deep_view(),
        common_jdbc.deep_view().host == common_jdbc.host.deep_view(),
        common_jdbc.deep_view().port == common_jdbc.port,
        common_jdbc.deep_view().database == common_jdbc.database.deep_view(),
        common_jdbc.deep_view().url == common_jdbc.url.deep_view(),
        common_jdbc.deep_view().username == common_jdbc.username.deep_view(),
        common_jdbc.deep_view().password_secret == common_jdbc.password_secret.deep_view(),
        mysql.deep_view().jdbc == mysql.jdbc.deep_view(),
        postgresql.deep_view().jdbc == postgresql.jdbc.deep_view(),
        password_secret_source.deep_view().name == password_secret_source.name.deep_view(),
        password_secret_source.deep_view().field == password_secret_source.field.deep_view(),
        hawkbit_status.deep_view().phase == hawkbit_status.phase.deep_view(),
        hawkbit_status.deep_view().message == hawkbit_status.message.deep_view(),
{
}

/// The metadata of an object, field by field.
pub proof fn lemma_view_of_metadata(
    owner_reference: OwnerReference,
    object_meta: ObjectMeta,
    label_selector: LabelSelector,
)
    ensures
        owner_reference.deep_view().api_version == owner_reference.api_version.deep_view(),
        owner_reference.deep_view().kind == owner_reference.kind.deep_view(),
        owner_reference.deep_view().name == owner_reference.name.deep_view(),
        owner_reference.deep_view().uid == owner_reference.uid.deep_view(),
        owner_reference.deep_view().controller == owner_reference.controller,
        owner_reference.deep_view().block_owner_deletion == owner_reference.block_owner_deletion,
        object_meta.deep_view().name == object_meta.name.deep_view(),
        object_meta.deep_view().namespace == object_meta.namespace.deep_view(),
        object_meta.deep_view().uid == object_meta.uid.deep_view(),
        object_meta.deep_view().labels == object_meta.labels.deep_view(),
        object_meta.deep_view().annotations == object_meta.annotations.deep_view(),
        object_meta.deep_view().owner_references == object_meta.owner_references.deep_view(),
        object_meta.deep_view().rest == object_meta.rest,
        label_selector.deep_view().match_labels == label_selector.match_labels.deep_view(),
{
}

/// Pods and their parts, field by field.
pub proof fn lemma_view_of_pods(
    env_var: EnvVar,
    container_port: ContainerPort,
    volume_mount: VolumeMount,
    http_probe: HttpProbe,
    exec_probe: ExecProbe,
    container: Container,
    config_map_volume_source: ConfigMapVolumeSource,
    persistent_volume_claim_volume_source: PersistentVolumeClaimVolumeSource,
    empty_dir_volume_source: EmptyDirVolumeSource,
    volume: Volume,
    pod_spec: PodSpec,
    pod_template_spec: PodTemplateSpec,
)
    ensures
        env_var.deep_view().name == env_var.name.deep_view(),
        env_var.deep_view().value == env_var.value.deep_view(),
        env_var.deep_view().value_from == env_var.value_from.deep_view(),
        container_port.deep_view().name == container_port.name.deep_view(),
        container_port.deep_view().container_port == container_port.container_port,
        container_port.deep_view().protocol == container_port.protocol.deep_view(),
        container_port.deep_view().host_ip == container_port.host_ip.deep_view(),
        container_port.deep_view().host_port == container_port.host_port,
        volume_mount.deep_view().name == volume_mount.name.deep_view(),
        volume_mount.deep_view().mount_path == volume_mount.mount_path.deep_view(),
        volume_mount.deep_view().read_only == volume_mount.read_only,
        volume_mount.deep_view().mount_propagation == volume_mount.mount_propagation.deep_view(),
        volume_mount.deep_view().sub_path == volume_mount.sub_path.deep_view(),
        volume_mount.deep_view().sub_path_expr == volume_mount.sub_path_expr.deep_view(),
        http_probe.deep_view().path == http_probe.path.deep_view(),
        http_probe.deep_view().port == http_probe.port.deep_view(),
        http_probe.deep_view().failure_threshold == http_probe.failure_threshold,
        http_probe.deep_view().initial_delay_seconds == http_probe.initial_delay_seconds,
        http_probe.deep_view().period_seconds == http_probe.period_seconds,
        http_probe.deep_view().success_threshold == http_probe.success_threshold,
        http_probe.deep_view().timeout_seconds == http_probe.timeout_seconds,
        exec_probe.deep_view().command == exec_probe.command.deep_view(),
        exec_probe.deep_view().initial_delay_seconds == exec_probe.initial_delay_seconds,
        exec_probe.deep_view().period_seconds == exec_probe.period_seconds,
        exec_probe.deep_view().timeout_seconds == exec_probe.timeout_seconds,
        container.deep_view().name == container.name.deep_view(),
        container.deep_view().image == container.image.deep_view(),
        container.deep_view().image_pull_policy == container.image_pull_policy.deep_view(),
        container.deep_view().command == container.command.deep_view(),
        container.deep_view().args == container.args.deep_view(),
        container.deep_view().working_dir == container.working_dir.deep_view(),
        container.deep_view().env == container.env.deep_view(),
        container.deep_view().ports == container.ports.deep_view(),
        container.deep_view().volume_mounts == container.volume_mounts.deep_view(),
        container.deep_view().readiness_probe == container.readiness_probe.deep_view(),
        container.deep_view().liveness_probe == container.liveness_probe.deep_view(),
        container.deep_view().rest == container.rest,
        config_map_volume_source.deep_view().name == config_map_volume_source.name.deep_view(),
        config_map_volume_source.deep_view().default_mode == config_map_volume_source.default_mode,
        config_map_volume_source.deep_view().rest == config_map_volume_source.rest,
        persistent_volume_claim_volume_source.deep_view().claim_name
            == persistent_volume_claim_volume_source.claim_name.deep_view(),
        persistent_volume_claim_volume_source.deep_view().read_only == persistent_volume_claim_volume_source.read_only,
        empty_dir_volume_source.deep_view().medium == empty_dir_volume_source.medium.deep_view(),
        empty_dir_volume_source.deep_view().size_limit == empty_dir_volume_source.size_limit.deep_view(),
        volume.deep_view().name == volume.name.deep_view(),
        volume.deep_view().config_map == volume.config_map.deep_view(),
        volume.deep_view().persistent_volume_claim == volume.persistent_volume_claim.deep_view(),
        volume.deep_view().empty_dir == volume.empty_dir.deep_view(),
        volume.deep_view().rest == volume.rest,
        pod_spec.deep_view().service_account == pod_spec.service_account.deep_view(),
        pod_spec.deep_view().restart_policy == pod_spec.restart_policy.deep_view(),
        pod_spec.deep_view().init_containers == pod_spec.init_containers.deep_view(),
        pod_spec.deep_view().containers == pod_spec.containers.deep_view(),
        pod_spec.deep_view().volumes == pod_spec.volumes.deep_view(),
        pod_spec.deep_view().rest == pod_spec.rest,
        pod_template_spec.deep_view().metadata == pod_template_spec.metadata.deep_view(),
        pod_template_spec.deep_view().spec == pod_template_spec.spec.deep_view(),
{
}

/// Claims for storage, field by field.
pub proof fn lemma_view_of_storage(
    resource_requirements: ResourceRequirements,
    persistent_volume_claim_spec: PersistentVolumeClaimSpec,
    persistent_volume_claim: PersistentVolumeClaim,
)
    ensures
        resource_requirements.deep_view().limits == resource_requirements.limits.deep_view(),
        resource_requirements.deep_view().requests == resource_requirements.requests.deep_view(),
        persistent_volume_claim_spec.deep_view().access_modes == persistent_volume_claim_spec.access_modes.deep_view(),
        persistent_volume_claim_spec.deep_view().resources == persistent_volume_claim_spec.resources.deep_view(),
        persistent_volume_claim_spec.deep_view().rest == persistent_volume_claim_spec.rest,
        persistent_volume_claim.deep_view().metadata == persistent_volume_claim.metadata.deep_view(),
        persistent_volume_claim.deep_view().spec == persistent_volume_claim.spec.deep_view(),
        persistent_volume_claim.deep_view().rest == persistent_volume_claim.rest,
{
}

/// Deployments and stateful sets, field by field.
pub proof fn lemma_view_of_workloads(
    update_strategy: UpdateStrategy,
    deployment_spec: DeploymentSpec,
    deployment: Deployment,
    stateful_set_spec: StatefulSetSpec,
    stateful_set: StatefulSet,
)
    ensures
        update_strategy.deep_view().type_ == update_strategy.type_.deep_view(),
        deployment_spec.deep_view().replicas == deployment_spec.replicas,
        deployment_spec.deep_view().strategy == deployment_spec.strategy.deep_view(),
        deployment_spec.deep_view().selector == deployment_spec.selector.deep_view(),
        deployment_spec.deep_view().template == deployment_spec.template.deep_view(),
        deployment_spec.deep_view().rest == deployment_spec.rest,
        deployment.deep_view().metadata == deployment.metadata.deep_view(),
        deployment.deep_view().spec == deployment.spec.deep_view(),
        deployment.deep_view().rest == deployment.rest,
        stateful_set_spec.deep_view().service_name == stateful_set_spec.service_name.deep_view(),
        stateful_set_spec.deep_view().selector == stateful_set_spec.selector.deep_view(),
        stateful_set_spec.deep_view().template == stateful_set_spec.template.deep_view(),
        stateful_set_spec.deep_view().pod_management_policy == stateful_set_spec.pod_management_policy.deep_view(),
        stateful_set_spec.deep_view().update_strategy == stateful_set_spec.update_strategy.deep_view(),
        stateful_set_spec.deep_view().volume_claim_templates == stateful_set_spec.volume_claim_templates.deep_view(),
        stateful_set_spec.deep_view().rest == stateful_set_spec.rest,
        stateful_set.deep_view().metadata == stateful_set.metadata.deep_view(),
        stateful_set.deep_view().spec == stateful_set.spec.deep_view(),
        stateful_set.deep_view().rest == stateful_set.rest,
{
}

/// Config maps, secrets, accounts and roles, field by field.
pub proof fn lemma_view_of_configuration(
    config_map: ConfigMap,
    secret: Secret,
    service_account: ServiceAccount,
    policy_rule: PolicyRule,
    role: Role,
    subject: Subject,
    role_ref: RoleRef,
    role_binding: RoleBinding,
)
    ensures
        config_map.deep_view().metadata == config_map.metadata.deep_view(),
        config_map.deep_view().data == config_map.data.deep_view(),
        config_map.deep_view().rest == config_map.rest,
        secret.deep_view().metadata == secret.metadata.deep_view(),
        secret.deep_view().data == secret.data.deep_view(),
        secret.deep_view().rest == secret.rest,
        service_account.deep_view().metadata == service_account.metadata.deep_view(),
        service_account.deep_view().rest == service_account.rest,
        policy_rule.deep_view().api_groups == policy_rule.api_groups.deep_view(),
        policy_rule.deep_view().resources == policy_rule.resources.deep_view(),
        policy_rule.deep_view().verbs == policy_rule.verbs.deep_view(),
        role.deep_view().metadata == role.metadata.deep_view(),
        role.deep_view().rules == role.rules.deep_view(),
        subject.deep_view().kind == subject.kind.deep_view(),
        subject.deep_view().name == subject.name.deep_view(),
        role_ref.deep_view().api_group == role_ref.api_group.deep_view(),
        role_ref.deep_view().kind == role_ref.kind.deep_view(),
        role_ref.deep_view().name == role_ref.name.deep_view(),
        role_binding.deep_view().metadata == role_binding.metadata.deep_view(),
        role_binding.deep_view().subjects == role_binding.subjects.deep_view(),
        role_binding.deep_view().role_ref == role_binding.role_ref.deep_view(),
{
}

/// Services and routes, field by field.
pub proof fn lemma_view_of_network(
    service_port: ServicePort,
    service_spec: ServiceSpec,
    service: Service,
    route_target_reference: RouteTargetReference,
    route_port: RoutePort,
    tls_config: TLSConfig,
    route_spec: RouteSpec,
    route: Route,
)
    ensures
        service_port.deep_view().name == service_port.name.deep_view(),
        service_port.deep_view().port == service_port.port,
        service_port.deep_view().protocol == service_port.protocol.deep_view(),
        service_port.deep_view().target_port == service_port.target_port.deep_view(),
        service_spec.deep_view().type_ == service_spec.type_.deep_view(),
        service_spec.deep_view().cluster_ip == service_spec.cluster_ip.deep_view(),
        service_spec.deep_view().selector == service_spec.selector.deep_view(),
        service_spec.deep_view().ports == service_spec.ports.deep_view(),
        service_spec.deep_view().rest == service_spec.rest,
        service.deep_view().metadata == service.metadata.deep_view(),
        service.deep_view().spec == service.spec.deep_view(),
        service.deep_view().rest == service.rest,
        route_target_reference.deep_view().kind == route_target_reference.kind.deep_view(),
        route_target_reference.deep_view().name == route_target_reference.name.deep_view(),
        route_target_reference.deep_view().weight == route_target_reference.weight,
        route_port.deep_view().target_port == route_port.target_port.deep_view(),
        tls_config.deep_view().insecure_edge_termination_policy
            == tls_config.insecure_edge_termination_policy.deep_view(),
        tls_config.deep_view().termination == tls_config.termination.deep_view(),
        route_spec.deep_view().host == route_spec.host.deep_view(),
        route_spec.deep_view().to == route_spec.to.deep_view(),
        route_spec.deep_view().port == route_spec.port.deep_view(),
        route_spec.deep_view().tls == route_spec.tls.deep_view(),
        route.deep_view().metadata == route.metadata.deep_view(),
        route.deep_view().spec == route.spec.deep_view(),
        route.deep_view().rest == route.rest,
{
}

/// The objects of Keycloak, field by field.
pub proof fn lemma_view_of_keycloak(
    external_access: ExternalAccess,
    keycloak_spec: KeycloakSpec,
    keycloak_status: KeycloakStatus,
    keycloak: Keycloak,
    realm: Realm,
    keycloak_realm_spec: KeycloakRealmSpec,
    keycloak_realm: KeycloakRealm,
    client: Client,
    keycloak_client_spec: KeycloakClientSpec,
    keycloak_client: KeycloakClient,
    credential: Credential,
    user: User,
    keycloak_user_spec: KeycloakUserSpec,
    keycloak_user: KeycloakUser,
)
    ensures
        external_access.deep_view().enabled == external_access.enabled,
        keycloak_spec.deep_view().instances == keycloak_spec.instances,
        keycloak_spec.deep_view().external_access == keycloak_spec.external_access.deep_view(),
        keycloak_status.deep_view().internal_url == keycloak_status.internal_url.deep_view(),
        keycloak.deep_view().metadata == keycloak.metadata.deep_view(),
        keycloak.deep_view().spec == keycloak.spec.deep_view(),
        keycloak.deep_view().status == keycloak.status.deep_view(),
        keycloak.deep_view().rest == keycloak.rest,
        realm.deep_view().display_name == realm.display_name.deep_view(),
        realm.deep_view().enabled == realm.enabled,
        realm.deep_view().realm == realm.realm.deep_view(),
        keycloak_realm_spec.deep_view().instance_selector == keycloak_realm_spec.instance_selector.deep_view(),
        keycloak_realm_spec.deep_view().realm == keycloak_realm_spec.realm.deep_view(),
        keycloak_realm.deep_view().metadata == keycloak_realm.metadata.deep_view(),
        keycloak_realm.deep_view().spec == keycloak_realm.spec.deep_view(),
        keycloak_realm.deep_view().rest == keycloak_realm.rest,
        client.deep_view().client_id == client.client_id.deep_view(),
        client.deep_view().enabled == client.enabled,
        client.deep_view().root_url == client.root_url.deep_view(),
        client.deep_view().base_url == client.base_url.deep_view(),
        client.deep_view().redirect_uris == client.redirect_uris.deep_view(),
        client.deep_view().client_authenticator_type == client.client_authenticator_type.deep_view(),
        client.deep_view().implicit_flow_enabled == client.implicit_flow_enabled,
        client.deep_view().public_client == client.public_client,
        client.deep_view().standard_flow_enabled == client.standard_flow_enabled,
        client.deep_view().default_roles == client.default_roles.deep_view(),
        keycloak_client_spec.deep_view().realm_selector == keycloak_client_spec.realm_selector.deep_view(),
        keycloak_client_spec.deep_view().client == keycloak_client_spec.client.deep_view(),
        keycloak_client.deep_view().metadata == keycloak_client.metadata.deep_view(),
        keycloak_client.deep_view().spec == keycloak_client.spec.deep_view(),
        keycloak_client.deep_view().rest == keycloak_client.rest,
        credential.deep_view().temporary == credential.temporary,
        credential.deep_view().type_ == credential.type_.deep_view(),
        credential.deep_view().value == credential.value.deep_view(),
        user.deep_view().credentials == user.credentials.deep_view(),
        user.deep_view().username == user.username.deep_view(),
        user.deep_view().enabled == user.enabled,
        user.deep_view().first_name == user.first_name.deep_view(),
        user.deep_view().last_name == user.last_name.deep_view(),
        user.deep_view().client_roles == user.client_roles.deep_view(),
        keycloak_user_spec.deep_view().realm_selector == keycloak_user_spec.realm_selector.deep_view(),
        keycloak_user_spec.deep_view().user == keycloak_user_spec.user.deep_view(),
        keycloak_user.deep_view().metadata == keycloak_user.metadata.deep_view(),
        keycloak_user.deep_view().spec == keycloak_user.spec.deep_view(),
        keycloak_user.deep_view().rest == keycloak_user.rest,
{
}

/// Things that are one of several, and which of them they are.
pub proof fn lemma_view_of_choices(
    sign_on: SignOn,
    source: EnvVarSource,
    probe: Probe,
    variant: DatabaseVariant,
    action: Action,
    progress: Progress,
)
    ensures
        sign_on matches SignOn::Keycloak { config } ==> sign_on.deep_view() == (SignOnModel::Keycloak {
            config: config.deep_view(),
        }),
        source matches EnvVarSource::SecretKey { name, key } ==> source.deep_view() == (EnvVarSourceModel::SecretKey {
            name: name@,
            key: key@,
        }),
        source matches EnvVarSource::FieldPath { path } ==> source.deep_view() == (EnvVarSourceModel::FieldPath {
            path: path@,
        }),
        source matches EnvVarSource::Other { source: other } ==> source.deep_view() == (EnvVarSourceModel::Other {
            source: other,
        }),
        probe matches Probe::Http(p) ==> probe.deep_view() == ProbeModel::Http(p.deep_view()),
        probe matches Probe::Exec(p) ==> probe.deep_view() == ProbeModel::Exec(p.deep_view()),
        probe matches Probe::Other(p) ==> probe.deep_view() == ProbeModel::Other(p),
        variant matches DatabaseVariant::MySQL(m) ==> variant.deep_view() == DatabaseVariantModel::MySQL(m.deep_view()),
        variant matches DatabaseVariant::PostgreSQL(p) ==> variant.deep_view() == DatabaseVariantModel::PostgreSQL(
            p.deep_view(),
        ),
        variant matches DatabaseVariant::Embedded ==> variant.deep_view() == DatabaseVariantModel::Embedded,
        action matches Action::Apply { target, name } ==> action.deep_view() == (ActionModel::Apply {
            target,
            name: name@,
        }),
        action matches Action::Delete { target, name } ==> action.deep_view() == (ActionModel::Delete {
            target,
            name: name@,
        }),
        action matches Action::ListKeycloaks { selector } ==> action.deep_view() == (ActionModel::ListKeycloaks {
            selector: selector@,
        }),
        action is Done ==> action.deep_view() == ActionModel::Done,
        action matches Action::Failed { message } ==> action.deep_view() == (ActionModel::Failed { message: message@ }),
        progress.deep_view().url == progress.url.deep_view(),
        progress.deep_view().issuer_uri == progress.issuer_uri.deep_view(),
        progress.deep_view().broker == outside::taken_in(progress.broker),
        progress.deep_view().server == outside::taken_in(progress.server),
{
}

/// An object of one of the kinds is seen as one of that kind.
pub proof fn lemma_view_of_objects(object: Object)
    ensures
        object matches Object::ServiceAccount(o) ==> object.deep_view() == ObjectModel::ServiceAccount(o.deep_view()),
        object matches Object::Role(o) ==> object.deep_view() == ObjectModel::Role(o.deep_view()),
        object matches Object::RoleBinding(o) ==> object.deep_view() == ObjectModel::RoleBinding(o.deep_view()),
        object matches Object::Secret(o) ==> object.deep_view() == ObjectModel::Secret(o.deep_view()),
        object matches Object::ConfigMap(o) ==> object.deep_view() == ObjectModel::ConfigMap(o.deep_view()),
        object matches Object::StatefulSet(o) ==> object.deep_view() == ObjectModel::StatefulSet(o.deep_view()),
        object matches Object::Deployment(o) ==> object.deep_view() == ObjectModel::Deployment(o.deep_view()),
        object matches Object::Service(o) ==> object.deep_view() == ObjectModel::Service(o.deep_view()),
        object matches Object::Route(o) ==> object.deep_view() == ObjectModel::Route(o.deep_view()),
        object matches Object::PersistentVolumeClaim(o) ==> object.deep_view() == ObjectModel::PersistentVolumeClaim(
            o.deep_view(),
        ),
        object matches Object::Keycloak(o) ==> object.deep_view() == ObjectModel::Keycloak(o.deep_view()),
        object matches Object::KeycloakRealm(o) ==> object.deep_view() == ObjectModel::KeycloakRealm(o.deep_view()),
        object matches Object::KeycloakClient(o) ==> object.deep_view() == ObjectModel::KeycloakClient(o.deep_view()),
        object matches Object::KeycloakUser(o) ==> object.deep_view() == ObjectModel::KeycloakUser(o.deep_view()),
{
}

/// A list of entries without repeated keys stands for the map that has each of them, and nothing else.
pub proof fn lemma_view_of_maps<V>(entries: Seq<(String, V)>, i: int, key: Seq<char>)
    requires
        forall|a: int, b: int| 0 <= a < b < entries.len() ==> (#[trigger] entries[a]).0@ != (#[trigger] entries[b]).0@,
        0 <= i < entries.len(),
    ensures
        text_map::map_of(entries).contains_key(entries[i].0@),
        text_map::map_of(entries)[entries[i].0@] == entries[i].1,
        text_map::map_of(entries).contains_key(key) <==> exists|j: int|
            0 <= j < entries.len() && (#[trigger] entries[j]).0@ == key,
{
    let keys = text_map::keys_of(entries);
    assert(keys[i] == entries[i].0@);
    let at = keys.index_of(entries[i].0@);
    assert(keys[at] == entries[at].0@);
    if keys.contains(key) {
        let j = keys.index_of(key);
        assert(entries[j].0@ == key);
    }
    if exists|j: int| 0 <= j < entries.len() && (#[trigger] entries[j]).0@ == key {
        let j = choose|j: int| 0 <= j < entries.len() && (#[trigger] entries[j]).0@ == key;
        assert(keys[j] == key);
    }
}

/// What is seen of a map has the same keys, and under each of them what is seen of its value.
pub proof fn lemma_view_of_values<V: DeepView>(map: TextMap<V>, key: Seq<char>)
    ensures
        map.deep_view().contains_key(key) <==> map@.contains_key(key),
        map@.contains_key(key) ==> map.deep_view()[key] == map@[key].deep_view(),
{
}

/// An instance goes by the name in its metadata, and its kind by group and version.
pub proof fn lemma_view_of_names(resource: Hawkbit)
    ensures
        resource.deep_view().is_named() <==> resource.metadata.name is Some,
        resource.metadata.name is Some ==> resource.deep_view().name() == resource.metadata.name->0@,
        Hawkbit::API_VERSION@ == Hawkbit::GROUP@ + "/"@ + Hawkbit::VERSION@,
        Hawkbit::API_VERSION@ == "iot.eclipse.org/v1alpha1"@,
        Hawkbit::VERSION@ == "v1alpha1"@,
        Hawkbit::KIND@ == "Hawkbit"@,
{
    reveal_strlit("iot.eclipse.org/v1alpha1");
    reveal_strlit("iot.eclipse.org");
    reveal_strlit("/");
    reveal_strlit("v1alpha1");
    assert(Hawkbit::API_VERSION@ =~= Hawkbit::GROUP@ + "/"@ + Hawkbit::VERSION@);
}

/// What comes of an attempt is seen as what it is.
pub proof fn lemma_view_of_outcomes<T: DeepView>(r: Result<T, Error>)
    ensures
        r matches Ok(value) ==> error::outcome(r) == Ok::<T::V, Error>(value.deep_view()),
        r matches Err(e) ==> error::outcome(r) == Err::<T::V, Error>(e),
{
}

} // verus!
