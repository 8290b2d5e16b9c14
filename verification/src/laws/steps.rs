//! What is asked of the outside world, and what comes of its answers.

use vstd::prelude::*;

use crate::content;
use crate::controller::keycloak;
use crate::controller::rabbit;
use crate::controller::reconcile;
use crate::controller::reconcile::{ActionModel, ProgressModel, ReconciliationModel, Step};
use crate::controller::resources;
use crate::controller::server;
use crate::controller::target::Target;
use crate::crd::{HawkbitModel, HawkbitStatusModel, SignOnModel};
use crate::error::Error;
use crate::laws::hashing;
use crate::objects::config::{ConfigMapModel, RoleBindingModel, RoleModel, SecretModel, ServiceAccountModel};
use crate::objects::keycloak::{KeycloakClientModel, KeycloakModel, KeycloakRealmModel, KeycloakUserModel};
use crate::objects::meta::ObjectMetaModel;
use crate::objects::network::{RouteModel, ServiceModel};
use crate::objects::object::{Kind, ObjectModel};
use crate::objects::storage::PersistentVolumeClaimModel;
use crate::objects::workload::{DeploymentModel, StatefulSetModel};
use crate::outside;
use crate::ownership;

verus! {

/// The names of the objects of an instance, by the name of the instance.
pub proof fn lemma_names_of_objects(resource: HawkbitModel)
    ensures
        ({
            let name = resource.metadata.name->0;
            &&& Target::Route.name_of(resource) == name
            &&& Target::BrokerAccount.name_of(resource) == name + "-rabbit"@
            &&& Target::BrokerRole.name_of(resource) == name + "-rabbit"@
            &&& Target::BrokerRoleBinding.name_of(resource) == name + "-rabbit"@
            &&& Target::BrokerSecret.name_of(resource) == name + "-rabbit"@
            &&& Target::BrokerConfig.name_of(resource) == name + "-rabbit"@
            &&& Target::BrokerSet.name_of(resource) == name + "-rabbit"@
            &&& Target::BrokerHeadlessService.name_of(resource) == name + "-rabbit-headless"@
            &&& Target::BrokerService.name_of(resource) == name + "-rabbit"@
            &&& Target::Keycloak.name_of(resource) == name
            &&& Target::KeycloakRealm.name_of(resource) == name + "-hawkbit"@
            &&& Target::KeycloakClient.name_of(resource) == name + "-hawkbit"@
            &&& Target::KeycloakUser.name_of(resource) == name + "-admin"@
            &&& Target::Account.name_of(resource) == name
            &&& Target::Config.name_of(resource) == name
            &&& Target::AdminSecret.name_of(resource) == name + "-admin"@
            &&& Target::DataClaim.name_of(resource) == name + "-data"@
            &&& Target::DatabaseClaim.name_of(resource) == name + "-embedded-db"@
            &&& Target::Deployment.name_of(resource) == name
            &&& Target::Service.name_of(resource) == name
        }),
{
    reveal_strlit("");
    assert(resource.metadata.name->0 + ""@ =~= resource.metadata.name->0);
}

/// The kind of an object is the kind of the target that it is applied for, whatever the object holds.
pub proof fn lemma_kinds(object: ObjectModel)
    ensures
        object is ServiceAccount <==> object.kind() == Kind::ServiceAccount,
        object is Role <==> object.kind() == Kind::Role,
        object is RoleBinding <==> object.kind() == Kind::RoleBinding,
        object is Secret <==> object.kind() == Kind::Secret,
        object is ConfigMap <==> object.kind() == Kind::ConfigMap,
        object is StatefulSet <==> object.kind() == Kind::StatefulSet,
        object is Deployment <==> object.kind() == Kind::Deployment,
        object is Service <==> object.kind() == Kind::Service,
        object is Route <==> object.kind() == Kind::Route,
        object is PersistentVolumeClaim <==> object.kind() == Kind::PersistentVolumeClaim,
        object is Keycloak <==> object.kind() == Kind::Keycloak,
        object is KeycloakRealm <==> object.kind() == Kind::KeycloakRealm,
        object is KeycloakClient <==> object.kind() == Kind::KeycloakClient,
        object is KeycloakUser <==> object.kind() == Kind::KeycloakUser,
        Target::Route.kind_of() == Kind::Route,
        Target::BrokerAccount.kind_of() == Kind::ServiceAccount,
        Target::BrokerRole.kind_of() == Kind::Role,
        Target::BrokerRoleBinding.kind_of() == Kind::RoleBinding,
        Target::BrokerSecret.kind_of() == Kind::Secret,
        Target::BrokerConfig.kind_of() == Kind::ConfigMap,
        Target::BrokerSet.kind_of() == Kind::StatefulSet,
        Target::BrokerHeadlessService.kind_of() == Kind::Service,
        Target::BrokerService.kind_of() == Kind::Service,
        Target::Keycloak.kind_of() == Kind::Keycloak,
        Target::KeycloakRealm.kind_of() == Kind::KeycloakRealm,
        Target::KeycloakClient.kind_of() == Kind::KeycloakClient,
        Target::KeycloakUser.kind_of() == Kind::KeycloakUser,
        Target::Account.kind_of() == Kind::ServiceAccount,
        Target::Config.kind_of() == Kind::ConfigMap,
        Target::AdminSecret.kind_of() == Kind::Secret,
        Target::DataClaim.kind_of() == Kind::PersistentVolumeClaim,
        Target::DatabaseClaim.kind_of() == Kind::PersistentVolumeClaim,
        Target::Deployment.kind_of() == Kind::Deployment,
        Target::Service.kind_of() == Kind::Service,
{
}

/// A reconciliation begins with the first step, and with nothing known.
pub proof fn lemma_start(resource: HawkbitModel, has_openshift: bool)
    ensures
        ({
            let run = ReconciliationModel::start(resource, has_openshift);
            &&& run.resource == resource
            &&& run.has_openshift == has_openshift
            &&& run.taken == 0
            &&& run.failure is None
            &&& run.progress.url is None
            &&& run.progress.issuer_uri is None
            &&& run.progress.broker.len() == 0
            &&& run.progress.server.len() == 0
            &&& run.steps() == reconcile::plan(resource, has_openshift)
        }),
{
}

/// Only two things stand in the way of a step before it is tried: signing on waits for a URL just where there are
/// routes, no URL is given and the route has none yet; and the deployment takes exactly one database.
pub proof fn lemma_obstacles(step: Step, resource: HawkbitModel, has_openshift: bool, progress: ProgressModel)
    ensures
        ({
            let obstacle = reconcile::obstacle(step, resource, has_openshift, progress);
            let given = match resource.spec.sign_on {
                Some(SignOnModel::Keycloak { config }) => config.hawkbit_url is Some,
                None => false,
            };
            let database = resource.spec.database;
            let databases = (if database.mysql is Some { 1int } else { 0 }) + (if database.postgres is Some { 1int } else {
                0
            }) + (if database.embedded is Some { 1int } else { 0 });
            &&& step == Step::Apply(Target::Keycloak) ==> obstacle == if has_openshift && !given && progress.url is None {
                Some(Error::WaitingForRoute)
            } else {
                None
            }
            &&& step == Step::Apply(Target::Deployment) ==> obstacle == if databases != 1 {
                Some(Error::InvalidDatabase)
            } else {
                None
            }
            &&& step != Step::Apply(Target::Keycloak) && step != Step::Apply(Target::Deployment) ==> obstacle is None
        }),
{
}

/// What is asked for, by where the reconciliation stands.
pub proof fn lemma_action(run: ReconciliationModel)
    ensures
        run.failure is Some ==> run.action() == (ActionModel::Failed { message: run.failure->0 }),
        run.failure is None && run.taken >= run.steps().len() ==> run.action() == ActionModel::Done,
        run.failure is None && run.taken < run.steps().len() ==> {
            let step = run.steps()[run.taken as int];
            match reconcile::obstacle(step, run.resource, run.has_openshift, run.progress) {
                Some(Error::WaitingForRoute) => run.action() == (ActionModel::Failed {
                    message: "Waiting for hawkbit route to be applied"@,
                }),
                Some(Error::InvalidDatabase) => run.action() == (ActionModel::Failed {
                    message: "Invalid database configuration"@,
                }),
                Some(e) => run.action() == (ActionModel::Failed { message: e.text() }),
                None => match step {
                    Step::Apply(target) => run.action() == (ActionModel::Apply {
                        target,
                        name: target.name_of(run.resource),
                    }),
                    Step::Delete(target) => run.action() == (ActionModel::Delete {
                        target,
                        name: target.name_of(run.resource),
                    }),
                    Step::FindIssuer => run.action() == (ActionModel::ListKeycloaks {
                        selector: "app.kubernetes.io/component=sso,app.kubernetes.io/instance=keycloak-"@
                            + run.resource.metadata.name->0 + ",app.kubernetes.io/name=keycloak"@,
                    }),
                },
            }
        },
{
    hashing::lemma_keycloak_selector(run.resource);
}

/// The message of every error.
pub proof fn lemma_messages(e: Error)
    ensures
        e == Error::InvalidDatabase ==> e.text() == "Invalid database configuration"@,
        e == Error::InvalidRabbit ==> e.text() == "Invalid Rabbit configuration"@,
        e == Error::WaitingForRoute ==> e.text() == "Waiting for hawkbit route to be applied"@,
        e == Error::NamespaceMismatch ==> e.text()
            == "If both objects are namespaced, they must belong to the same namespace"@,
        e == Error::ClusterScoped ==> e.text() == "Cluster scoped object must not have a namespaced owner"@,
        e == Error::MissingName ==> e.text() == "Missing name"@,
        e == Error::MissingUid ==> e.text() == "Missing UID"@,
        e == Error::AlreadyControlled ==> e.text() == "Object already has a controller"@,
{
}

/// A step that is done is behind, and nothing else changes; a step that has failed is reported as it was said; and
/// where there is no step, nothing changes.
pub proof fn lemma_answers(run: ReconciliationModel, message: Seq<char>, instances: Seq<KeycloakModel>)
    ensures
        run.step() is Some ==> {
            let next = run.succeeded();
            &&& next.taken == run.taken + 1
            &&& next.failure == run.failure
            &&& next.progress == run.progress
            &&& next.resource == run.resource
            &&& next.has_openshift == run.has_openshift
        },
        run.step() is Some ==> {
            let stopped = run.failed(message);
            &&& stopped.taken == run.taken
            &&& stopped.failure == Some(message)
            &&& stopped.progress == run.progress
            &&& stopped.resource == run.resource
            &&& stopped.has_openshift == run.has_openshift
        },
        run.step() is None ==> run.succeeded() == run && run.failed(message) == run,
        run.step() != Some(Step::FindIssuer) ==> run.listed(instances) == run,
        run.step() is Some <==> run.failure is None && run.taken < run.steps().len() && reconcile::obstacle(
            run.steps()[run.taken as int],
            run.resource,
            run.has_openshift,
            run.progress,
        ) is None,
        run.step() is Some ==> run.step()->0 == run.steps()[run.taken as int],
{
}

/// Applying the object that was asked for takes the instance and what is known as they are, and changes only what is
/// known; an object that was not asked for is not touched.
pub proof fn lemma_apply(run: ReconciliationModel, object: ObjectModel, password: Seq<char>)
    ensures
        run.step() matches Some(Step::Apply(target)) ==> match reconcile::applied(
            target,
            object,
            run.resource,
            run.has_openshift,
            run.progress,
            password,
        ) {
            Ok((shaped, progress)) => run.applied(object, password) matches Ok((o, next)) && {
                &&& o == shaped
                &&& next.progress == progress
                &&& next.taken == run.taken
                &&& next.failure == run.failure
                &&& next.resource == run.resource
                &&& next.has_openshift == run.has_openshift
            },
            Err(e) => run.applied(object, password) == Err::<(ObjectModel, ReconciliationModel), Error>(e),
        },
        !(run.step() is Some && run.step()->0 is Apply) ==> run.applied(object, password) == Ok::<
            (ObjectModel, ReconciliationModel),
            Error,
        >((object, run)),
{
}

/// Each object of the broker is applied by the rule for it, and what is hashed of it is added to what was hashed.
pub proof fn lemma_broker_objects(
    account: ServiceAccountModel,
    role: RoleModel,
    binding: RoleBindingModel,
    secret: SecretModel,
    config: ConfigMapModel,
    set: StatefulSetModel,
    service: ServiceModel,
    resource: HawkbitModel,
    has_openshift: bool,
    progress: ProgressModel,
    password: Seq<char>,
)
    ensures
        rabbit::account(account, resource) matches Ok(after) ==> reconcile::applied(
            Target::BrokerAccount,
            ObjectModel::ServiceAccount(account),
            resource,
            has_openshift,
            progress,
            password,
        ) == Ok::<(ObjectModel, ProgressModel), Error>((ObjectModel::ServiceAccount(after), progress)),
        rabbit::role(role, resource) matches Ok(after) ==> reconcile::applied(
            Target::BrokerRole,
            ObjectModel::Role(role),
            resource,
            has_openshift,
            progress,
            password,
        ) == Ok::<(ObjectModel, ProgressModel), Error>((ObjectModel::Role(after), progress)),
        rabbit::role_binding(binding, resource) matches Ok(after) ==> reconcile::applied(
            Target::BrokerRoleBinding,
            ObjectModel::RoleBinding(binding),
            resource,
            has_openshift,
            progress,
            password,
        ) == Ok::<(ObjectModel, ProgressModel), Error>((ObjectModel::RoleBinding(after), progress)),
        rabbit::secret(secret, resource) matches Ok(after) ==> reconcile::applied(
            Target::BrokerSecret,
            ObjectModel::Secret(secret),
            resource,
            has_openshift,
            progress,
            password,
        ) == Ok::<(ObjectModel, ProgressModel), Error>(
            (
                ObjectModel::Secret(after),
                (ProgressModel { broker: progress.broker + content::byte_content(after.data), ..progress }),
            ),
        ),
        rabbit::config_map(config, resource) matches Ok(after) ==> reconcile::applied(
            Target::BrokerConfig,
            ObjectModel::ConfigMap(config),
            resource,
            has_openshift,
            progress,
            password,
        ) == Ok::<(ObjectModel, ProgressModel), Error>(
            (
                ObjectModel::ConfigMap(after),
                (ProgressModel { broker: progress.broker + content::text_content(after.data), ..progress }),
            ),
        ),
        rabbit::stateful_set(set, resource, outside::digest(progress.broker)) matches Ok(after) ==> reconcile::applied(
            Target::BrokerSet,
            ObjectModel::StatefulSet(set),
            resource,
            has_openshift,
            progress,
            password,
        ) == Ok::<(ObjectModel, ProgressModel), Error>((ObjectModel::StatefulSet(after), progress)),
        rabbit::headless_service(service, resource) matches Ok(after) ==> reconcile::applied(
            Target::BrokerHeadlessService,
            ObjectModel::Service(service),
            resource,
            has_openshift,
            progress,
            password,
        ) == Ok::<(ObjectModel, ProgressModel), Error>((ObjectModel::Service(after), progress)),
        rabbit::service(service, resource) matches Ok(after) ==> reconcile::applied(
            Target::BrokerService,
            ObjectModel::Service(service),
            resource,
            has_openshift,
            progress,
            password,
        ) == Ok::<(ObjectModel, ProgressModel), Error>((ObjectModel::Service(after), progress)),
{
    reveal(reconcile::broker_applied);
}

/// Each object for signing on is applied by the rule for it, and nothing is learned from it.
pub proof fn lemma_sign_on_objects(
    instance: KeycloakModel,
    realm: KeycloakRealmModel,
    user: KeycloakUserModel,
    resource: HawkbitModel,
    has_openshift: bool,
    progress: ProgressModel,
    password: Seq<char>,
)
    ensures
        keycloak::instance(instance, resource) matches Ok(after) ==> reconcile::applied(
            Target::Keycloak,
            ObjectModel::Keycloak(instance),
            resource,
            has_openshift,
            progress,
            password,
        ) == Ok::<(ObjectModel, ProgressModel), Error>((ObjectModel::Keycloak(after), progress)),
        keycloak::realm(realm, resource) matches Ok(after) ==> reconcile::applied(
            Target::KeycloakRealm,
            ObjectModel::KeycloakRealm(realm),
            resource,
            has_openshift,
            progress,
            password,
        ) == Ok::<(ObjectModel, ProgressModel), Error>((ObjectModel::KeycloakRealm(after), progress)),
        keycloak::user(user, resource, password) matches Ok(after) ==> reconcile::applied(
            Target::KeycloakUser,
            ObjectModel::KeycloakUser(user),
            resource,
            has_openshift,
            progress,
            password,
        ) == Ok::<(ObjectModel, ProgressModel), Error>((ObjectModel::KeycloakUser(after), progress)),
{
    reveal(reconcile::sign_on_applied);
}

/// Each object around the server is applied by the rule for it. The configuration gets the issuer that is known, the
/// deployment the hash over what was hashed before it, and the URL of the route is what is known of it afterwards.
pub proof fn lemma_server_objects(
    route: RouteModel,
    account: ServiceAccountModel,
    config: ConfigMapModel,
    secret: SecretModel,
    claim: PersistentVolumeClaimModel,
    deployment: DeploymentModel,
    service: ServiceModel,
    resource: HawkbitModel,
    has_openshift: bool,
    progress: ProgressModel,
    password: Seq<char>,
)
    ensures
        resources::route(route, resource) matches Ok(after) ==> reconcile::applied(
            Target::Route,
            ObjectModel::Route(route),
            resource,
            has_openshift,
            progress,
            password,
        ) == Ok::<(ObjectModel, ProgressModel), Error>(
            (
                ObjectModel::Route(after),
                (ProgressModel {
                    url: if route.spec.host.len() > 0 {
                        Some("https://"@ + route.spec.host)
                    } else {
                        None
                    },
                    ..progress
                }),
            ),
        ),
        resources::account(account, resource) matches Ok(after) ==> reconcile::applied(
            Target::Account,
            ObjectModel::ServiceAccount(account),
            resource,
            has_openshift,
            progress,
            password,
        ) == Ok::<(ObjectModel, ProgressModel), Error>((ObjectModel::ServiceAccount(after), progress)),
        resources::config_map(config, resource, progress.issuer_uri) matches Ok(after) ==> reconcile::applied(
            Target::Config,
            ObjectModel::ConfigMap(config),
            resource,
            has_openshift,
            progress,
            password,
        ) == Ok::<(ObjectModel, ProgressModel), Error>(
            (
                ObjectModel::ConfigMap(after),
                (ProgressModel { server: progress.server + content::text_content(after.data), ..progress }),
            ),
        ),
        resources::admin_secret(secret, resource, password) matches Ok(after) ==> reconcile::applied(
            Target::AdminSecret,
            ObjectModel::Secret(secret),
            resource,
            has_openshift,
            progress,
            password,
        ) == Ok::<(ObjectModel, ProgressModel), Error>(
            (
                ObjectModel::Secret(after),
                (ProgressModel { server: progress.server + content::byte_content(after.data), ..progress }),
            ),
        ),
        resources::claim(claim, resource) matches Ok(after) ==> reconcile::applied(
            Target::DataClaim,
            ObjectModel::PersistentVolumeClaim(claim),
            resource,
            has_openshift,
            progress,
            password,
        ) == Ok::<(ObjectModel, ProgressModel), Error>((ObjectModel::PersistentVolumeClaim(after), progress)),
        resources::claim(claim, resource) matches Ok(after) ==> reconcile::applied(
            Target::DatabaseClaim,
            ObjectModel::PersistentVolumeClaim(claim),
            resource,
            has_openshift,
            progress,
            password,
        ) == Ok::<(ObjectModel, ProgressModel), Error>((ObjectModel::PersistentVolumeClaim(after), progress)),
        server::deployment(deployment, resource, has_openshift, outside::digest(progress.server)) matches Ok(after)
            ==> reconcile::applied(
            Target::Deployment,
            ObjectModel::Deployment(deployment),
            resource,
            has_openshift,
            progress,
            password,
        ) == Ok::<(ObjectModel, ProgressModel), Error>((ObjectModel::Deployment(after), progress)),
        resources::service(service, resource) matches Ok(after) ==> reconcile::applied(
            Target::Service,
            ObjectModel::Service(service),
            resource,
            has_openshift,
            progress,
            password,
        ) == Ok::<(ObjectModel, ProgressModel), Error>((ObjectModel::Service(after), progress)),
{
    reveal(reconcile::server_applied);
}

/// An object of another kind than asked for is not touched, and nothing is learned from it.
pub proof fn lemma_other_kinds(
    target: Target,
    object: ObjectModel,
    resource: HawkbitModel,
    has_openshift: bool,
    progress: ProgressModel,
    password: Seq<char>,
)
    requires
        object.kind() != target.kind_of(),
    ensures
        reconcile::applied(target, object, resource, has_openshift, progress, password) == Ok::<
            (ObjectModel, ProgressModel),
            Error,
        >((object, progress)),
{
    reveal(reconcile::broker_applied);
    reveal(reconcile::sign_on_applied);
    reveal(reconcile::server_applied);
}

/// An object that the instance cannot control is not applied, and it is said why.
pub proof fn lemma_why_not_applied(
    target: Target,
    object: ObjectModel,
    resource: HawkbitModel,
    has_openshift: bool,
    progress: ProgressModel,
    password: Seq<char>,
    e: Error,
)
    requires
        object.kind() == target.kind_of(),
        ownership::owned(object.metadata(), resource) == Err::<ObjectMetaModel, Error>(e),
        target is KeycloakClient ==> reconcile::sign_on_url(resource, has_openshift, progress) is Ok,
    ensures
        reconcile::applied(target, object, resource, has_openshift, progress, password) == Err::<
            (ObjectModel, ProgressModel),
            Error,
        >(e),
{
    match target {
        Target::BrokerAccount
        | Target::BrokerRole
        | Target::BrokerRoleBinding
        | Target::BrokerSecret
        | Target::BrokerConfig
        | Target::BrokerSet
        | Target::BrokerHeadlessService
        | Target::BrokerService => {
            reveal(reconcile::broker_applied);
        },
        Target::Keycloak | Target::KeycloakRealm | Target::KeycloakClient | Target::KeycloakUser => {
            reveal(reconcile::sign_on_applied);
        },
        _ => {
            reveal(reconcile::server_applied);
        },
    }
}

/// A deployment that could be controlled is not applied without exactly one database and exactly one broker, and a
/// client not before its URL is known; and it is said why.
pub proof fn lemma_what_is_missing(
    deployment: DeploymentModel,
    client: KeycloakClientModel,
    resource: HawkbitModel,
    has_openshift: bool,
    progress: ProgressModel,
    password: Seq<char>,
)
    ensures
        ownership::owned(deployment.metadata, resource) is Ok && resource.spec.database.mysql is None
            && resource.spec.database.postgres is None && resource.spec.database.embedded is None
            ==> reconcile::applied(
            Target::Deployment,
            ObjectModel::Deployment(deployment),
            resource,
            has_openshift,
            progress,
            password,
        ) == Err::<(ObjectModel, ProgressModel), Error>(Error::InvalidDatabase),
        ownership::owned(deployment.metadata, resource) is Ok && resource.spec.database.variant() is Some
            && resource.spec.rabbit.external is Some == resource.spec.rabbit.managed is Some ==> reconcile::applied(
            Target::Deployment,
            ObjectModel::Deployment(deployment),
            resource,
            has_openshift,
            progress,
            password,
        ) == Err::<(ObjectModel, ProgressModel), Error>(Error::InvalidRabbit),
        has_openshift && progress.url is None && (resource.spec.sign_on matches Some(SignOnModel::Keycloak { config })
            && config.hawkbit_url is None) ==> reconcile::applied(
            Target::KeycloakClient,
            ObjectModel::KeycloakClient(client),
            resource,
            has_openshift,
            progress,
            password,
        ) == Err::<(ObjectModel, ProgressModel), Error>(Error::WaitingForRoute),
{
    reveal(reconcile::sign_on_applied);
    reveal(reconcile::server_applied);
}

/// What is reported of an instance: that it is active, without a message, or that it has failed, with the message as
/// it is. It is written just where something else is there.
pub proof fn lemma_report(status: Option<HawkbitStatusModel>, message: Seq<char>)
    ensures
        status is None ==> reconcile::status_change(status, Ok(())) is Some,
        reconcile::status_change(status, Ok(())) is None <==> status is Some && status->0.phase == "Active"@
            && status->0.message is None,
        reconcile::status_change(status, Ok(())) matches Some(report) ==> report.phase == "Active"@ && report.message
            is None,
        reconcile::status_change(status, Err(message)) is None <==> status is Some && status->0.phase == "Failed"@
            && status->0.message == Some(message),
        reconcile::status_change(status, Err(message)) matches Some(report) ==> report.phase == "Failed"@
            && report.message == Some(message),
{
}

} // verus!
