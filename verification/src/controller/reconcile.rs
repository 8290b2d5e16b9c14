//! One reconciliation of an instance, step by step.

use vstd::prelude::*;

use crate::content;
use crate::controller::keycloak;
use crate::controller::rabbit;
use crate::controller::resources;
use crate::controller::server;
use crate::controller::target::Target;
use crate::controller::HawkbitController;
use crate::crd::{
    DatabaseVariant, DatabaseVariantModel, Hawkbit, HawkbitModel, HawkbitStatus, HawkbitStatusModel, KeycloakConfig,
    KeycloakConfigModel, SignOn, SignOnModel,
};
use crate::error;
use crate::error::Error;
use crate::objects::keycloak::{Keycloak, KeycloakModel};
use crate::objects::object::{Object, ObjectModel};
use crate::order;
use crate::outside;

use operator_framework::tracker::ConfigTracker;

verus! {

/// A step of a reconciliation.
#[derive(Debug, Clone, Copy, PartialEq, Eq, Structural)]
pub enum Step {
    /// Create the object, or bring it into shape.
    Apply(Target),
    /// Delete the object, if it is there.
    Delete(Target),
    /// Look up the Keycloak instance.
    FindIssuer,
}

/// What is learned on the way.
pub struct Progress {
    /// The URL of the instance's route.
    pub url: Option<String>,
    /// The issuer of tokens.
    pub issuer_uri: Option<String>,
    /// The hash over the broker's configuration.
    pub broker: ConfigTracker,
    /// The hash over the server's configuration.
    pub server: ConfigTracker,
}

/// What a [`Progress`] says, as contracts see it.
#[verifier::ext_equal]
pub struct ProgressModel {
    pub url: Option<Seq<char>>,
    pub issuer_uri: Option<Seq<char>>,
    pub broker: Seq<u8>,
    pub server: Seq<u8>,
}

impl DeepView for Progress {
    type V = ProgressModel;

    open spec fn deep_view(&self) -> ProgressModel {
        ProgressModel {
            url: self.url.deep_view(),
            issuer_uri: self.issuer_uri.deep_view(),
            broker: outside::taken_in(self.broker),
            server: outside::taken_in(self.server),
        }
    }
}

impl ProgressModel {
    /// What is known at the start: nothing.
    pub open spec fn start() -> Self {
        ProgressModel { url: None, issuer_uri: None, broker: Seq::empty(), server: Seq::empty() }
    }
}

/// The route comes first, as its URL is needed.
pub open spec fn route_steps(has_openshift: bool) -> Seq<Step> {
    if has_openshift {
        seq![Step::Apply(Target::Route)]
    } else {
        Seq::empty()
    }
}

/// The objects of a broker that is kept, in the order in which they are created.
pub open spec fn broker_steps() -> Seq<Step> {
    seq![
        Step::Apply(Target::BrokerAccount),
        Step::Apply(Target::BrokerRole),
        Step::Apply(Target::BrokerRoleBinding),
        Step::Apply(Target::BrokerSecret),
        Step::Apply(Target::BrokerConfig),
        Step::Apply(Target::BrokerSet),
        Step::Apply(Target::BrokerHeadlessService),
        Step::Apply(Target::BrokerService),
    ]
}

/// The objects of a broker that is not kept any more, in the order in which they are deleted.
pub open spec fn no_broker_steps() -> Seq<Step> {
    seq![
        Step::Delete(Target::BrokerAccount),
        Step::Delete(Target::BrokerRole),
        Step::Delete(Target::BrokerRoleBinding),
        Step::Delete(Target::BrokerConfig),
        Step::Delete(Target::BrokerSecret),
        Step::Delete(Target::BrokerSet),
        Step::Delete(Target::BrokerService),
        Step::Delete(Target::BrokerHeadlessService),
    ]
}

/// The objects for signing on, if there is anything to be done for it.
pub open spec fn sign_on_steps(resource: HawkbitModel) -> Seq<Step> {
    if resource.spec.sign_on is Some {
        seq![
            Step::Apply(Target::Keycloak),
            Step::Apply(Target::KeycloakRealm),
            Step::Apply(Target::KeycloakClient),
            Step::Apply(Target::KeycloakUser),
            Step::FindIssuer,
        ]
    } else {
        Seq::empty()
    }
}

/// What the server needs.
pub open spec fn server_steps(resource: HawkbitModel) -> Seq<Step> {
    let common = seq![
        Step::Apply(Target::Account),
        Step::Apply(Target::Config),
        Step::Apply(Target::AdminSecret),
        Step::Apply(Target::DataClaim),
    ];
    if resource.spec.database.variant() == Some(DatabaseVariantModel::Embedded) {
        common.push(Step::Apply(Target::DatabaseClaim))
    } else {
        common
    }
}

/// All that is to be done for an instance, as long as nothing fails.
pub open spec fn plan(resource: HawkbitModel, has_openshift: bool) -> Seq<Step> {
    route_steps(has_openshift) + (if resource.spec.rabbit.managed is Some {
        broker_steps()
    } else {
        no_broker_steps()
    }) + sign_on_steps(resource) + server_steps(resource) + seq![
        Step::Apply(Target::Deployment),
        Step::Apply(Target::Service),
    ]
}

/// The URL under which the instance signs on, or what it waits for.
pub open spec fn sign_on_url(
    resource: HawkbitModel,
    has_openshift: bool,
    progress: ProgressModel,
) -> Result<Seq<char>, Error> {
    match resource.spec.sign_on {
        Some(SignOnModel::Keycloak { config }) => keycloak::known_url(config, progress.url, has_openshift),
        None => keycloak::known_url(KeycloakConfigModel::blank(), progress.url, has_openshift),
    }
}

/// What stands in the way of a step before it is tried.
pub open spec fn obstacle(
    step: Step,
    resource: HawkbitModel,
    has_openshift: bool,
    progress: ProgressModel,
) -> Option<Error> {
    match step {
        Step::Apply(Target::Keycloak) => match sign_on_url(resource, has_openshift, progress) {
            Ok(_) => None,
            Err(e) => Some(e),
        },
        Step::Apply(Target::Deployment) => if resource.spec.database.variant() is None {
            Some(Error::InvalidDatabase)
        } else {
            None
        },
        _ => None,
    }
}

/// An object of the broker in the shape that it is to have, with what is learned from it, or why there is none. Other
/// objects stay as they are.
#[verifier::opaque]
pub open spec fn broker_applied(
    target: Target,
    object: ObjectModel,
    resource: HawkbitModel,
    progress: ProgressModel,
) -> Result<(ObjectModel, ProgressModel), Error> {
    match (target, object) {
        (Target::BrokerAccount, ObjectModel::ServiceAccount(object)) => match rabbit::account(object, resource) {
            Ok(object) => Ok((ObjectModel::ServiceAccount(object), progress)),
            Err(e) => Err(e),
        },
        (Target::BrokerRole, ObjectModel::Role(object)) => match rabbit::role(object, resource) {
            Ok(object) => Ok((ObjectModel::Role(object), progress)),
            Err(e) => Err(e),
        },
        (Target::BrokerRoleBinding, ObjectModel::RoleBinding(object)) => match rabbit::role_binding(object, resource) {
            Ok(object) => Ok((ObjectModel::RoleBinding(object), progress)),
            Err(e) => Err(e),
        },
        (Target::BrokerSecret, ObjectModel::Secret(object)) => match rabbit::secret(object, resource) {
            Ok(secret) => Ok(
                (
                    ObjectModel::Secret(secret),
                    ProgressModel { broker: progress.broker + content::byte_content(secret.data), ..progress },
                ),
            ),
            Err(e) => Err(e),
        },
        (Target::BrokerConfig, ObjectModel::ConfigMap(object)) => match rabbit::config_map(object, resource) {
            Ok(config) => Ok(
                (
                    ObjectModel::ConfigMap(config),
                    ProgressModel { broker: progress.broker + content::text_content(config.data), ..progress },
                ),
            ),
            Err(e) => Err(e),
        },
        (Target::BrokerSet, ObjectModel::StatefulSet(object)) => match rabbit::stateful_set(
            object,
            resource,
            outside::digest(progress.broker),
        ) {
            Ok(set) => Ok((ObjectModel::StatefulSet(set), progress)),
            Err(e) => Err(e),
        },
        (Target::BrokerHeadlessService, ObjectModel::Service(object)) => match rabbit::headless_service(object, resource) {
            Ok(object) => Ok((ObjectModel::Service(object), progress)),
            Err(e) => Err(e),
        },
        (Target::BrokerService, ObjectModel::Service(object)) => match rabbit::service(object, resource) {
            Ok(object) => Ok((ObjectModel::Service(object), progress)),
            Err(e) => Err(e),
        },
        _ => Ok((object, progress)),
    }
}

/// An object for signing on in the shape that it is to have, with what is learned from it, or why there is none. Other
/// objects stay as they are.
#[verifier::opaque]
pub open spec fn sign_on_applied(
    target: Target,
    object: ObjectModel,
    resource: HawkbitModel,
    has_openshift: bool,
    progress: ProgressModel,
    password: Seq<char>,
) -> Result<(ObjectModel, ProgressModel), Error> {
    match (target, object) {
        (Target::Keycloak, ObjectModel::Keycloak(object)) => match keycloak::instance(object, resource) {
            Ok(object) => Ok((ObjectModel::Keycloak(object), progress)),
            Err(e) => Err(e),
        },
        (Target::KeycloakRealm, ObjectModel::KeycloakRealm(object)) => match keycloak::realm(object, resource) {
            Ok(object) => Ok((ObjectModel::KeycloakRealm(object), progress)),
            Err(e) => Err(e),
        },
        (Target::KeycloakClient, ObjectModel::KeycloakClient(object)) => match sign_on_url(
            resource,
            has_openshift,
            progress,
        ) {
            Ok(url) => match keycloak::client(object, resource, url) {
                Ok(client) => Ok((ObjectModel::KeycloakClient(client), progress)),
                Err(e) => Err(e),
            },
            Err(e) => Err(e),
        },
        (Target::KeycloakUser, ObjectModel::KeycloakUser(object)) => match keycloak::user(
            object,
            resource,
            password,
        ) {
            Ok(user) => Ok((ObjectModel::KeycloakUser(user), progress)),
            Err(e) => Err(e),
        },
        _ => Ok((object, progress)),
    }
}

/// An object of the server in the shape that it is to have, with what is learned from it, or why there is none. Other
/// objects stay as they are.
#[verifier::opaque]
pub open spec fn server_applied(
    target: Target,
    object: ObjectModel,
    resource: HawkbitModel,
    has_openshift: bool,
    progress: ProgressModel,
    password: Seq<char>,
) -> Result<(ObjectModel, ProgressModel), Error> {
    match (target, object) {
        (Target::Route, ObjectModel::Route(object)) => match resources::route(object, resource) {
            Ok(route) => Ok(
                (ObjectModel::Route(route), ProgressModel { url: resources::route_url(route), ..progress }),
            ),
            Err(e) => Err(e),
        },
        (Target::Account, ObjectModel::ServiceAccount(object)) => match resources::account(object, resource) {
            Ok(object) => Ok((ObjectModel::ServiceAccount(object), progress)),
            Err(e) => Err(e),
        },
        (Target::Config, ObjectModel::ConfigMap(object)) => match resources::config_map(
            object,
            resource,
            progress.issuer_uri,
        ) {
            Ok(config) => Ok(
                (
                    ObjectModel::ConfigMap(config),
                    ProgressModel { server: progress.server + content::text_content(config.data), ..progress },
                ),
            ),
            Err(e) => Err(e),
        },
        (Target::AdminSecret, ObjectModel::Secret(object)) => match resources::admin_secret(
            object,
            resource,
            password,
        ) {
            Ok(secret) => Ok(
                (
                    ObjectModel::Secret(secret),
                    ProgressModel { server: progress.server + content::byte_content(secret.data), ..progress },
                ),
            ),
            Err(e) => Err(e),
        },
        (Target::DataClaim, ObjectModel::PersistentVolumeClaim(object)) => match resources::claim(object, resource) {
            Ok(object) => Ok((ObjectModel::PersistentVolumeClaim(object), progress)),
            Err(e) => Err(e),
        },
        (Target::DatabaseClaim, ObjectModel::PersistentVolumeClaim(object)) => match resources::claim(object, resource) {
            Ok(object) => Ok((ObjectModel::PersistentVolumeClaim(object), progress)),
            Err(e) => Err(e),
        },
        (Target::Deployment, ObjectModel::Deployment(object)) => match server::deployment(
            object,
            resource,
            has_openshift,
            outside::digest(progress.server),
        ) {
            Ok(deployment) => Ok((ObjectModel::Deployment(deployment), progress)),
            Err(e) => Err(e),
        },
        (Target::Service, ObjectModel::Service(object)) => match resources::service(object, resource) {
            Ok(object) => Ok((ObjectModel::Service(object), progress)),
            Err(e) => Err(e),
        },
        _ => Ok((object, progress)),
    }
}

/// An object in the shape that it is to have, with what is learned from it, or why there is none. An
/// object of another kind than asked for stays as it is.
pub open spec fn applied(
    target: Target,
    object: ObjectModel,
    resource: HawkbitModel,
    has_openshift: bool,
    progress: ProgressModel,
    password: Seq<char>,
) -> Result<(ObjectModel, ProgressModel), Error> {
    match target {
        Target::BrokerAccount
        | Target::BrokerRole
        | Target::BrokerRoleBinding
        | Target::BrokerSecret
        | Target::BrokerConfig
        | Target::BrokerSet
        | Target::BrokerHeadlessService
        | Target::BrokerService => broker_applied(target, object, resource, progress),
        Target::Keycloak
        | Target::KeycloakRealm
        | Target::KeycloakClient
        | Target::KeycloakUser => sign_on_applied(
            target,
            object,
            resource,
            has_openshift,
            progress,
            password,
        ),
        _ => server_applied(target, object, resource, has_openshift, progress, password),
    }
}

impl HawkbitController {
    /// The URL under which the instance signs on.
    fn url_for_sign_on(&self, resource: &Hawkbit, progress: &Progress) -> (r: Result<String, Error>)
        ensures
            error::outcome(r) == sign_on_url(resource.deep_view(), self.has_openshift, progress.deep_view()),
    {
        match &resource.spec.sign_on {
            Some(SignOn::Keycloak { config }) => self.hawkbit_url(config, &progress.url),
            None => self.hawkbit_url(&KeycloakConfig::default(), &progress.url),
        }
    }

    /// What stands in the way of a step before it is tried.
    pub fn find_obstacle(&self, step: Step, resource: &Hawkbit, progress: &Progress) -> (r: Option<Error>)
        ensures
            r == obstacle(step, resource.deep_view(), self.has_openshift, progress.deep_view()),
    {
        match step {
            Step::Apply(Target::Keycloak) => match self.url_for_sign_on(resource, progress) {
                Ok(_) => None,
                Err(e) => Some(e),
            },
            Step::Apply(Target::Deployment) => match resource.spec.database.variant() {
                Ok(_) => None,
                Err(e) => Some(e),
            },
            _ => None,
        }
    }

    fn apply_broker_object(
        &self,
        target: Target,
        object: Object,
        resource: &Hawkbit,
        progress: &mut Progress,
    ) -> (r: Result<Object, Error>)
        requires
            resource.deep_view().is_named(),
        ensures
            match broker_applied(
                target,
                object.deep_view(),
                resource.deep_view(),
                old(progress).deep_view(),
            ) {
                Ok((object, after)) => {
                    &&& r matches Ok(o) && o.deep_view() == object
                    &&& final(progress).deep_view() == after
                },
                Err(e) => r == Err::<Object, Error>(e) && final(progress).deep_view() == old(progress).deep_view(),
            },
    {
        proof {
            reveal(broker_applied);
        }
        match (target, object) {
            (Target::BrokerAccount, Object::ServiceAccount(object)) => match self.create_broker_account(resource, object) {
                Ok(object) => Ok(Object::ServiceAccount(object)),
                Err(e) => Err(e),
            },
            (Target::BrokerRole, Object::Role(object)) => match self.create_broker_role(resource, object) {
                Ok(object) => Ok(Object::Role(object)),
                Err(e) => Err(e),
            },
            (Target::BrokerRoleBinding, Object::RoleBinding(object)) => match self.create_broker_role_binding(resource, object) {
                Ok(object) => Ok(Object::RoleBinding(object)),
                Err(e) => Err(e),
            },
            (Target::BrokerSecret, Object::Secret(object)) => match self.create_broker_secret(
                resource,
                object,
                &mut progress.broker,
            ) {
                Ok(secret) => Ok(Object::Secret(secret)),
                Err(e) => Err(e),
            },
            (Target::BrokerConfig, Object::ConfigMap(object)) => match self.create_broker_config(
                resource,
                object,
                &mut progress.broker,
            ) {
                Ok(config) => Ok(Object::ConfigMap(config)),
                Err(e) => Err(e),
            },
            (Target::BrokerSet, Object::StatefulSet(object)) => match self.create_broker_set(
                resource,
                object,
                &progress.broker,
            ) {
                Ok(set) => Ok(Object::StatefulSet(set)),
                Err(e) => Err(e),
            },
            (Target::BrokerHeadlessService, Object::Service(object)) => match self.create_broker_headless_service(resource, object) {
                Ok(object) => Ok(Object::Service(object)),
                Err(e) => Err(e),
            },
            (Target::BrokerService, Object::Service(object)) => match self.create_broker_service(resource, object) {
                Ok(object) => Ok(Object::Service(object)),
                Err(e) => Err(e),
            },
            (_, object) => Ok(object),
        }
    }

    fn apply_sign_on_object(
        &self,
        target: Target,
        object: Object,
        resource: &Hawkbit,
        progress: &mut Progress,
        password: &str,
    ) -> (r: Result<Object, Error>)
        requires
            resource.deep_view().is_named(),
        ensures
            match sign_on_applied(
                target,
                object.deep_view(),
                resource.deep_view(),
                self.has_openshift,
                old(progress).deep_view(),
                password@,
            ) {
                Ok((object, after)) => {
                    &&& r matches Ok(o) && o.deep_view() == object
                    &&& final(progress).deep_view() == after
                },
                Err(e) => r == Err::<Object, Error>(e) && final(progress).deep_view() == old(progress).deep_view(),
            },
    {
        proof {
            reveal(sign_on_applied);
        }
        match (target, object) {
            (Target::Keycloak, Object::Keycloak(object)) => match self.create_keycloak(resource, object) {
                Ok(object) => Ok(Object::Keycloak(object)),
                Err(e) => Err(e),
            },
            (Target::KeycloakRealm, Object::KeycloakRealm(object)) => match self.create_keycloak_realm(resource, object) {
                Ok(object) => Ok(Object::KeycloakRealm(object)),
                Err(e) => Err(e),
            },
            (Target::KeycloakClient, Object::KeycloakClient(object)) => match self.url_for_sign_on(
                resource,
                progress,
            ) {
                Ok(url) => match self.create_keycloak_client(resource, object, url.as_str()) {
                    Ok(client) => Ok(Object::KeycloakClient(client)),
                    Err(e) => Err(e),
                },
                Err(e) => Err(e),
            },
            (Target::KeycloakUser, Object::KeycloakUser(object)) => match self.create_keycloak_user_with(
                resource,
                object,
                password,
            ) {
                Ok(user) => Ok(Object::KeycloakUser(user)),
                Err(e) => Err(e),
            },
            (_, object) => Ok(object),
        }
    }

    fn apply_server_object(
        &self,
        target: Target,
        object: Object,
        resource: &Hawkbit,
        progress: &mut Progress,
        password: &str,
    ) -> (r: Result<Object, Error>)
        requires
            resource.deep_view().is_named(),
        ensures
            match server_applied(
                target,
                object.deep_view(),
                resource.deep_view(),
                self.has_openshift,
                old(progress).deep_view(),
                password@,
            ) {
                Ok((object, after)) => {
                    &&& r matches Ok(o) && o.deep_view() == object
                    &&& final(progress).deep_view() == after
                },
                Err(e) => r == Err::<Object, Error>(e) && final(progress).deep_view() == old(progress).deep_view(),
            },
    {
        proof {
            reveal(server_applied);
        }
        match (target, object) {
            (Target::Route, Object::Route(object)) => match self.create_route(resource, object) {
                Ok((route, url)) => {
                    progress.url = url;
                    Ok(Object::Route(route))
                },
                Err(e) => Err(e),
            },
            (Target::Account, Object::ServiceAccount(object)) => match self.create_service_account(resource, object) {
                Ok(object) => Ok(Object::ServiceAccount(object)),
                Err(e) => Err(e),
            },
            (Target::Config, Object::ConfigMap(object)) => match self.create_application_config(
                resource,
                object,
                &mut progress.server,
                &progress.issuer_uri,
            ) {
                Ok(config) => Ok(Object::ConfigMap(config)),
                Err(e) => Err(e),
            },
            (Target::AdminSecret, Object::Secret(object)) => match self.create_application_secrets_with(
                resource,
                object,
                &mut progress.server,
                password,
            ) {
                Ok(secret) => Ok(Object::Secret(secret)),
                Err(e) => Err(e),
            },
            (Target::DataClaim, Object::PersistentVolumeClaim(object)) => match self.create_storage(resource, object) {
                Ok(object) => Ok(Object::PersistentVolumeClaim(object)),
                Err(e) => Err(e),
            },
            (Target::DatabaseClaim, Object::PersistentVolumeClaim(object)) => match self.create_storage(resource, object) {
                Ok(object) => Ok(Object::PersistentVolumeClaim(object)),
                Err(e) => Err(e),
            },
            (Target::Deployment, Object::Deployment(object)) => match self.create_deployment(
                resource,
                object,
                &progress.server,
            ) {
                Ok(deployment) => Ok(Object::Deployment(deployment)),
                Err(e) => Err(e),
            },
            (Target::Service, Object::Service(object)) => match self.create_service(resource, object) {
                Ok(object) => Ok(Object::Service(object)),
                Err(e) => Err(e),
            },
            (_, object) => Ok(object),
        }
    }

    /// Brings an object into shape, and takes note of what is learned from it. The password is used
    /// where there is none yet.
    pub fn apply_with(
        &self,
        target: Target,
        object: Object,
        resource: &Hawkbit,
        progress: &mut Progress,
        password: &str,
    ) -> (r: Result<Object, Error>)
        requires
            resource.deep_view().is_named(),
        ensures
            match applied(
                target,
                object.deep_view(),
                resource.deep_view(),
                self.has_openshift,
                old(progress).deep_view(),
                password@,
            ) {
                Ok((object, after)) => {
                    &&& r matches Ok(o) && o.deep_view() == object
                    &&& final(progress).deep_view() == after
                },
                Err(e) => r == Err::<Object, Error>(e) && final(progress).deep_view() == old(progress).deep_view(),
            },
    {
        match target {
            Target::BrokerAccount
            | Target::BrokerRole
            | Target::BrokerRoleBinding
            | Target::BrokerSecret
            | Target::BrokerConfig
            | Target::BrokerSet
            | Target::BrokerHeadlessService
            | Target::BrokerService => self.apply_broker_object(target, object, resource, progress),
            Target::Keycloak
            | Target::KeycloakRealm
            | Target::KeycloakClient
            | Target::KeycloakUser => self.apply_sign_on_object(target, object, resource, progress, password),
            _ => self.apply_server_object(target, object, resource, progress, password),
        }
    }
}

/// What the outside world is asked to do next.
#[derive(Debug, PartialEq)]
pub enum Action {
    /// Fetch the object of that name, or start with an empty one; apply the reconciliation to it; and
    /// write it back if it is new or different.
    Apply {
        target: Target,
        name: String,
    },
    /// Delete the object of that name, if it is there.
    Delete {
        target: Target,
        name: String,
    },
    /// List the Keycloak instances with these labels.
    ListKeycloaks {
        selector: String,
    },
    /// Everything has been done.
    Done,
    /// Something went wrong, and nothing more is done.
    Failed {
        message: String,
    },
}

/// What an [`Action`] says, as contracts see it.
#[verifier::ext_equal]
pub enum ActionModel {
    Apply { target: Target, name: Seq<char> },
    Delete { target: Target, name: Seq<char> },
    ListKeycloaks { selector: Seq<char> },
    Done,
    Failed { message: Seq<char> },
}

impl DeepView for Action {
    type V = ActionModel;

    open spec fn deep_view(&self) -> ActionModel {
        match self {
            Action::Apply { target, name } => ActionModel::Apply { target: *target, name: name.deep_view() },
            Action::Delete { target, name } => ActionModel::Delete { target: *target, name: name.deep_view() },
            Action::ListKeycloaks { selector } => ActionModel::ListKeycloaks { selector: selector.deep_view() },
            Action::Done => ActionModel::Done,
            Action::Failed { message } => ActionModel::Failed { message: message.deep_view() },
        }
    }
}

/// A reconciliation that is under way.
pub struct Reconciliation {
    controller: HawkbitController,
    resource: Hawkbit,
    steps: Vec<Step>,
    at: usize,
    failure: Option<String>,
    progress: Progress,
}

/// What a [`Reconciliation`] says, as contracts see it.
#[verifier::ext_equal]
pub struct ReconciliationModel {
    /// What is reconciled.
    pub resource: HawkbitModel,
    /// Whether the cluster knows OpenShift's routes.
    pub has_openshift: bool,
    /// How many steps have been taken.
    pub taken: nat,
    /// What went wrong.
    pub failure: Option<Seq<char>>,
    /// What has been learned.
    pub progress: ProgressModel,
}

impl DeepView for Reconciliation {
    type V = ReconciliationModel;

    closed spec fn deep_view(&self) -> ReconciliationModel {
        ReconciliationModel {
            resource: self.resource.deep_view(),
            has_openshift: self.controller.has_openshift,
            taken: self.at as nat,
            failure: self.failure.deep_view(),
            progress: self.progress.deep_view(),
        }
    }
}

impl ReconciliationModel {
    /// A reconciliation that is about to begin.
    pub open spec fn start(resource: HawkbitModel, has_openshift: bool) -> Self {
        ReconciliationModel {
            resource,
            has_openshift,
            taken: 0,
            failure: None,
            progress: ProgressModel::start(),
        }
    }

    /// All the steps.
    pub open spec fn steps(self) -> Seq<Step> {
        plan(self.resource, self.has_openshift)
    }

    /// The step that is next, unless something stands in its way.
    pub open spec fn step(self) -> Option<Step> {
        if self.failure is None && self.taken < self.steps().len() && obstacle(
            self.steps()[self.taken as int],
            self.resource,
            self.has_openshift,
            self.progress,
        ) is None {
            Some(self.steps()[self.taken as int])
        } else {
            None
        }
    }

    /// What the outside world is asked to do next.
    pub open spec fn action(self) -> ActionModel {
        match self.failure {
            Some(message) => ActionModel::Failed { message },
            None => if self.taken >= self.steps().len() {
                ActionModel::Done
            } else {
                let step = self.steps()[self.taken as int];
                match obstacle(step, self.resource, self.has_openshift, self.progress) {
                    Some(e) => ActionModel::Failed { message: e.text() },
                    None => match step {
                        Step::Apply(target) => ActionModel::Apply { target, name: target.name_of(self.resource) },
                        Step::Delete(target) => ActionModel::Delete { target, name: target.name_of(self.resource) },
                        Step::FindIssuer => ActionModel::ListKeycloaks {
                            selector: content::selector_text(keycloak::instance_labels(self.resource)),
                        },
                    },
                }
            },
        }
    }

    /// The reconciliation once what was asked for has been done.
    pub open spec fn succeeded(self) -> Self {
        if self.step() is Some {
            ReconciliationModel { taken: self.taken + 1nat, ..self }
        } else {
            self
        }
    }

    /// The reconciliation once the Keycloak instances have been listed.
    pub open spec fn listed(self, instances: Seq<KeycloakModel>) -> Self {
        if self.step() == Some(Step::FindIssuer) {
            ReconciliationModel {
                taken: self.taken + 1nat,
                progress: ProgressModel {
                    issuer_uri: keycloak::issuer_uri(instances, keycloak::realm_name(self.resource)),
                    ..self.progress
                },
                ..self
            }
        } else {
            self
        }
    }

    /// The reconciliation once what was asked for has failed.
    pub open spec fn failed(self, message: Seq<char>) -> Self {
        if self.step() is Some {
            ReconciliationModel { failure: Some(message), ..self }
        } else {
            self
        }
    }

    /// What comes of applying the reconciliation to an object, with the password for where there is none.
    pub open spec fn applied(
        self,
        object: ObjectModel,
        password: Seq<char>,
    ) -> Result<(ObjectModel, ReconciliationModel), Error> {
        match self.step() {
            Some(Step::Apply(target)) => match applied(
                target,
                object,
                self.resource,
                self.has_openshift,
                self.progress,
                password,
            ) {
                Ok((object, progress)) => Ok((object, ReconciliationModel { progress, ..self })),
                Err(e) => Err(e),
            },
            _ => Ok((object, self)),
        }
    }
}

impl HawkbitController {
    /// Everything that is to be done for an instance.
    pub fn steps_for(&self, resource: &Hawkbit) -> (r: Vec<Step>)
        ensures
            r@ == plan(resource.deep_view(), self.has_openshift),
    {
        let mut steps: Vec<Step> = Vec::new();
        if self.has_openshift {
            steps.push(Step::Apply(Target::Route));
        }
        assert(steps@ =~= route_steps(self.has_openshift));
        let ghost before = steps@;
        if resource.spec.rabbit.managed.is_some() {
            steps.push(Step::Apply(Target::BrokerAccount));
            steps.push(Step::Apply(Target::BrokerRole));
            steps.push(Step::Apply(Target::BrokerRoleBinding));
            steps.push(Step::Apply(Target::BrokerSecret));
            steps.push(Step::Apply(Target::BrokerConfig));
            steps.push(Step::Apply(Target::BrokerSet));
            steps.push(Step::Apply(Target::BrokerHeadlessService));
            steps.push(Step::Apply(Target::BrokerService));
            assert(steps@ =~= before + broker_steps());
        } else {
            steps.push(Step::Delete(Target::BrokerAccount));
            steps.push(Step::Delete(Target::BrokerRole));
            steps.push(Step::Delete(Target::BrokerRoleBinding));
            steps.push(Step::Delete(Target::BrokerConfig));
            steps.push(Step::Delete(Target::BrokerSecret));
            steps.push(Step::Delete(Target::BrokerSet));
            steps.push(Step::Delete(Target::BrokerService));
            steps.push(Step::Delete(Target::BrokerHeadlessService));
            assert(steps@ =~= before + no_broker_steps());
        }
        let ghost before = steps@;
        if resource.spec.sign_on.is_some() {
            steps.push(Step::Apply(Target::Keycloak));
            steps.push(Step::Apply(Target::KeycloakRealm));
            steps.push(Step::Apply(Target::KeycloakClient));
            steps.push(Step::Apply(Target::KeycloakUser));
            steps.push(Step::FindIssuer);
        }
        assert(steps@ =~= before + sign_on_steps(resource.deep_view()));
        let ghost before = steps@;
        steps.push(Step::Apply(Target::Account));
        steps.push(Step::Apply(Target::Config));
        steps.push(Step::Apply(Target::AdminSecret));
        steps.push(Step::Apply(Target::DataClaim));
        match resource.spec.database.variant() {
            Ok(DatabaseVariant::Embedded) => {
                steps.push(Step::Apply(Target::DatabaseClaim));
            },
            _ => {},
        }
        assert(steps@ =~= before + server_steps(resource.deep_view()));
        let ghost before = steps@;
        steps.push(Step::Apply(Target::Deployment));
        steps.push(Step::Apply(Target::Service));
        assert(steps@ =~= before + seq![Step::Apply(Target::Deployment), Step::Apply(Target::Service)]);
        steps
    }

    /// Begins to reconcile an instance.
    pub fn do_reconcile(&self, resource: Hawkbit) -> (r: Reconciliation)
        requires
            resource.deep_view().is_named(),
            resource.deep_view().metadata.namespace is Some,
        ensures
            r.is_sound(),
            r.deep_view() == ReconciliationModel::start(resource.deep_view(), self.has_openshift),
    {
        let steps = self.steps_for(&resource);
        Reconciliation {
            controller: HawkbitController::new(self.namespace.as_str(), self.has_openshift),
            resource,
            steps,
            at: 0,
            failure: None,
            progress: Progress {
                url: None,
                issuer_uri: None,
                broker: ConfigTracker::new(),
                server: ConfigTracker::new(),
            },
        }
    }
}

impl Reconciliation {
    /// The reconciliation is of a named instance, and goes by the plan for it.
    pub closed spec fn is_sound(&self) -> bool {
        &&& self.resource.deep_view().is_named()
        &&& self.steps@ == plan(self.resource.deep_view(), self.controller.has_openshift)
        &&& self.at <= self.steps@.len()
    }

    /// The step that is next, unless something stands in its way.
    fn current(&self) -> (r: Option<Step>)
        requires
            self.is_sound(),
        ensures
            r == self.deep_view().step(),
    {
        if self.failure.is_some() || self.at >= self.steps.len() {
            return None;
        }
        let step = self.steps[self.at];
        match self.controller.find_obstacle(step, &self.resource, &self.progress) {
            Some(_) => None,
            None => Some(step),
        }
    }

    /// What the outside world is asked to do next.
    pub fn action(&self) -> (r: Action)
        requires
            self.is_sound(),
        ensures
            r.deep_view() == self.deep_view().action(),
    {
        match &self.failure {
            Some(message) => {
                return Action::Failed { message: message.clone() };
            },
            None => {},
        }
        if self.at >= self.steps.len() {
            return Action::Done;
        }
        let step = self.steps[self.at];
        match self.controller.find_obstacle(step, &self.resource, &self.progress) {
            Some(e) => Action::Failed { message: e.message() },
            None => match step {
                Step::Apply(target) => Action::Apply { target, name: target.name(&self.resource) },
                Step::Delete(target) => Action::Delete { target, name: target.name(&self.resource) },
                Step::FindIssuer => Action::ListKeycloaks {
                    selector: self.controller.keycloak_selector(&self.resource),
                },
            },
        }
    }

    /// Takes note that what was asked for has been done.
    pub fn succeeded(&mut self)
        requires
            old(self).is_sound(),
        ensures
            final(self).is_sound(),
            final(self).deep_view() == old(self).deep_view().succeeded(),
    {
        if self.current().is_some() {
            self.at = self.at + 1;
        }
    }

    /// Takes note of the Keycloak instances that were found.
    pub fn listed(&mut self, instances: &Vec<Keycloak>)
        requires
            old(self).is_sound(),
        ensures
            final(self).is_sound(),
            final(self).deep_view() == old(self).deep_view().listed(instances.deep_view()),
    {
        match self.current() {
            Some(Step::FindIssuer) => {
                let realm = self.controller.keycloak_realm_name(&self.resource);
                self.progress.issuer_uri = keycloak::find_issuer_uri(instances, realm.as_str());
                self.at = self.at + 1;
            },
            _ => {},
        }
    }

    /// Takes note that what was asked for has failed.
    pub fn failed(&mut self, message: String)
        requires
            old(self).is_sound(),
        ensures
            final(self).is_sound(),
            final(self).deep_view() == old(self).deep_view().failed(message@),
    {
        if self.current().is_some() {
            self.failure = Some(message);
        }
    }

    /// Brings the object that was asked for into shape. The password is used where there is none yet.
    pub fn apply_with(&mut self, object: Object, password: &str) -> (r: Result<Object, Error>)
        requires
            old(self).is_sound(),
        ensures
            final(self).is_sound(),
            match old(self).deep_view().applied(object.deep_view(), password@) {
                Ok((object, after)) => {
                    &&& r matches Ok(o) && o.deep_view() == object
                    &&& final(self).deep_view() == after
                },
                Err(e) => r == Err::<Object, Error>(e) && final(self).deep_view() == old(self).deep_view(),
            },
    {
        match self.current() {
            Some(Step::Apply(target)) => self.controller.apply_with(
                target,
                object,
                &self.resource,
                &mut self.progress,
                password,
            ),
            _ => Ok(object),
        }
    }

    /// Brings the object that was asked for into shape. Where there is no password yet, one is made up.
    pub fn apply(&mut self, object: Object) -> (r: Result<Object, Error>)
        requires
            old(self).is_sound(),
        ensures
            final(self).is_sound(),
            exists|password: Seq<char>| #[trigger]
                resources::is_password(password) && match old(self).deep_view().applied(
                    object.deep_view(),
                    password,
                ) {
                    Ok((object, after)) => {
                        &&& r matches Ok(o) && o.deep_view() == object
                        &&& final(self).deep_view() == after
                    },
                    Err(e) => r == Err::<Object, Error>(e) && final(self).deep_view() == old(self).deep_view(),
                },
    {
        let password = self.controller.new_password();
        self.apply_with(object, password.as_str())
    }
}

/// What is reported of an instance after a reconciliation.
pub open spec fn reported(outcome: Result<(), Seq<char>>) -> HawkbitStatusModel {
    match outcome {
        Ok(_) => HawkbitStatusModel { phase: "Active"@, message: None },
        Err(message) => HawkbitStatusModel { phase: "Failed"@, message: Some(message) },
    }
}

/// The status to be written, unless it is there already.
pub open spec fn status_change(
    status: Option<HawkbitStatusModel>,
    outcome: Result<(), Seq<char>>,
) -> Option<HawkbitStatusModel> {
    if status == Some(reported(outcome)) {
        None
    } else {
        Some(reported(outcome))
    }
}

fn is_reported(status: &Option<HawkbitStatus>, report: &HawkbitStatus) -> (r: bool)
    ensures
        r == (status.deep_view() == Some(report.deep_view())),
{
    match status {
        Some(status) => order::is_same(status.phase.as_str(), report.phase.as_str()) && match (
            &status.message,
            &report.message,
        ) {
            (Some(a), Some(b)) => order::is_same(a.as_str(), b.as_str()),
            (None, None) => true,
            _ => false,
        },
        None => false,
    }
}

impl HawkbitController {
    /// The status to be written after a reconciliation, unless it is there already.
    pub fn reconcile(&self, original: &Hawkbit, outcome: Result<(), String>) -> (r: Option<HawkbitStatus>)
        ensures
            r.deep_view() == status_change(
                original.deep_view().status,
                match outcome {
                    Ok(_) => Ok(()),
                    Err(message) => Err(message@),
                },
            ),
    {
        let report = match outcome {
            Ok(_) => HawkbitStatus { phase: "Active".to_string(), message: None },
            Err(message) => HawkbitStatus { phase: "Failed".to_string(), message: Some(message) },
        };
        if is_reported(&original.status, &report) {
            None
        } else {
            Some(report)
        }
    }
}

} // verus!
