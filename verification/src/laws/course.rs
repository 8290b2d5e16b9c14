//! The course of a reconciliation.

use vstd::prelude::*;

use crate::content;
use crate::controller::rabbit;
use crate::controller::reconcile;
use crate::controller::reconcile::{ActionModel, ProgressModel, ReconciliationModel, Step};
use crate::controller::resources;
use crate::controller::server;
use crate::controller::target::Target;
use crate::crd::{DatabaseVariantModel, HawkbitModel, HawkbitStatusModel};
use crate::error::Error;
use crate::objects::config::{ConfigMapModel, SecretModel};
use crate::objects::keycloak::KeycloakModel;
use crate::objects::object::ObjectModel;
use crate::objects::workload::{DeploymentModel, StatefulSetModel};
use crate::outside;

verus! {

/// Where a step has its place among those that can occur together.
pub open spec fn rank(step: Step) -> int {
    match step {
        Step::Apply(target) => match target {
            Target::Route => 0,
            Target::BrokerAccount => 1,
            Target::BrokerRole => 2,
            Target::BrokerRoleBinding => 3,
            Target::BrokerSecret => 4,
            Target::BrokerConfig => 5,
            Target::BrokerSet => 6,
            Target::BrokerHeadlessService => 7,
            Target::BrokerService => 8,
            Target::Keycloak => 9,
            Target::KeycloakRealm => 10,
            Target::KeycloakClient => 11,
            Target::KeycloakUser => 12,
            Target::Account => 14,
            Target::Config => 15,
            Target::AdminSecret => 16,
            Target::DataClaim => 17,
            Target::DatabaseClaim => 18,
            Target::Deployment => 19,
            Target::Service => 20,
        },
        Step::Delete(target) => match target {
            Target::BrokerAccount => 1,
            Target::BrokerRole => 2,
            Target::BrokerRoleBinding => 3,
            Target::BrokerConfig => 4,
            Target::BrokerSecret => 5,
            Target::BrokerSet => 6,
            Target::BrokerService => 7,
            _ => 8,
        },
        Step::FindIssuer => 13,
    }
}

/// The ranks of the steps go up, within bounds.
spec fn rising(steps: Seq<Step>, low: int, high: int) -> bool {
    &&& forall|i: int| 0 <= i < steps.len() ==> low <= rank(#[trigger] steps[i]) < high
    &&& forall|i: int, j: int| 0 <= i < j < steps.len() ==> rank(#[trigger] steps[i]) < rank(#[trigger] steps[j])
}

proof fn lemma_rising_joined(a: Seq<Step>, b: Seq<Step>, low: int, middle: int, high: int)
    requires
        rising(a, low, middle),
        rising(b, middle, high),
        low <= middle <= high,
    ensures
        rising(a + b, low, high),
{
    let c = a + b;
    assert forall|i: int| 0 <= i < c.len() implies low <= rank(#[trigger] c[i]) < high by {
        if i < a.len() {
            assert(c[i] == a[i]);
        } else {
            assert(c[i] == b[i - a.len()]);
        }
    }
    assert forall|i: int, j: int| 0 <= i < j < c.len() implies rank(#[trigger] c[i]) < rank(#[trigger] c[j]) by {
        if i < a.len() {
            assert(c[i] == a[i]);
        } else {
            assert(c[i] == b[i - a.len()]);
        }
        if j < a.len() {
            assert(c[j] == a[j]);
        } else {
            assert(c[j] == b[j - a.len()]);
        }
    }
}

proof fn lemma_plan_rises(resource: HawkbitModel, has_openshift: bool)
    ensures
        rising(reconcile::plan(resource, has_openshift), 0, 21),
{
    let a = reconcile::route_steps(has_openshift);
    let broker = if resource.spec.rabbit.managed is Some {
        reconcile::broker_steps()
    } else {
        reconcile::no_broker_steps()
    };
    let end = seq![Step::Apply(Target::Deployment), Step::Apply(Target::Service)];
    assert(rising(a, 0, 1));
    assert(rising(broker, 1, 9));
    assert(rising(reconcile::sign_on_steps(resource), 9, 14));
    assert(rising(reconcile::server_steps(resource), 14, 19));
    assert(rising(end, 19, 21));
    lemma_rising_joined(a, broker, 0, 1, 9);
    let b = a + broker;
    lemma_rising_joined(b, reconcile::sign_on_steps(resource), 0, 9, 14);
    let c = b + reconcile::sign_on_steps(resource);
    lemma_rising_joined(c, reconcile::server_steps(resource), 0, 14, 19);
    let d = c + reconcile::server_steps(resource);
    lemma_rising_joined(d, end, 0, 19, 21);
}

/// Wherever both occur, `a` comes before `b`.
pub open spec fn precedes(steps: Seq<Step>, a: Step, b: Step) -> bool {
    forall|i: int, j: int|
        0 <= i < steps.len() && 0 <= j < steps.len() && #[trigger] steps[i] == a && #[trigger] steps[j] == b ==> i < j
}

/// No step is planned twice.
pub proof fn lemma_no_step_twice(resource: HawkbitModel, has_openshift: bool)
    ensures
        reconcile::plan(resource, has_openshift).no_duplicates(),
{
    lemma_plan_rises(resource, has_openshift);
}

/// Steps are taken in the order of their places, whatever the instance is: together with what is planned, this leaves
/// just one plan.
pub proof fn lemma_steps_in_order(resource: HawkbitModel, has_openshift: bool, i: int, j: int)
    requires
        0 <= i < j < reconcile::plan(resource, has_openshift).len(),
    ensures
        rank(reconcile::plan(resource, has_openshift)[i]) < rank(reconcile::plan(resource, has_openshift)[j]),
{
    lemma_plan_rises(resource, has_openshift);
}

/// What a step needs comes before it: the URL of the route before signing on, the issuer of tokens before
/// the configuration, all that is hashed before the hash is used, and storage before what mounts it.
pub proof fn lemma_order(resource: HawkbitModel, has_openshift: bool)
    ensures
        ({
            let steps = reconcile::plan(resource, has_openshift);
            &&& precedes(steps, Step::Apply(Target::Route), Step::Apply(Target::Keycloak))
            &&& precedes(steps, Step::Apply(Target::Route), Step::Apply(Target::KeycloakClient))
            &&& precedes(steps, Step::Apply(Target::Keycloak), Step::FindIssuer)
            &&& precedes(steps, Step::FindIssuer, Step::Apply(Target::Config))
            &&& precedes(steps, Step::Apply(Target::Config), Step::Apply(Target::Deployment))
            &&& precedes(steps, Step::Apply(Target::AdminSecret), Step::Apply(Target::Deployment))
            &&& precedes(steps, Step::Apply(Target::Account), Step::Apply(Target::Deployment))
            &&& precedes(steps, Step::Apply(Target::DataClaim), Step::Apply(Target::Deployment))
            &&& precedes(steps, Step::Apply(Target::DatabaseClaim), Step::Apply(Target::Deployment))
            &&& precedes(steps, Step::Apply(Target::BrokerSecret), Step::Apply(Target::BrokerSet))
            &&& precedes(steps, Step::Apply(Target::BrokerConfig), Step::Apply(Target::BrokerSet))
            &&& precedes(steps, Step::Apply(Target::BrokerAccount), Step::Apply(Target::BrokerSet))
        }),
{
    lemma_plan_rises(resource, has_openshift);
}

/// What is planned for an instance, and when.
pub proof fn lemma_plan_holds(resource: HawkbitModel, has_openshift: bool, target: Target)
    ensures
        ({
            let steps = reconcile::plan(resource, has_openshift);
            &&& steps.contains(Step::Apply(target)) <==> match target {
                Target::Route => has_openshift,
                Target::BrokerAccount
                | Target::BrokerRole
                | Target::BrokerRoleBinding
                | Target::BrokerSecret
                | Target::BrokerConfig
                | Target::BrokerSet
                | Target::BrokerHeadlessService
                | Target::BrokerService => resource.spec.rabbit.managed is Some,
                Target::Keycloak
                | Target::KeycloakRealm
                | Target::KeycloakClient
                | Target::KeycloakUser => resource.spec.sign_on is Some,
                Target::DatabaseClaim => resource.spec.database.variant() == Some(DatabaseVariantModel::Embedded),
                _ => true,
            }
            &&& steps.contains(Step::Delete(target)) <==> is_of_broker(target) && resource.spec.rabbit.managed is None
            &&& steps.contains(Step::FindIssuer) <==> resource.spec.sign_on is Some
        }),
{
    let steps = reconcile::plan(resource, has_openshift);
    let a = reconcile::route_steps(has_openshift);
    let broker = if resource.spec.rabbit.managed is Some {
        reconcile::broker_steps()
    } else {
        reconcile::no_broker_steps()
    };
    let sign_on = reconcile::sign_on_steps(resource);
    let server = reconcile::server_steps(resource);
    let end = seq![Step::Apply(Target::Deployment), Step::Apply(Target::Service)];
    lemma_contains_joined(a, broker);
    lemma_contains_joined(a + broker, sign_on);
    lemma_contains_joined(a + broker + sign_on, server);
    lemma_contains_joined(a + broker + sign_on + server, end);
    lemma_broker_holds(target);
    lemma_sign_on_holds(resource, target);
    lemma_server_holds(resource, target);
    if has_openshift {
        assert(a[0] == Step::Apply(Target::Route));
    }
    assert(end[0] == Step::Apply(Target::Deployment) && end[1] == Step::Apply(Target::Service));
}

proof fn lemma_contains_joined(a: Seq<Step>, b: Seq<Step>)
    ensures
        forall|step: Step| #[trigger] (a + b).contains(step) <==> a.contains(step) || b.contains(step),
{
    assert forall|step: Step| #[trigger] (a + b).contains(step) <==> a.contains(step) || b.contains(step) by {
        if a.contains(step) {
            let i = a.index_of(step);
            assert((a + b)[i] == step);
        }
        if b.contains(step) {
            let i = b.index_of(step);
            assert((a + b)[a.len() + i] == step);
        }
    }
}

/// Whether the target belongs to the broker.
pub open spec fn is_of_broker(target: Target) -> bool {
    match target {
        Target::BrokerAccount
        | Target::BrokerRole
        | Target::BrokerRoleBinding
        | Target::BrokerSecret
        | Target::BrokerConfig
        | Target::BrokerSet
        | Target::BrokerHeadlessService
        | Target::BrokerService => true,
        _ => false,
    }
}

/// What is deleted when the broker is not kept any more is what is created when it is.
pub proof fn lemma_broker_holds(target: Target)
    ensures
        reconcile::broker_steps().contains(Step::Apply(target)) <==> is_of_broker(target),
        reconcile::no_broker_steps().contains(Step::Delete(target)) <==> is_of_broker(target),
        !reconcile::broker_steps().contains(Step::Delete(target)),
        !reconcile::no_broker_steps().contains(Step::Apply(target)),
        !reconcile::broker_steps().contains(Step::FindIssuer),
        !reconcile::no_broker_steps().contains(Step::FindIssuer),
{
    let on = reconcile::broker_steps();
    let off = reconcile::no_broker_steps();
    assert(on[0] == Step::Apply(Target::BrokerAccount) && on[1] == Step::Apply(Target::BrokerRole) && on[2]
        == Step::Apply(Target::BrokerRoleBinding) && on[3] == Step::Apply(Target::BrokerSecret) && on[4]
        == Step::Apply(Target::BrokerConfig) && on[5] == Step::Apply(Target::BrokerSet) && on[6] == Step::Apply(
        Target::BrokerHeadlessService,
    ) && on[7] == Step::Apply(Target::BrokerService));
    assert(off[0] == Step::Delete(Target::BrokerAccount) && off[1] == Step::Delete(Target::BrokerRole) && off[2]
        == Step::Delete(Target::BrokerRoleBinding) && off[3] == Step::Delete(Target::BrokerConfig) && off[4]
        == Step::Delete(Target::BrokerSecret) && off[5] == Step::Delete(Target::BrokerSet) && off[6]
        == Step::Delete(Target::BrokerService) && off[7] == Step::Delete(Target::BrokerHeadlessService));
}

proof fn lemma_sign_on_holds(resource: HawkbitModel, target: Target)
    ensures
        ({
            let steps = reconcile::sign_on_steps(resource);
            &&& steps.contains(Step::Apply(target)) <==> resource.spec.sign_on is Some && (target is Keycloak
                || target is KeycloakRealm || target is KeycloakClient || target is KeycloakUser)
            &&& !steps.contains(Step::Delete(target))
            &&& steps.contains(Step::FindIssuer) <==> resource.spec.sign_on is Some
        }),
{
    let steps = reconcile::sign_on_steps(resource);
    if resource.spec.sign_on is Some {
        assert(steps[0] == Step::Apply(Target::Keycloak) && steps[1] == Step::Apply(Target::KeycloakRealm) && steps[2]
            == Step::Apply(Target::KeycloakClient) && steps[3] == Step::Apply(Target::KeycloakUser) && steps[4]
            == Step::FindIssuer);
    }
}

proof fn lemma_server_holds(resource: HawkbitModel, target: Target)
    ensures
        ({
            let steps = reconcile::server_steps(resource);
            &&& steps.contains(Step::Apply(target)) <==> target is Account || target is Config || target is AdminSecret
                || target is DataClaim || (target is DatabaseClaim && resource.spec.database.variant() == Some(
                DatabaseVariantModel::Embedded,
            ))
            &&& !steps.contains(Step::Delete(target))
            &&& !steps.contains(Step::FindIssuer)
        }),
{
    let steps = reconcile::server_steps(resource);
    assert(steps[0] == Step::Apply(Target::Account) && steps[1] == Step::Apply(Target::Config) && steps[2]
        == Step::Apply(Target::AdminSecret) && steps[3] == Step::Apply(Target::DataClaim));
    if resource.spec.database.variant() == Some(DatabaseVariantModel::Embedded) {
        assert(steps[4] == Step::Apply(Target::DatabaseClaim));
    }
}

/// A step that is done is behind: the next one is one further, so a reconciliation comes to its end.
pub proof fn lemma_steps_come_to_an_end(run: ReconciliationModel, instances: Seq<KeycloakModel>)
    requires
        run.step() is Some,
    ensures
        run.succeeded().taken == run.taken + 1,
        run.succeeded().taken <= run.steps().len(),
        run.succeeded().steps() == run.steps(),
        run.step() == Some(Step::FindIssuer) ==> run.listed(instances).taken == run.taken + 1,
        run.listed(instances).steps() == run.steps(),
{
}

/// Once something has failed, nothing more is asked for, and the first failure is what is reported.
pub proof fn lemma_failure_is_final(
    run: ReconciliationModel,
    message: Seq<char>,
    other: Seq<char>,
    instances: Seq<KeycloakModel>,
    object: ObjectModel,
    password: Seq<char>,
)
    requires
        run.step() is Some,
    ensures
        ({
            let stopped = run.failed(message);
            &&& stopped.action() == ActionModel::Failed { message }
            &&& stopped.succeeded() == stopped
            &&& stopped.listed(instances) == stopped
            &&& stopped.failed(other) == stopped
            &&& stopped.applied(object, password) == Ok::<(ObjectModel, ReconciliationModel), Error>((object, stopped))
        }),
{
}

/// A reconciliation that is done has taken every step that was planned, and stays done.
pub proof fn lemma_done_is_final(run: ReconciliationModel, other: Seq<char>)
    requires
        run.action() == ActionModel::Done,
    ensures
        run.failure is None,
        run.taken >= run.steps().len(),
        run.succeeded() == run,
        run.failed(other) == run,
{
}

/// What is asked for is the step that is next, and nothing is asked for where there is none.
pub proof fn lemma_action_is_step(run: ReconciliationModel)
    ensures
        run.step() is None <==> run.action() is Done || run.action() is Failed,
        run.step() matches Some(Step::Apply(target)) ==> run.action() == (ActionModel::Apply {
            target,
            name: target.name_of(run.resource),
        }),
        run.step() matches Some(Step::Delete(target)) ==> run.action() == (ActionModel::Delete {
            target,
            name: target.name_of(run.resource),
        }),
        run.step() == Some(Step::FindIssuer) ==> run.action() is ListKeycloaks,
{
}

/// Where there are routes and no URL is given, nothing is done for signing on before the route has a host:
/// the reconciliation stops and says what it waits for.
pub proof fn lemma_sign_on_waits_for_route(run: ReconciliationModel)
    requires
        run.failure is None,
        run.taken < run.steps().len(),
        run.steps()[run.taken as int] == Step::Apply(Target::Keycloak),
        run.resource.spec.sign_on is Some,
        run.has_openshift,
        run.progress.url is None,
        run.resource.spec.sign_on->0->config.hawkbit_url is None,
    ensures
        run.action() == (ActionModel::Failed { message: Error::WaitingForRoute.text() }),
{
}

/// Where there are no routes, signing on takes no URL: nothing stands in the way of any of its steps.
pub proof fn lemma_sign_on_takes_no_url(run: ReconciliationModel)
    requires
        run.failure is None,
        run.taken < run.steps().len(),
        reconcile::sign_on_steps(run.resource).contains(run.steps()[run.taken as int]),
        !run.has_openshift,
    ensures
        run.step() == Some(run.steps()[run.taken as int]),
        reconcile::sign_on_url(run.resource, run.has_openshift, run.progress) is Ok,
{
    lemma_sign_on_holds(run.resource, Target::Deployment);
}

/// An instance without exactly one database gets no deployment.
pub proof fn lemma_no_deployment_without_database(run: ReconciliationModel)
    requires
        run.failure is None,
        run.taken < run.steps().len(),
        run.steps()[run.taken as int] == Step::Apply(Target::Deployment),
        run.resource.spec.database.variant() is None,
    ensures
        run.action() == (ActionModel::Failed { message: Error::InvalidDatabase.text() }),
{
}

/// A database is known just when exactly one is given.
pub proof fn lemma_one_database(resource: HawkbitModel)
    ensures
        ({
            let database = resource.spec.database;
            let given = (if database.mysql is Some { 1int } else { 0 }) + (if database.postgres is Some { 1int } else {
                0
            }) + (if database.embedded is Some { 1int } else { 0 });
            resource.spec.database.variant() is Some <==> given == 1
        }),
{
}

/// A broker is known just when exactly one is given.
pub proof fn lemma_one_broker(resource: HawkbitModel)
    ensures
        server::broker_env(resource) is Some <==> (resource.spec.rabbit.external is Some
            != resource.spec.rabbit.managed is Some),
{
}

/// What is learned from an object: its URL from a route, and what is hashed from configuration and
/// secrets. Nothing is learned from any other object.
pub proof fn lemma_learned(
    target: Target,
    object: ObjectModel,
    resource: HawkbitModel,
    has_openshift: bool,
    progress: ProgressModel,
    password: Seq<char>,
)
    requires
        reconcile::applied(target, object, resource, has_openshift, progress, password) is Ok,
    ensures
        ({
            let after = reconcile::applied(target, object, resource, has_openshift, progress, password)->Ok_0.1;
            &&& after.issuer_uri == progress.issuer_uri
            &&& !(target is Route) ==> after.url == progress.url
            &&& !(target is BrokerSecret || target is BrokerConfig) ==> after.broker == progress.broker
            &&& !(target is Config || target is AdminSecret) ==> after.server == progress.server
        }),
{
    reveal(reconcile::sign_on_applied);
    match target {
        Target::BrokerAccount
        | Target::BrokerRole
        | Target::BrokerRoleBinding
        | Target::BrokerSecret
        | Target::BrokerConfig
        | Target::BrokerSet
        | Target::BrokerHeadlessService
        | Target::BrokerService => {
            lemma_learned_from_broker(target, object, resource, progress);
        },
        Target::Keycloak | Target::KeycloakRealm | Target::KeycloakClient | Target::KeycloakUser => {},
        _ => {
            lemma_learned_from_server(target, object, resource, has_openshift, progress, password);
        },
    }
}

proof fn lemma_learned_from_broker(
    target: Target,
    object: ObjectModel,
    resource: HawkbitModel,
    progress: ProgressModel,
)
    requires
        reconcile::broker_applied(target, object, resource, progress) is Ok,
    ensures
        ({
            let after = reconcile::broker_applied(target, object, resource, progress)->Ok_0.1;
            &&& after == ProgressModel { broker: after.broker, ..progress }
            &&& !(target is BrokerSecret || target is BrokerConfig) ==> after == progress
        }),
{
    reveal(reconcile::broker_applied);
}

proof fn lemma_learned_from_server(
    target: Target,
    object: ObjectModel,
    resource: HawkbitModel,
    has_openshift: bool,
    progress: ProgressModel,
    password: Seq<char>,
)
    requires
        reconcile::server_applied(target, object, resource, has_openshift, progress, password) is Ok,
    ensures
        ({
            let after = reconcile::server_applied(target, object, resource, has_openshift, progress, password)->Ok_0.1;
            &&& after == ProgressModel { server: after.server, url: after.url, ..progress }
            &&& !(target is Config || target is AdminSecret) ==> after.server == progress.server
            &&& !(target is Route) ==> after.url == progress.url
        }),
{
    reveal(reconcile::server_applied);
}

/// What the server's pods are labelled with is the hash over its configuration and the administrator's
/// credentials, as they are after this reconciliation.
pub proof fn lemma_hash_covers_configuration(
    config: ConfigMapModel,
    secret: SecretModel,
    deployment: DeploymentModel,
    resource: HawkbitModel,
    has_openshift: bool,
    progress: ProgressModel,
    password: Seq<char>,
)
    requires
        progress.server == Seq::<u8>::empty(),
        resources::config_map(config, resource, progress.issuer_uri) is Ok,
        resources::admin_secret(secret, resource, password) is Ok,
    ensures
        ({
            let written = resources::config_map(config, resource, progress.issuer_uri)->Ok_0;
            let kept = resources::admin_secret(secret, resource, password)->Ok_0;
            let a = reconcile::applied(
                Target::Config,
                ObjectModel::ConfigMap(config),
                resource,
                has_openshift,
                progress,
                password,
            )->Ok_0.1;
            let b = reconcile::applied(
                Target::AdminSecret,
                ObjectModel::Secret(secret),
                resource,
                has_openshift,
                a,
                password,
            )->Ok_0.1;
            &&& b.server == content::text_content(written.data) + content::byte_content(kept.data)
            &&& reconcile::applied(
                Target::Deployment,
                ObjectModel::Deployment(deployment),
                resource,
                has_openshift,
                b,
                password,
            ) matches Ok((ObjectModel::Deployment(after), _)) ==> after.spec->0.template.metadata->0.labels->0["config-hash"@]
                == outside::digest(b.server)
        }),
{
    reveal(reconcile::server_applied);
    assert(Seq::<u8>::empty() + content::text_content(
        resources::config_map(config, resource, progress.issuer_uri)->Ok_0.data,
    ) =~= content::text_content(resources::config_map(config, resource, progress.issuer_uri)->Ok_0.data));
}

/// What the broker's pods are annotated with is the hash over its credentials and its configuration, as
/// they are after this reconciliation.
pub proof fn lemma_broker_hash_covers_configuration(
    secret: SecretModel,
    config: ConfigMapModel,
    set: StatefulSetModel,
    resource: HawkbitModel,
    has_openshift: bool,
    progress: ProgressModel,
    password: Seq<char>,
)
    requires
        progress.broker == Seq::<u8>::empty(),
        rabbit::secret(secret, resource) is Ok,
        rabbit::config_map(config, resource) is Ok,
    ensures
        ({
            let kept = rabbit::secret(secret, resource)->Ok_0;
            let written = rabbit::config_map(config, resource)->Ok_0;
            let a = reconcile::applied(
                Target::BrokerSecret,
                ObjectModel::Secret(secret),
                resource,
                has_openshift,
                progress,
                password,
            )->Ok_0.1;
            let b = reconcile::applied(
                Target::BrokerConfig,
                ObjectModel::ConfigMap(config),
                resource,
                has_openshift,
                a,
                password,
            )->Ok_0.1;
            &&& b.broker == content::byte_content(kept.data) + content::text_content(written.data)
            &&& reconcile::applied(
                Target::BrokerSet,
                ObjectModel::StatefulSet(set),
                resource,
                has_openshift,
                b,
                password,
            ) matches Ok((ObjectModel::StatefulSet(after), _)) ==> after.spec->0.template.metadata->0.annotations->0["config-hash"@]
                == outside::digest(b.broker)
        }),
{
    reveal(reconcile::broker_applied);
    let kept = content::byte_content(rabbit::secret(secret, resource)->Ok_0.data);
    assert(Seq::<u8>::empty() + kept =~= kept);
}

/// A status that is there is not written again, and what is written says how the reconciliation went.
pub proof fn lemma_status(status: Option<HawkbitStatusModel>, outcome: Result<(), Seq<char>>)
    ensures
        reconcile::status_change(Some(reconcile::reported(outcome)), outcome) is None,
        reconcile::status_change(status, outcome) is Some ==> reconcile::status_change(status, outcome)->0
            == reconcile::reported(outcome),
        reconcile::status_change(status, outcome) is None ==> status == Some(reconcile::reported(outcome)),
        outcome is Ok <==> reconcile::reported(outcome).message is None,
        reconcile::reported(outcome).message == match outcome {
            Ok(_) => None,
            Err(message) => Some(message),
        },
        reconcile::reported(outcome).phase == if outcome is Ok {
            "Active"@
        } else {
            "Failed"@
        },
{
}

} // verus!
