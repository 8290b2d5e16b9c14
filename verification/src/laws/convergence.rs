//! A reconciliation brings a cluster into a state in which the next one finds nothing to do.

use vstd::prelude::*;

use crate::controller::reconcile;
use crate::controller::reconcile::{ProgressModel, ReconciliationModel, Step};
use crate::controller::server;
use crate::controller::target::Target;
use crate::crd::{HawkbitModel, SignOnModel};
use crate::laws::again;
use crate::laws::course;
use crate::laws::kept;
use crate::laws::wiring;
use crate::objects::config::{
    ConfigMapModel, RoleBindingModel, RoleModel, SecretModel, ServiceAccountModel,
};
use crate::objects::keycloak::{KeycloakClientModel, KeycloakModel, KeycloakRealmModel, KeycloakUserModel};
use crate::objects::meta::ObjectMetaModel;
use crate::objects::network::{RouteModel, ServiceModel};
use crate::objects::object::{Kind, ObjectModel};
use crate::objects::storage::PersistentVolumeClaimModel;
use crate::objects::workload::{DeploymentModel, StatefulSetModel};
use crate::ownership;

verus! {

/// The objects of a namespace, by kind and name.
pub type Cluster = Map<(Kind, Seq<char>), ObjectModel>;

/// Where a target is found.
pub open spec fn place(target: Target, resource: HawkbitModel) -> (Kind, Seq<char>) {
    (target.kind_of(), target.name_of(resource))
}

/// An object that has been made, but not written to.
pub open spec fn fresh(target: Target, resource: HawkbitModel) -> ObjectModel {
    let metadata = ObjectMetaModel {
        name: Some(target.name_of(resource)),
        namespace: resource.metadata.namespace,
        ..ObjectMetaModel::blank()
    };
    match target.kind_of() {
        Kind::ServiceAccount => ObjectModel::ServiceAccount(
            ServiceAccountModel { metadata, ..ServiceAccountModel::blank() },
        ),
        Kind::Role => ObjectModel::Role(RoleModel { metadata, ..RoleModel::blank() }),
        Kind::RoleBinding => ObjectModel::RoleBinding(RoleBindingModel { metadata, ..RoleBindingModel::blank() }),
        Kind::Secret => ObjectModel::Secret(SecretModel { metadata, ..SecretModel::blank() }),
        Kind::ConfigMap => ObjectModel::ConfigMap(ConfigMapModel { metadata, ..ConfigMapModel::blank() }),
        Kind::StatefulSet => ObjectModel::StatefulSet(StatefulSetModel { metadata, ..StatefulSetModel::blank() }),
        Kind::Deployment => ObjectModel::Deployment(DeploymentModel { metadata, ..DeploymentModel::blank() }),
        Kind::Service => ObjectModel::Service(ServiceModel { metadata, ..ServiceModel::blank() }),
        Kind::Route => ObjectModel::Route(RouteModel { metadata, ..RouteModel::blank() }),
        Kind::PersistentVolumeClaim => ObjectModel::PersistentVolumeClaim(
            PersistentVolumeClaimModel { metadata, ..PersistentVolumeClaimModel::blank() },
        ),
        Kind::Keycloak => ObjectModel::Keycloak(KeycloakModel { metadata, ..KeycloakModel::blank() }),
        Kind::KeycloakRealm => ObjectModel::KeycloakRealm(
            KeycloakRealmModel { metadata, ..KeycloakRealmModel::blank() },
        ),
        Kind::KeycloakClient => ObjectModel::KeycloakClient(
            KeycloakClientModel { metadata, ..KeycloakClientModel::blank() },
        ),
        Kind::KeycloakUser => ObjectModel::KeycloakUser(KeycloakUserModel { metadata, ..KeycloakUserModel::blank() }),
    }
}

/// The object of a target: the one that is there, else one that has been made.
pub open spec fn found(cluster: Cluster, target: Target, resource: HawkbitModel) -> ObjectModel {
    if cluster.contains_key(place(target, resource)) {
        cluster[place(target, resource)]
    } else {
        fresh(target, resource)
    }
}

/// A reconciliation and the cluster after the next step, if the cluster does as it is asked.
pub open spec fn stepped(
    run: ReconciliationModel,
    cluster: Cluster,
    password: Seq<char>,
    instances: Seq<KeycloakModel>,
) -> (ReconciliationModel, Cluster) {
    match run.step() {
        None => (run, cluster),
        Some(Step::Apply(target)) => match run.applied(found(cluster, target, run.resource), password) {
            Ok((object, after)) => (after.succeeded(), cluster.insert(place(target, run.resource), object)),
            Err(e) => (run.failed(e.text()), cluster),
        },
        Some(Step::Delete(target)) => (run.succeeded(), cluster.remove(place(target, run.resource))),
        Some(Step::FindIssuer) => (run.listed(instances), cluster),
    }
}

/// A reconciliation and the cluster when there is nothing more to be done. The passwords are those that
/// are made up for each step.
pub open spec fn finished(
    run: ReconciliationModel,
    cluster: Cluster,
    passwords: spec_fn(nat) -> Seq<char>,
    instances: Seq<KeycloakModel>,
) -> (ReconciliationModel, Cluster)
    decreases run.steps().len() - run.taken,
    when run.taken <= run.steps().len()
{
    let next = stepped(run, cluster, passwords(run.taken), instances);
    if next.0.taken == run.taken + 1 && next.0.steps() == run.steps() {
        finished(next.0, next.1, passwords, instances)
    } else {
        next
    }
}

/// Applying an object does not put anything in the way of the step.
pub proof fn lemma_apply_keeps_step(run: ReconciliationModel, object: ObjectModel, password: Seq<char>)
    requires
        run.step() is Some,
        run.applied(object, password) is Ok,
    ensures
        run.applied(object, password)->Ok_0.1.step() == run.step(),
        run.applied(object, password)->Ok_0.1.resource == run.resource,
        run.applied(object, password)->Ok_0.1.has_openshift == run.has_openshift,
        run.applied(object, password)->Ok_0.1.taken == run.taken,
{
    match run.step() {
        Some(Step::Apply(target)) => {
            course::lemma_learned(target, object, run.resource, run.has_openshift, run.progress, password);
        },
        _ => {},
    }
}

/// A step either goes on to the next one, or stops the reconciliation and leaves the cluster alone.
proof fn lemma_stepped(
    run: ReconciliationModel,
    cluster: Cluster,
    password: Seq<char>,
    instances: Seq<KeycloakModel>,
)
    requires
        run.step() is Some,
    ensures
        ({
            let next = stepped(run, cluster, password, instances);
            &&& next.0.resource == run.resource
            &&& next.0.has_openshift == run.has_openshift
            &&& next.0.taken == run.taken + 1 || (next.0.taken == run.taken && next.0.failure is Some && next.1
                == cluster)
        }),
{
    match run.step() {
        Some(Step::Apply(target)) => {
            let object = found(cluster, target, run.resource);
            if run.applied(object, password) is Ok {
                lemma_apply_keeps_step(run, object, password);
            }
        },
        _ => {},
    }
}

/// The step applies or deletes the target.
pub open spec fn touches(step: Step, target: Target) -> bool {
    step == Step::Apply(target) || step == Step::Delete(target)
}

/// Different steps touch objects in different places.
pub proof fn lemma_places_differ(
    resource: HawkbitModel,
    has_openshift: bool,
    i: int,
    j: int,
    a: Target,
    b: Target,
)
    requires
        0 <= i < reconcile::plan(resource, has_openshift).len(),
        0 <= j < reconcile::plan(resource, has_openshift).len(),
        i != j,
        touches(reconcile::plan(resource, has_openshift)[i], a),
        touches(reconcile::plan(resource, has_openshift)[j], b),
    ensures
        place(a, resource) != place(b, resource),
{
    let steps = reconcile::plan(resource, has_openshift);
    course::lemma_no_step_twice(resource, has_openshift);
    course::lemma_plan_holds(resource, has_openshift, a);
    assert(steps.contains(steps[i]) && steps.contains(steps[j]));
    if a != b && a.kind_of() == b.kind_of() {
        wiring::lemma_no_two_objects_are_the_same(resource, a, b);
    }
}

/// What a step has left behind is what is there in the end.
proof fn lemma_left_behind(
    run: ReconciliationModel,
    cluster: Cluster,
    passwords: spec_fn(nat) -> Seq<char>,
    instances: Seq<KeycloakModel>,
    i: int,
    target: Target,
)
    requires
        run.taken <= run.steps().len(),
        0 <= i < run.taken,
        touches(run.steps()[i], target),
    ensures
        ({
            let after = finished(run, cluster, passwords, instances).1;
            let p = place(target, run.resource);
            &&& after.contains_key(p) == cluster.contains_key(p)
            &&& cluster.contains_key(p) ==> after[p] == cluster[p]
        }),
    decreases run.steps().len() - run.taken,
{
    if run.step() is Some {
        let next = stepped(run, cluster, passwords(run.taken), instances);
        lemma_stepped(run, cluster, passwords(run.taken), instances);
        if next.0.taken == run.taken + 1 {
            lemma_left_behind(next.0, next.1, passwords, instances, i, target);
            match run.step() {
                Some(Step::Apply(other)) => {
                    lemma_places_differ(run.resource, run.has_openshift, i, run.taken as int, target, other);
                },
                Some(Step::Delete(other)) => {
                    lemma_places_differ(run.resource, run.has_openshift, i, run.taken as int, target, other);
                },
                _ => {},
            }
        }
    }
}

/// Whether an object can be applied does not depend on the password.
proof fn lemma_error_is_the_same(
    target: Target,
    object: ObjectModel,
    resource: HawkbitModel,
    has_openshift: bool,
    progress: ProgressModel,
    password: Seq<char>,
    other: Seq<char>,
)
    requires
        reconcile::applied(target, object, resource, has_openshift, progress, password) is Err,
    ensures
        reconcile::applied(target, object, resource, has_openshift, progress, other) == reconcile::applied(
            target,
            object,
            resource,
            has_openshift,
            progress,
            password,
        ),
{
    reveal(reconcile::broker_applied);
    reveal(reconcile::sign_on_applied);
    reveal(reconcile::server_applied);
}

/// What is left to do of a reconciliation finds nothing to change in the cluster that it has led to.
proof fn lemma_rest_again(
    run: ReconciliationModel,
    cluster: Cluster,
    passwords: spec_fn(nat) -> Seq<char>,
    others: spec_fn(nat) -> Seq<char>,
    instances: Seq<KeycloakModel>,
)
    requires
        run.taken <= run.steps().len(),
    ensures
        finished(run, finished(run, cluster, passwords, instances).1, others, instances) == finished(
            run,
            cluster,
            passwords,
            instances,
        ),
    decreases run.steps().len() - run.taken,
{
    if run.step() is Some {
        let (end, after) = finished(run, cluster, passwords, instances);
        let next = stepped(run, cluster, passwords(run.taken), instances);
        let again = stepped(run, after, others(run.taken), instances);
        lemma_stepped(run, cluster, passwords(run.taken), instances);
        if next.0.taken == run.taken + 1 {
            lemma_rest_again(next.0, next.1, passwords, others, instances);
        }
        match run.step() {
            Some(Step::Apply(target)) => {
                let object = found(cluster, target, run.resource);
                let p = place(target, run.resource);
                if run.applied(object, passwords(run.taken)) is Ok {
                    lemma_apply_keeps_step(run, object, passwords(run.taken));
                    lemma_left_behind(next.0, next.1, passwords, instances, run.taken as int, target);
                    again::lemma_applied_again(
                        target,
                        object,
                        run.resource,
                        run.has_openshift,
                        run.progress,
                        passwords(run.taken),
                        others(run.taken),
                    );
                    assert(after.insert(p, after[p]) =~= after);
                } else {
                    lemma_error_is_the_same(
                        target,
                        object,
                        run.resource,
                        run.has_openshift,
                        run.progress,
                        passwords(run.taken),
                        others(run.taken),
                    );
                }
            },
            Some(Step::Delete(target)) => {
                let p = place(target, run.resource);
                lemma_left_behind(next.0, next.1, passwords, instances, run.taken as int, target);
                assert(after.remove(p) =~= after);
            },
            _ => {},
        }
        assert(again.0 == next.0);
    }
}

/// A second reconciliation comes to the same end as the first, and leaves the cluster as the first has left
/// it, whatever passwords are made up.
pub proof fn lemma_reconciling_again_changes_nothing(
    resource: HawkbitModel,
    has_openshift: bool,
    cluster: Cluster,
    passwords: spec_fn(nat) -> Seq<char>,
    others: spec_fn(nat) -> Seq<char>,
    instances: Seq<KeycloakModel>,
)
    ensures
        ({
            let start = ReconciliationModel::start(resource, has_openshift);
            let first = finished(start, cluster, passwords, instances);
            finished(start, first.1, others, instances) == first
        }),
{
    lemma_rest_again(ReconciliationModel::start(resource, has_openshift), cluster, passwords, others, instances);
}

/// Some step from a place on touches the object at `p`.
pub open spec fn is_touched(steps: Seq<Step>, resource: HawkbitModel, p: (Kind, Seq<char>)) -> bool {
    exists|i: int, target: Target|
        0 <= i < steps.len() && touches(#[trigger] steps[i], target) && #[trigger] place(target, resource) == p
}

proof fn lemma_rest_leaves_alone(
    run: ReconciliationModel,
    cluster: Cluster,
    passwords: spec_fn(nat) -> Seq<char>,
    instances: Seq<KeycloakModel>,
    p: (Kind, Seq<char>),
)
    requires
        run.taken <= run.steps().len(),
        !is_touched(run.steps(), run.resource, p),
    ensures
        ({
            let after = finished(run, cluster, passwords, instances).1;
            &&& after.contains_key(p) == cluster.contains_key(p)
            &&& cluster.contains_key(p) ==> after[p] == cluster[p]
        }),
    decreases run.steps().len() - run.taken,
{
    if run.step() is Some {
        let next = stepped(run, cluster, passwords(run.taken), instances);
        lemma_stepped(run, cluster, passwords(run.taken), instances);
        let step = run.steps()[run.taken as int];
        match run.step() {
            Some(Step::Apply(target)) => {
                assert(touches(step, target));
                assert(place(target, run.resource) != p);
            },
            Some(Step::Delete(target)) => {
                assert(touches(step, target));
                assert(place(target, run.resource) != p);
            },
            _ => {},
        }
        if next.0.taken == run.taken + 1 {
            lemma_rest_leaves_alone(next.0, next.1, passwords, instances, p);
        }
    }
}

/// An object that no step is planned for stays as it is.
pub proof fn lemma_nothing_else_is_touched(
    resource: HawkbitModel,
    has_openshift: bool,
    cluster: Cluster,
    passwords: spec_fn(nat) -> Seq<char>,
    instances: Seq<KeycloakModel>,
    p: (Kind, Seq<char>),
)
    requires
        !is_touched(reconcile::plan(resource, has_openshift), resource, p),
    ensures
        ({
            let after = finished(
                ReconciliationModel::start(resource, has_openshift),
                cluster,
                passwords,
                instances,
            ).1;
            &&& after.contains_key(p) == cluster.contains_key(p)
            &&& cluster.contains_key(p) ==> after[p] == cluster[p]
        }),
{
    lemma_rest_leaves_alone(
        ReconciliationModel::start(resource, has_openshift),
        cluster,
        passwords,
        instances,
        p,
    );
}

proof fn lemma_rest_is_done(
    run: ReconciliationModel,
    cluster: Cluster,
    passwords: spec_fn(nat) -> Seq<char>,
    instances: Seq<KeycloakModel>,
    i: int,
    target: Target,
)
    requires
        run.taken <= i < run.steps().len(),
        touches(run.steps()[i], target),
        finished(run, cluster, passwords, instances).0.action() is Done,
    ensures
        finished(run, cluster, passwords, instances).1.contains_key(place(target, run.resource)) == (run.steps()[i]
            == Step::Apply(target)),
    decreases run.steps().len() - run.taken,
{
    assert(run.step() is Some);
    let next = stepped(run, cluster, passwords(run.taken), instances);
    lemma_stepped(run, cluster, passwords(run.taken), instances);
    assert(next.0.taken == run.taken + 1);
    if i == run.taken {
        lemma_left_behind(next.0, next.1, passwords, instances, i, target);
    } else {
        lemma_rest_is_done(next.0, next.1, passwords, instances, i, target);
    }
}

/// When a reconciliation is done, everything that was to be kept is there, and everything that was to be
/// deleted is gone.
pub proof fn lemma_done_is_done(
    resource: HawkbitModel,
    has_openshift: bool,
    cluster: Cluster,
    passwords: spec_fn(nat) -> Seq<char>,
    instances: Seq<KeycloakModel>,
    target: Target,
)
    requires
        finished(
            ReconciliationModel::start(resource, has_openshift),
            cluster,
            passwords,
            instances,
        ).0.action() is Done,
    ensures
        ({
            let after = finished(
                ReconciliationModel::start(resource, has_openshift),
                cluster,
                passwords,
                instances,
            ).1;
            let steps = reconcile::plan(resource, has_openshift);
            &&& steps.contains(Step::Apply(target)) ==> after.contains_key(place(target, resource))
            &&& steps.contains(Step::Delete(target)) ==> !after.contains_key(place(target, resource))
        }),
{
    let start = ReconciliationModel::start(resource, has_openshift);
    let steps = reconcile::plan(resource, has_openshift);
    if steps.contains(Step::Apply(target)) {
        let i = steps.index_of(Step::Apply(target));
        lemma_rest_is_done(start, cluster, passwords, instances, i, target);
    }
    if steps.contains(Step::Delete(target)) {
        let i = steps.index_of(Step::Delete(target));
        lemma_rest_is_done(start, cluster, passwords, instances, i, target);
    }
}

/// The object is a route with a host.
pub open spec fn has_host(object: ObjectModel) -> bool {
    object matches ObjectModel::Route(route) && route.spec.host.len() > 0
}

/// The URL for signing on is given, or the route that is there has a host, or there are no routes.
pub open spec fn has_url(resource: HawkbitModel, has_openshift: bool, cluster: Cluster) -> bool {
    match resource.spec.sign_on {
        Some(SignOnModel::Keycloak { config }) => !has_openshift || config.hawkbit_url is Some || has_host(
            found(cluster, Target::Route, resource),
        ),
        None => true,
    }
}

/// The instance has all that it takes: exactly one database and broker, a URL if it waits for one, and nothing
/// that it is to keep is kept by something else.
pub open spec fn is_ready(resource: HawkbitModel, has_openshift: bool, cluster: Cluster) -> bool {
    &&& resource.spec.database.variant() is Some
    &&& server::broker_env(resource) is Some
    &&& has_url(resource, has_openshift, cluster)
    &&& forall|target: Target|
        reconcile::plan(resource, has_openshift).contains(Step::Apply(target)) ==> {
            &&& (#[trigger] found(cluster, target, resource)).kind() == target.kind_of()
            &&& ownership::owned(found(cluster, target, resource).metadata(), resource) is Ok
        }
}

/// Nothing has gone wrong so far, and what is still to be applied is as it was.
spec fn is_on_course(run: ReconciliationModel, cluster: Cluster, original: Cluster) -> bool {
    &&& run.taken <= run.steps().len()
    &&& run.failure is None
    &&& forall|j: int, target: Target|
        run.taken <= j < run.steps().len() && #[trigger] run.steps()[j] == Step::Apply(target) ==> #[trigger] found(
            cluster,
            target,
            run.resource,
        ) == found(original, target, run.resource)
    &&& run.has_openshift && run.taken > 0 && has_host(found(original, Target::Route, run.resource))
        ==> run.progress.url is Some
}

/// The URL is known when it is needed.
proof fn lemma_url_is_known(run: ReconciliationModel, cluster: Cluster, original: Cluster)
    requires
        is_ready(run.resource, run.has_openshift, original),
        is_on_course(run, cluster, original),
        run.taken < run.steps().len(),
        run.steps()[run.taken as int] == Step::Apply(Target::Keycloak) || run.steps()[run.taken as int] == Step::Apply(
            Target::KeycloakClient,
        ),
    ensures
        reconcile::sign_on_url(run.resource, run.has_openshift, run.progress) is Ok,
{
    let step = run.steps()[run.taken as int];
    assert(run.steps().contains(step));
    lemma_route_first(run.resource, run.has_openshift, run.taken as int);
    lemma_route_first(run.resource, run.has_openshift, 0);
    course::lemma_plan_holds(run.resource, run.has_openshift, Target::Keycloak);
    course::lemma_plan_holds(run.resource, run.has_openshift, Target::KeycloakClient);
}

/// The URL comes with the route.
proof fn lemma_route_gives_url(run: ReconciliationModel, object: ObjectModel, password: Seq<char>)
    requires
        run.step() == Some(Step::Apply(Target::Route)),
        has_host(object),
        run.applied(object, password) is Ok,
    ensures
        run.applied(object, password)->Ok_0.1.progress.url is Some,
{
    reveal(reconcile::server_applied);
}

/// What is next is applied, as it was at the beginning.
proof fn lemma_next_is_applied(
    run: ReconciliationModel,
    cluster: Cluster,
    password: Seq<char>,
    original: Cluster,
    target: Target,
)
    requires
        is_ready(run.resource, run.has_openshift, original),
        is_on_course(run, cluster, original),
        run.taken < run.steps().len(),
        run.steps()[run.taken as int] == Step::Apply(target),
    ensures
        run.step() == Some(Step::Apply(target)),
        run.applied(found(cluster, target, run.resource), password) is Ok,
        ({
            let after = run.applied(found(cluster, target, run.resource), password)->Ok_0.1;
            &&& after.failure is None
            &&& run.has_openshift && has_host(found(original, Target::Route, run.resource)) ==> after.progress.url is Some
        }),
{
    let object = found(cluster, target, run.resource);
    assert(run.steps().contains(run.steps()[run.taken as int]));
    assert(object == found(original, target, run.resource));
    if target is Keycloak || target is KeycloakClient {
        lemma_url_is_known(run, cluster, original);
    }
    kept::lemma_applied_succeeds(target, object, run.resource, run.has_openshift, run.progress, password);
    assert(run.applied(object, password) is Ok);
    course::lemma_learned(target, object, run.resource, run.has_openshift, run.progress, password);
    lemma_route_first(run.resource, run.has_openshift, run.taken as int);
    if target is Route && has_host(object) {
        lemma_route_gives_url(run, object, password);
    }
}

/// A reconciliation that is on course stays on course.
proof fn lemma_stays_on_course(
    run: ReconciliationModel,
    cluster: Cluster,
    password: Seq<char>,
    instances: Seq<KeycloakModel>,
    original: Cluster,
)
    requires
        is_ready(run.resource, run.has_openshift, original),
        is_on_course(run, cluster, original),
        run.taken < run.steps().len(),
    ensures
        run.step() is Some,
        ({
            let next = stepped(run, cluster, password, instances);
            &&& next.0.taken == run.taken + 1
            &&& next.0.resource == run.resource
            &&& next.0.has_openshift == run.has_openshift
            &&& is_on_course(next.0, next.1, original)
        }),
{
    let step = run.steps()[run.taken as int];
    let next = stepped(run, cluster, password, instances);
    lemma_route_first(run.resource, run.has_openshift, run.taken as int);
    match step {
        Step::Apply(target) => {
            lemma_next_is_applied(run, cluster, password, original, target);
            lemma_apply_keeps_step(run, found(cluster, target, run.resource), password);
        },
        _ => {},
    }
    assert(run.step() == Some(step));
    lemma_stepped(run, cluster, password, instances);
    assert(next.0.taken == run.taken + 1);
    assert forall|j: int, target: Target|
        next.0.taken <= j < next.0.steps().len() && #[trigger] next.0.steps()[j] == Step::Apply(
            target,
        ) implies #[trigger] found(next.1, target, run.resource) == found(original, target, run.resource) by {
        assert(run.steps()[j] == Step::Apply(target));
        assert(found(cluster, target, run.resource) == found(original, target, run.resource));
        match step {
            Step::Apply(other) => {
                lemma_places_differ(run.resource, run.has_openshift, run.taken as int, j, other, target);
            },
            Step::Delete(other) => {
                lemma_places_differ(run.resource, run.has_openshift, run.taken as int, j, other, target);
            },
            _ => {},
        }
    }
}

proof fn lemma_rest_succeeds(
    run: ReconciliationModel,
    cluster: Cluster,
    passwords: spec_fn(nat) -> Seq<char>,
    instances: Seq<KeycloakModel>,
    original: Cluster,
)
    requires
        is_ready(run.resource, run.has_openshift, original),
        is_on_course(run, cluster, original),
    ensures
        finished(run, cluster, passwords, instances).0.action() is Done,
    decreases run.steps().len() - run.taken,
{
    if run.taken < run.steps().len() {
        let next = stepped(run, cluster, passwords(run.taken), instances);
        lemma_stays_on_course(run, cluster, passwords(run.taken), instances, original);
        lemma_rest_succeeds(next.0, next.1, passwords, instances, original);
    }
}

/// With routes, the route is the first step; without, there is none.
proof fn lemma_route_first(resource: HawkbitModel, has_openshift: bool, i: int)
    requires
        0 <= i < reconcile::plan(resource, has_openshift).len(),
    ensures
        reconcile::plan(resource, has_openshift)[i] == Step::Apply(Target::Route) <==> has_openshift && i == 0,
{
    let steps = reconcile::plan(resource, has_openshift);
    course::lemma_no_step_twice(resource, has_openshift);
    course::lemma_plan_holds(resource, has_openshift, Target::Route);
    assert(steps.contains(steps[i]));
    if has_openshift {
        assert(steps[0] == Step::Apply(Target::Route));
    }
}

/// An instance that has all that it takes is reconciled.
pub proof fn lemma_ready_is_done(
    resource: HawkbitModel,
    has_openshift: bool,
    cluster: Cluster,
    passwords: spec_fn(nat) -> Seq<char>,
    instances: Seq<KeycloakModel>,
)
    requires
        is_ready(resource, has_openshift, cluster),
    ensures
        finished(
            ReconciliationModel::start(resource, has_openshift),
            cluster,
            passwords,
            instances,
        ).0.action() is Done,
{
    lemma_rest_succeeds(
        ReconciliationModel::start(resource, has_openshift),
        cluster,
        passwords,
        instances,
        cluster,
    );
}

/// In an empty namespace, an instance with a name and UID in that namespace and exactly one database and
/// broker is reconciled, however it signs on. Only where there are routes does signing on with Keycloak
/// take a URL, as a new route has no host yet.
pub proof fn lemma_first_time(
    resource: HawkbitModel,
    has_openshift: bool,
    passwords: spec_fn(nat) -> Seq<char>,
    instances: Seq<KeycloakModel>,
)
    requires
        resource.metadata.name is Some,
        resource.metadata.uid is Some,
        resource.metadata.namespace is Some,
        resource.spec.database.variant() is Some,
        server::broker_env(resource) is Some,
        has_openshift ==> (resource.spec.sign_on matches Some(SignOnModel::Keycloak { config })
            ==> config.hawkbit_url is Some),
    ensures
        finished(
            ReconciliationModel::start(resource, has_openshift),
            Map::empty(),
            passwords,
            instances,
        ).0.action() is Done,
{
    let cluster: Cluster = Map::empty();
    assert forall|target: Target|
        (#[trigger] found(cluster, target, resource)).kind() == target.kind_of() && ownership::owned(
            found(cluster, target, resource).metadata(),
            resource,
        ) is Ok by {
        let meta = fresh(target, resource).metadata();
        assert(meta.namespace == resource.metadata.namespace && meta.owner_references is None);
    }
    lemma_ready_is_done(resource, has_openshift, cluster, passwords, instances);
}

/// Where there are no routes, asking for Keycloak is enough: with or without a URL, an instance in an empty
/// namespace gets a Keycloak instance, realm, client and administrator.
pub proof fn lemma_keycloak_is_created(
    resource: HawkbitModel,
    passwords: spec_fn(nat) -> Seq<char>,
    instances: Seq<KeycloakModel>,
)
    requires
        resource.metadata.name is Some,
        resource.metadata.uid is Some,
        resource.metadata.namespace is Some,
        resource.spec.database.variant() is Some,
        server::broker_env(resource) is Some,
        resource.spec.sign_on is Some,
    ensures
        ({
            let (end, after) = finished(
                ReconciliationModel::start(resource, false),
                Map::empty(),
                passwords,
                instances,
            );
            &&& end.action() is Done
            &&& after.contains_key(place(Target::Keycloak, resource))
            &&& after.contains_key(place(Target::KeycloakRealm, resource))
            &&& after.contains_key(place(Target::KeycloakClient, resource))
            &&& after.contains_key(place(Target::KeycloakUser, resource))
        }),
{
    let none: Cluster = Map::empty();
    lemma_first_time(resource, false, passwords, instances);
    course::lemma_plan_holds(resource, false, Target::Keycloak);
    course::lemma_plan_holds(resource, false, Target::KeycloakRealm);
    course::lemma_plan_holds(resource, false, Target::KeycloakClient);
    course::lemma_plan_holds(resource, false, Target::KeycloakUser);
    lemma_done_is_done(resource, false, none, passwords, instances, Target::Keycloak);
    lemma_done_is_done(resource, false, none, passwords, instances, Target::KeycloakRealm);
    lemma_done_is_done(resource, false, none, passwords, instances, Target::KeycloakClient);
    lemma_done_is_done(resource, false, none, passwords, instances, Target::KeycloakUser);
}

} // verus!
