//! What the operator keeps for an instance.

use vstd::prelude::*;

use crate::crd::{Hawkbit, HawkbitModel};
use crate::text;
use crate::text_map::TextMap;

pub mod keycloak;
pub mod rabbit;
pub mod reconcile;
pub mod resources;
pub mod server;
pub mod target;

verus! {

/// Where the images of hawkBit are found.
pub const HAWKBIT_REGISTRY: &'static str = "docker.io/hawkbit";

/// The version of hawkBit that is installed.
pub const HAWKBIT_VERSION: &'static str = "0.3.0M6";

/// The label for the name of an application.
pub const KUBERNETES_LABEL_NAME: &'static str = "app.kubernetes.io/name";

/// The label for the instance of an application.
pub const KUBERNETES_LABEL_INSTANCE: &'static str = "app.kubernetes.io/instance";

/// The label for the part that an application plays.
pub const KUBERNETES_LABEL_COMPONENT: &'static str = "app.kubernetes.io/component";

/// The annotation for what an application connects to.
pub const OPENSHIFT_ANNOTATION_CONNECT: &'static str = "app.openshift.io/connects-to";

/// The operator's rules, for one namespace.
#[derive(Debug, Clone, PartialEq)]
pub struct HawkbitController {
    /// The namespace that is looked after.
    pub namespace: String,
    /// Whether the cluster knows OpenShift's routes.
    pub has_openshift: bool,
}

/// The image of that name, in the version that is installed.
pub open spec fn image(base: Seq<char>) -> Seq<char> {
    HAWKBIT_REGISTRY@ + "/"@ + base + ":"@ + HAWKBIT_VERSION@
}

/// The labels of what an instance consists of.
pub open spec fn labels(
    resource: HawkbitModel,
    name: Seq<char>,
    component: Seq<char>,
) -> Map<Seq<char>, Seq<char>> {
    Map::empty().insert(KUBERNETES_LABEL_NAME@, name).insert(
        KUBERNETES_LABEL_INSTANCE@,
        name + "-"@ + resource.name(),
    ).insert(KUBERNETES_LABEL_COMPONENT@, component)
}

/// The three labels are different ones: none of them overwrites another.
pub proof fn lemma_labels(resource: HawkbitModel, name: Seq<char>, component: Seq<char>)
    ensures
        labels(resource, name, component).dom() == set![
            KUBERNETES_LABEL_NAME@,
            KUBERNETES_LABEL_INSTANCE@,
            KUBERNETES_LABEL_COMPONENT@,
        ],
        labels(resource, name, component)[KUBERNETES_LABEL_NAME@] == name,
        labels(resource, name, component)[KUBERNETES_LABEL_INSTANCE@] == name + "-"@ + resource.name(),
        labels(resource, name, component)[KUBERNETES_LABEL_COMPONENT@] == component,
{
    reveal_strlit("app.kubernetes.io/name");
    reveal_strlit("app.kubernetes.io/instance");
    reveal_strlit("app.kubernetes.io/component");
    assert(KUBERNETES_LABEL_NAME@.len() == 22);
    assert(KUBERNETES_LABEL_INSTANCE@.len() == 26);
    assert(KUBERNETES_LABEL_COMPONENT@.len() == 27);
}

impl HawkbitController {
    /// The rules for a namespace.
    pub fn new(namespace: &str, has_openshift: bool) -> (r: Self)
        ensures
            r.namespace@ == namespace@,
            r.has_openshift == has_openshift,
    {
        HawkbitController { namespace: namespace.to_string(), has_openshift }
    }

    /// The image of that name, in the version that is installed.
    pub fn image_name(&self, base: &str) -> (r: String)
        ensures
            r@ == image(base@),
    {
        let mut r = text::chain3(HAWKBIT_REGISTRY, "/", base);
        r.append(":");
        r.append(HAWKBIT_VERSION);
        r
    }

    /// The labels of what an instance consists of.
    pub fn selector(&self, resource: &Hawkbit, name: &str, component: &str) -> (r: TextMap<String>)
        requires
            resource.deep_view().is_named(),
        ensures
            r.deep_view() == labels(resource.deep_view(), name@, component@),
    {
        let prefix = resource.name();
        let mut r = TextMap::new();
        r.insert(KUBERNETES_LABEL_NAME.to_string(), name.to_string());
        r.insert(KUBERNETES_LABEL_INSTANCE.to_string(), text::chain3(name, "-", prefix.as_str()));
        r.insert(KUBERNETES_LABEL_COMPONENT.to_string(), component.to_string());
        r
    }
}

} // verus!
