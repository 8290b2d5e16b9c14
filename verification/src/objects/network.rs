//! Services and routes.

use vstd::prelude::*;

use crate::objects::meta::{ObjectMeta, ObjectMetaModel};
use crate::text_map::TextMap;

verus! {

/// A port of a service. One is always written as a whole.
#[derive(Debug, PartialEq)]
pub struct ServicePort {
    pub name: Option<String>,
    pub port: i32,
    pub protocol: Option<String>,
    /// The name of the port of the pods.
    pub target_port: Option<String>,
}

/// What a [`ServicePort`] says, as contracts see it.
#[verifier::ext_equal]
pub struct ServicePortModel {
    pub name: Option<Seq<char>>,
    pub port: i32,
    pub protocol: Option<Seq<char>>,
    pub target_port: Option<Seq<char>>,
}

impl DeepView for ServicePort {
    type V = ServicePortModel;

    open spec fn deep_view(&self) -> ServicePortModel {
        ServicePortModel {
            name: self.name.deep_view(),
            port: self.port,
            protocol: self.protocol.deep_view(),
            target_port: self.target_port.deep_view(),
        }
    }
}

/// What a service offers.
#[derive(Debug, PartialEq)]
pub struct ServiceSpec {
    pub type_: Option<String>,
    pub cluster_ip: Option<String>,
    pub selector: Option<TextMap<String>>,
    /// The ports; always written as a whole.
    pub ports: Option<Vec<ServicePort>>,
    /// The whole of it as it was read, in JSON; nothing for one made here.
    pub rest: Option<serde_json::Value>,
}

/// What a [`ServiceSpec`] says, as contracts see it.
#[verifier::ext_equal]
pub struct ServiceSpecModel {
    pub type_: Option<Seq<char>>,
    pub cluster_ip: Option<Seq<char>>,
    pub selector: Option<Map<Seq<char>, Seq<char>>>,
    pub ports: Option<Seq<ServicePortModel>>,
    pub rest: Option<serde_json::Value>,
}

impl DeepView for ServiceSpec {
    type V = ServiceSpecModel;

    open spec fn deep_view(&self) -> ServiceSpecModel {
        ServiceSpecModel {
            type_: self.type_.deep_view(),
            cluster_ip: self.cluster_ip.deep_view(),
            selector: self.selector.deep_view(),
            ports: self.ports.deep_view(),
            rest: self.rest,
        }
    }
}

impl ServiceSpecModel {
    /// The value that nothing has been written to.
    pub open spec fn blank() -> Self {
        ServiceSpecModel {
            type_: None,
            cluster_ip: None,
            selector: None,
            ports: None,
            rest: None,
        }
    }
}

impl Default for ServiceSpec {
    fn default() -> (r: Self)
        ensures
            r.deep_view() == ServiceSpecModel::blank(),
    {
        ServiceSpec {
            type_: None,
            cluster_ip: None,
            selector: None,
            ports: None,
            rest: None,
        }
    }
}

/// A service.
#[derive(Debug, PartialEq)]
pub struct Service {
    pub metadata: ObjectMeta,
    pub spec: Option<ServiceSpec>,
    /// The whole of it as it was read, in JSON; nothing for one made here.
    pub rest: Option<serde_json::Value>,
}

/// What a [`Service`] says, as contracts see it.
#[verifier::ext_equal]
pub struct ServiceModel {
    pub metadata: ObjectMetaModel,
    pub spec: Option<ServiceSpecModel>,
    pub rest: Option<serde_json::Value>,
}

impl DeepView for Service {
    type V = ServiceModel;

    open spec fn deep_view(&self) -> ServiceModel {
        ServiceModel {
            metadata: self.metadata.deep_view(),
            spec: self.spec.deep_view(),
            rest: self.rest,
        }
    }
}

impl ServiceModel {
    /// The value that nothing has been written to.
    pub open spec fn blank() -> Self {
        ServiceModel {
            metadata: ObjectMetaModel::blank(),
            spec: None,
            rest: None,
        }
    }
}

impl Default for Service {
    fn default() -> (r: Self)
        ensures
            r.deep_view() == ServiceModel::blank(),
    {
        Service {
            metadata: ObjectMeta::default(),
            spec: None,
            rest: None,
        }
    }
}

/// What a route leads to.
#[derive(Debug, PartialEq)]
pub struct RouteTargetReference {
    pub kind: String,
    pub name: String,
    pub weight: i32,
}

/// What a [`RouteTargetReference`] says, as contracts see it.
#[verifier::ext_equal]
pub struct RouteTargetReferenceModel {
    pub kind: Seq<char>,
    pub name: Seq<char>,
    pub weight: i32,
}

impl DeepView for RouteTargetReference {
    type V = RouteTargetReferenceModel;

    open spec fn deep_view(&self) -> RouteTargetReferenceModel {
        RouteTargetReferenceModel {
            kind: self.kind.deep_view(),
            name: self.name.deep_view(),
            weight: self.weight,
        }
    }
}

impl RouteTargetReferenceModel {
    /// The value that nothing has been written to.
    pub open spec fn blank() -> Self {
        RouteTargetReferenceModel {
            kind: Seq::empty(),
            name: Seq::empty(),
            weight: 0,
        }
    }
}

impl Default for RouteTargetReference {
    fn default() -> (r: Self)
        ensures
            r.deep_view() == RouteTargetReferenceModel::blank(),
    {
        RouteTargetReference {
            kind: String::new(),
            name: String::new(),
            weight: 0,
        }
    }
}

/// The port that a route leads to. One is always written as a whole.
#[derive(Debug, PartialEq)]
pub struct RoutePort {
    /// The name of the port.
    pub target_port: String,
}

/// What a [`RoutePort`] says, as contracts see it.
#[verifier::ext_equal]
pub struct RoutePortModel {
    pub target_port: Seq<char>,
}

impl DeepView for RoutePort {
    type V = RoutePortModel;

    open spec fn deep_view(&self) -> RoutePortModel {
        RoutePortModel {
            target_port: self.target_port.deep_view(),
        }
    }
}

/// How a route is encrypted. One is always written as a whole.
#[derive(Debug, PartialEq)]
pub struct TLSConfig {
    pub insecure_edge_termination_policy: Option<String>,
    pub termination: String,
}

/// What a [`TLSConfig`] says, as contracts see it.
#[verifier::ext_equal]
pub struct TLSConfigModel {
    pub insecure_edge_termination_policy: Option<Seq<char>>,
    pub termination: Seq<char>,
}

impl DeepView for TLSConfig {
    type V = TLSConfigModel;

    open spec fn deep_view(&self) -> TLSConfigModel {
        TLSConfigModel {
            insecure_edge_termination_policy: self.insecure_edge_termination_policy.deep_view(),
            termination: self.termination.deep_view(),
        }
    }
}

/// What a route offers.
#[derive(Debug, PartialEq)]
pub struct RouteSpec {
    pub host: String,
    pub to: RouteTargetReference,
    pub port: Option<RoutePort>,
    pub tls: Option<TLSConfig>,
}

/// What a [`RouteSpec`] says, as contracts see it.
#[verifier::ext_equal]
pub struct RouteSpecModel {
    pub host: Seq<char>,
    pub to: RouteTargetReferenceModel,
    pub port: Option<RoutePortModel>,
    pub tls: Option<TLSConfigModel>,
}

impl DeepView for RouteSpec {
    type V = RouteSpecModel;

    open spec fn deep_view(&self) -> RouteSpecModel {
        RouteSpecModel {
            host: self.host.deep_view(),
            to: self.to.deep_view(),
            port: self.port.deep_view(),
            tls: self.tls.deep_view(),
        }
    }
}

impl RouteSpecModel {
    /// The value that nothing has been written to.
    pub open spec fn blank() -> Self {
        RouteSpecModel {
            host: Seq::empty(),
            to: RouteTargetReferenceModel::blank(),
            port: None,
            tls: None,
        }
    }
}

impl Default for RouteSpec {
    fn default() -> (r: Self)
        ensures
            r.deep_view() == RouteSpecModel::blank(),
    {
        RouteSpec {
            host: String::new(),
            to: RouteTargetReference::default(),
            port: None,
            tls: None,
        }
    }
}

/// A route.
#[derive(Debug, PartialEq)]
pub struct Route {
    pub metadata: ObjectMeta,
    pub spec: RouteSpec,
    /// The whole of it as it was read, in JSON; nothing for one made here.
    pub rest: Option<serde_json::Value>,
}

/// What a [`Route`] says, as contracts see it.
#[verifier::ext_equal]
pub struct RouteModel {
    pub metadata: ObjectMetaModel,
    pub spec: RouteSpecModel,
    pub rest: Option<serde_json::Value>,
}

impl DeepView for Route {
    type V = RouteModel;

    open spec fn deep_view(&self) -> RouteModel {
        RouteModel {
            metadata: self.metadata.deep_view(),
            spec: self.spec.deep_view(),
            rest: self.rest,
        }
    }
}

impl RouteModel {
    /// The value that nothing has been written to.
    pub open spec fn blank() -> Self {
        RouteModel {
            metadata: ObjectMetaModel::blank(),
            spec: RouteSpecModel::blank(),
            rest: None,
        }
    }
}

impl Default for Route {
    fn default() -> (r: Self)
        ensures
            r.deep_view() == RouteModel::blank(),
    {
        Route {
            metadata: ObjectMeta::default(),
            spec: RouteSpec::default(),
            rest: None,
        }
    }
}
} // verus!
