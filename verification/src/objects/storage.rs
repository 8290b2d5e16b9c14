//! Claims of persistent storage.

use vstd::prelude::*;

use crate::objects::meta::{ObjectMeta, ObjectMetaModel};
use crate::text_map::TextMap;

verus! {

/// Requested and limiting quantities, by the kind of resource.
#[derive(Debug, PartialEq)]
pub struct ResourceRequirements {
    pub limits: Option<TextMap<String>>,
    pub requests: Option<TextMap<String>>,
}

/// What a [`ResourceRequirements`] says, as contracts see it.
#[verifier::ext_equal]
pub struct ResourceRequirementsModel {
    pub limits: Option<Map<Seq<char>, Seq<char>>>,
    pub requests: Option<Map<Seq<char>, Seq<char>>>,
}

impl DeepView for ResourceRequirements {
    type V = ResourceRequirementsModel;

    open spec fn deep_view(&self) -> ResourceRequirementsModel {
        ResourceRequirementsModel {
            limits: self.limits.deep_view(),
            requests: self.requests.deep_view(),
        }
    }
}

impl ResourceRequirementsModel {
    /// The value that nothing has been written to.
    pub open spec fn blank() -> Self {
        ResourceRequirementsModel {
            limits: None,
            requests: None,
        }
    }
}

impl Default for ResourceRequirements {
    fn default() -> (r: Self)
        ensures
            r.deep_view() == ResourceRequirementsModel::blank(),
    {
        ResourceRequirements {
            limits: None,
            requests: None,
        }
    }
}

/// What a claim asks for.
#[derive(Debug, PartialEq)]
pub struct PersistentVolumeClaimSpec {
    pub access_modes: Option<Vec<String>>,
    pub resources: Option<ResourceRequirements>,
    /// The whole of it as it was read, in JSON; nothing for one made here.
    pub rest: Option<serde_json::Value>,
}

/// What a [`PersistentVolumeClaimSpec`] says, as contracts see it.
#[verifier::ext_equal]
pub struct PersistentVolumeClaimSpecModel {
    pub access_modes: Option<Seq<Seq<char>>>,
    pub resources: Option<ResourceRequirementsModel>,
    pub rest: Option<serde_json::Value>,
}

impl DeepView for PersistentVolumeClaimSpec {
    type V = PersistentVolumeClaimSpecModel;

    open spec fn deep_view(&self) -> PersistentVolumeClaimSpecModel {
        PersistentVolumeClaimSpecModel {
            access_modes: self.access_modes.deep_view(),
            resources: self.resources.deep_view(),
            rest: self.rest,
        }
    }
}

impl PersistentVolumeClaimSpecModel {
    /// The value that nothing has been written to.
    pub open spec fn blank() -> Self {
        PersistentVolumeClaimSpecModel {
            access_modes: None,
            resources: None,
            rest: None,
        }
    }
}

impl Default for PersistentVolumeClaimSpec {
    fn default() -> (r: Self)
        ensures
            r.deep_view() == PersistentVolumeClaimSpecModel::blank(),
    {
        PersistentVolumeClaimSpec {
            access_modes: None,
            resources: None,
            rest: None,
        }
    }
}

/// A claim of persistent storage.
#[derive(Debug, PartialEq)]
pub struct PersistentVolumeClaim {
    pub metadata: ObjectMeta,
    pub spec: Option<PersistentVolumeClaimSpec>,
    /// The whole of it as it was read, in JSON; nothing for one made here.
    pub rest: Option<serde_json::Value>,
}

/// What a [`PersistentVolumeClaim`] says, as contracts see it.
#[verifier::ext_equal]
pub struct PersistentVolumeClaimModel {
    pub metadata: ObjectMetaModel,
    pub spec: Option<PersistentVolumeClaimSpecModel>,
    pub rest: Option<serde_json::Value>,
}

impl DeepView for PersistentVolumeClaim {
    type V = PersistentVolumeClaimModel;

    open spec fn deep_view(&self) -> PersistentVolumeClaimModel {
        PersistentVolumeClaimModel {
            metadata: self.metadata.deep_view(),
            spec: self.spec.deep_view(),
            rest: self.rest,
        }
    }
}

impl PersistentVolumeClaimModel {
    /// The value that nothing has been written to.
    pub open spec fn blank() -> Self {
        PersistentVolumeClaimModel {
            metadata: ObjectMetaModel::blank(),
            spec: None,
            rest: None,
        }
    }
}

impl Default for PersistentVolumeClaim {
    fn default() -> (r: Self)
        ensures
            r.deep_view() == PersistentVolumeClaimModel::blank(),
    {
        PersistentVolumeClaim {
            metadata: ObjectMeta::default(),
            spec: None,
            rest: None,
        }
    }
}
} // verus!
