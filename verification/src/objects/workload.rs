//! Workloads: deployments and stateful sets.

use vstd::prelude::*;

use crate::objects::meta::{LabelSelector, LabelSelectorModel, ObjectMeta, ObjectMetaModel};
use crate::objects::pod::{PodTemplateSpec, PodTemplateSpecModel};
use crate::objects::storage::{PersistentVolumeClaim, PersistentVolumeClaimModel};

verus! {

/// How a workload replaces its pods. One is always written as a whole.
#[derive(Debug, PartialEq)]
pub struct UpdateStrategy {
    pub type_: Option<String>,
}

/// What a [`UpdateStrategy`] says, as contracts see it.
#[verifier::ext_equal]
pub struct UpdateStrategyModel {
    pub type_: Option<Seq<char>>,
}

impl DeepView for UpdateStrategy {
    type V = UpdateStrategyModel;

    open spec fn deep_view(&self) -> UpdateStrategyModel {
        UpdateStrategyModel {
            type_: self.type_.deep_view(),
        }
    }
}

/// What a deployment keeps running.
#[derive(Debug, PartialEq)]
pub struct DeploymentSpec {
    pub replicas: Option<i32>,
    pub strategy: Option<UpdateStrategy>,
    pub selector: LabelSelector,
    pub template: PodTemplateSpec,
    /// The whole of it as it was read, in JSON; nothing for one made here.
    pub rest: Option<serde_json::Value>,
}

/// What a [`DeploymentSpec`] says, as contracts see it.
#[verifier::ext_equal]
pub struct DeploymentSpecModel {
    pub replicas: Option<i32>,
    pub strategy: Option<UpdateStrategyModel>,
    pub selector: LabelSelectorModel,
    pub template: PodTemplateSpecModel,
    pub rest: Option<serde_json::Value>,
}

impl DeepView for DeploymentSpec {
    type V = DeploymentSpecModel;

    open spec fn deep_view(&self) -> DeploymentSpecModel {
        DeploymentSpecModel {
            replicas: self.replicas,
            strategy: self.strategy.deep_view(),
            selector: self.selector.deep_view(),
            template: self.template.deep_view(),
            rest: self.rest,
        }
    }
}

impl DeploymentSpecModel {
    /// The value that nothing has been written to.
    pub open spec fn blank() -> Self {
        DeploymentSpecModel {
            replicas: None,
            strategy: None,
            selector: LabelSelectorModel::blank(),
            template: PodTemplateSpecModel::blank(),
            rest: None,
        }
    }
}

impl Default for DeploymentSpec {
    fn default() -> (r: Self)
        ensures
            r.deep_view() == DeploymentSpecModel::blank(),
    {
        DeploymentSpec {
            replicas: None,
            strategy: None,
            selector: LabelSelector::default(),
            template: PodTemplateSpec::default(),
            rest: None,
        }
    }
}

/// A deployment.
#[derive(Debug, PartialEq)]
pub struct Deployment {
    pub metadata: ObjectMeta,
    pub spec: Option<DeploymentSpec>,
    /// The whole of it as it was read, in JSON; nothing for one made here.
    pub rest: Option<serde_json::Value>,
}

/// What a [`Deployment`] says, as contracts see it.
#[verifier::ext_equal]
pub struct DeploymentModel {
    pub metadata: ObjectMetaModel,
    pub spec: Option<DeploymentSpecModel>,
    pub rest: Option<serde_json::Value>,
}

impl DeepView for Deployment {
    type V = DeploymentModel;

    open spec fn deep_view(&self) -> DeploymentModel {
        DeploymentModel {
            metadata: self.metadata.deep_view(),
            spec: self.spec.deep_view(),
            rest: self.rest,
        }
    }
}

impl DeploymentModel {
    /// The value that nothing has been written to.
    pub open spec fn blank() -> Self {
        DeploymentModel {
            metadata: ObjectMetaModel::blank(),
            spec: None,
            rest: None,
        }
    }
}

impl Default for Deployment {
    fn default() -> (r: Self)
        ensures
            r.deep_view() == DeploymentModel::blank(),
    {
        Deployment {
            metadata: ObjectMeta::default(),
            spec: None,
            rest: None,
        }
    }
}

/// What a stateful set keeps running.
#[derive(Debug, PartialEq)]
pub struct StatefulSetSpec {
    pub service_name: String,
    pub selector: LabelSelector,
    pub template: PodTemplateSpec,
    pub pod_management_policy: Option<String>,
    pub update_strategy: Option<UpdateStrategy>,
    /// The claims made for each pod; always written as a whole.
    pub volume_claim_templates: Option<Vec<PersistentVolumeClaim>>,
    /// The whole of it as it was read, in JSON; nothing for one made here.
    pub rest: Option<serde_json::Value>,
}

/// What a [`StatefulSetSpec`] says, as contracts see it.
#[verifier::ext_equal]
pub struct StatefulSetSpecModel {
    pub service_name: Seq<char>,
    pub selector: LabelSelectorModel,
    pub template: PodTemplateSpecModel,
    pub pod_management_policy: Option<Seq<char>>,
    pub update_strategy: Option<UpdateStrategyModel>,
    pub volume_claim_templates: Option<Seq<PersistentVolumeClaimModel>>,
    pub rest: Option<serde_json::Value>,
}

impl DeepView for StatefulSetSpec {
    type V = StatefulSetSpecModel;

    open spec fn deep_view(&self) -> StatefulSetSpecModel {
        StatefulSetSpecModel {
            service_name: self.service_name.deep_view(),
            selector: self.selector.deep_view(),
            template: self.template.deep_view(),
            pod_management_policy: self.pod_management_policy.deep_view(),
            update_strategy: self.update_strategy.deep_view(),
            volume_claim_templates: self.volume_claim_templates.deep_view(),
            rest: self.rest,
        }
    }
}

impl StatefulSetSpecModel {
    /// The value that nothing has been written to.
    pub open spec fn blank() -> Self {
        StatefulSetSpecModel {
            service_name: Seq::empty(),
            selector: LabelSelectorModel::blank(),
            template: PodTemplateSpecModel::blank(),
            pod_management_policy: None,
            update_strategy: None,
            volume_claim_templates: None,
            rest: None,
        }
    }
}

impl Default for StatefulSetSpec {
    fn default() -> (r: Self)
        ensures
            r.deep_view() == StatefulSetSpecModel::blank(),
    {
        StatefulSetSpec {
            service_name: String::new(),
            selector: LabelSelector::default(),
            template: PodTemplateSpec::default(),
            pod_management_policy: None,
            update_strategy: None,
            volume_claim_templates: None,
            rest: None,
        }
    }
}

/// A stateful set.
#[derive(Debug, PartialEq)]
pub struct StatefulSet {
    pub metadata: ObjectMeta,
    pub spec: Option<StatefulSetSpec>,
    /// The whole of it as it was read, in JSON; nothing for one made here.
    pub rest: Option<serde_json::Value>,
}

/// What a [`StatefulSet`] says, as contracts see it.
#[verifier::ext_equal]
pub struct StatefulSetModel {
    pub metadata: ObjectMetaModel,
    pub spec: Option<StatefulSetSpecModel>,
    pub rest: Option<serde_json::Value>,
}

impl DeepView for StatefulSet {
    type V = StatefulSetModel;

    open spec fn deep_view(&self) -> StatefulSetModel {
        StatefulSetModel {
            metadata: self.metadata.deep_view(),
            spec: self.spec.deep_view(),
            rest: self.rest,
        }
    }
}

impl StatefulSetModel {
    /// The value that nothing has been written to.
    pub open spec fn blank() -> Self {
        StatefulSetModel {
            metadata: ObjectMetaModel::blank(),
            spec: None,
            rest: None,
        }
    }
}

impl Default for StatefulSet {
    fn default() -> (r: Self)
        ensures
            r.deep_view() == StatefulSetModel::blank(),
    {
        StatefulSet {
            metadata: ObjectMeta::default(),
            spec: None,
            rest: None,
        }
    }
}
} // verus!
