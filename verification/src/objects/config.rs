//! Configuration, secrets and access rules.

use vstd::prelude::*;

use crate::objects::meta::{ObjectMeta, ObjectMetaModel};
use crate::text_map::TextMap;

verus! {

/// A config map.
#[derive(Debug, PartialEq)]
pub struct ConfigMap {
    pub metadata: ObjectMeta,
    pub data: Option<TextMap<String>>,
    /// The whole of it as it was read, in JSON; nothing for one made here.
    pub rest: Option<serde_json::Value>,
}

/// What a [`ConfigMap`] says, as contracts see it.
#[verifier::ext_equal]
pub struct ConfigMapModel {
    pub metadata: ObjectMetaModel,
    pub data: Option<Map<Seq<char>, Seq<char>>>,
    pub rest: Option<serde_json::Value>,
}

impl DeepView for ConfigMap {
    type V = ConfigMapModel;

    open spec fn deep_view(&self) -> ConfigMapModel {
        ConfigMapModel {
            metadata: self.metadata.deep_view(),
            data: self.data.deep_view(),
            rest: self.rest,
        }
    }
}

impl ConfigMapModel {
    /// The value that nothing has been written to.
    pub open spec fn blank() -> Self {
        ConfigMapModel {
            metadata: ObjectMetaModel::blank(),
            data: None,
            rest: None,
        }
    }
}

impl Default for ConfigMap {
    fn default() -> (r: Self)
        ensures
            r.deep_view() == ConfigMapModel::blank(),
    {
        ConfigMap {
            metadata: ObjectMeta::default(),
            data: None,
            rest: None,
        }
    }
}

/// A secret.
#[derive(Debug, PartialEq)]
pub struct Secret {
    pub metadata: ObjectMeta,
    pub data: Option<TextMap<Vec<u8>>>,
    /// The whole of it as it was read, in JSON; nothing for one made here.
    pub rest: Option<serde_json::Value>,
}

/// What a [`Secret`] says, as contracts see it.
#[verifier::ext_equal]
pub struct SecretModel {
    pub metadata: ObjectMetaModel,
    pub data: Option<Map<Seq<char>, Seq<u8>>>,
    pub rest: Option<serde_json::Value>,
}

impl DeepView for Secret {
    type V = SecretModel;

    open spec fn deep_view(&self) -> SecretModel {
        SecretModel {
            metadata: self.metadata.deep_view(),
            data: self.data.deep_view(),
            rest: self.rest,
        }
    }
}

impl SecretModel {
    /// The value that nothing has been written to.
    pub open spec fn blank() -> Self {
        SecretModel {
            metadata: ObjectMetaModel::blank(),
            data: None,
            rest: None,
        }
    }
}

impl Default for Secret {
    fn default() -> (r: Self)
        ensures
            r.deep_view() == SecretModel::blank(),
    {
        Secret {
            metadata: ObjectMeta::default(),
            data: None,
            rest: None,
        }
    }
}

/// An account that pods run under.
#[derive(Debug, PartialEq)]
pub struct ServiceAccount {
    pub metadata: ObjectMeta,
    /// The whole of it as it was read, in JSON; nothing for one made here.
    pub rest: Option<serde_json::Value>,
}

/// What a [`ServiceAccount`] says, as contracts see it.
#[verifier::ext_equal]
pub struct ServiceAccountModel {
    pub metadata: ObjectMetaModel,
    pub rest: Option<serde_json::Value>,
}

impl DeepView for ServiceAccount {
    type V = ServiceAccountModel;

    open spec fn deep_view(&self) -> ServiceAccountModel {
        ServiceAccountModel {
            metadata: self.metadata.deep_view(),
            rest: self.rest,
        }
    }
}

impl ServiceAccountModel {
    /// The value that nothing has been written to.
    pub open spec fn blank() -> Self {
        ServiceAccountModel {
            metadata: ObjectMetaModel::blank(),
            rest: None,
        }
    }
}

impl Default for ServiceAccount {
    fn default() -> (r: Self)
        ensures
            r.deep_view() == ServiceAccountModel::blank(),
    {
        ServiceAccount {
            metadata: ObjectMeta::default(),
            rest: None,
        }
    }
}

/// A rule of a role. One is always written as a whole.
#[derive(Debug, PartialEq)]
pub struct PolicyRule {
    pub api_groups: Vec<String>,
    pub resources: Vec<String>,
    pub verbs: Vec<String>,
}

/// What a [`PolicyRule`] says, as contracts see it.
#[verifier::ext_equal]
pub struct PolicyRuleModel {
    pub api_groups: Seq<Seq<char>>,
    pub resources: Seq<Seq<char>>,
    pub verbs: Seq<Seq<char>>,
}

impl DeepView for PolicyRule {
    type V = PolicyRuleModel;

    open spec fn deep_view(&self) -> PolicyRuleModel {
        PolicyRuleModel {
            api_groups: self.api_groups.deep_view(),
            resources: self.resources.deep_view(),
            verbs: self.verbs.deep_view(),
        }
    }
}

/// A role.
#[derive(Debug, PartialEq)]
pub struct Role {
    pub metadata: ObjectMeta,
    /// What the role allows; always written as a whole.
    pub rules: Option<Vec<PolicyRule>>,
}

/// What a [`Role`] says, as contracts see it.
#[verifier::ext_equal]
pub struct RoleModel {
    pub metadata: ObjectMetaModel,
    pub rules: Option<Seq<PolicyRuleModel>>,
}

impl DeepView for Role {
    type V = RoleModel;

    open spec fn deep_view(&self) -> RoleModel {
        RoleModel {
            metadata: self.metadata.deep_view(),
            rules: self.rules.deep_view(),
        }
    }
}

impl RoleModel {
    /// The value that nothing has been written to.
    pub open spec fn blank() -> Self {
        RoleModel {
            metadata: ObjectMetaModel::blank(),
            rules: None,
        }
    }
}

impl Default for Role {
    fn default() -> (r: Self)
        ensures
            r.deep_view() == RoleModel::blank(),
    {
        Role {
            metadata: ObjectMeta::default(),
            rules: None,
        }
    }
}

/// Whom a role is granted to. One is always written as a whole.
#[derive(Debug, PartialEq)]
pub struct Subject {
    pub kind: String,
    pub name: String,
}

/// What a [`Subject`] says, as contracts see it.
#[verifier::ext_equal]
pub struct SubjectModel {
    pub kind: Seq<char>,
    pub name: Seq<char>,
}

impl DeepView for Subject {
    type V = SubjectModel;

    open spec fn deep_view(&self) -> SubjectModel {
        SubjectModel {
            kind: self.kind.deep_view(),
            name: self.name.deep_view(),
        }
    }
}

/// Which role is granted.
#[derive(Debug, PartialEq)]
pub struct RoleRef {
    pub api_group: String,
    pub kind: String,
    pub name: String,
}

/// What a [`RoleRef`] says, as contracts see it.
#[verifier::ext_equal]
pub struct RoleRefModel {
    pub api_group: Seq<char>,
    pub kind: Seq<char>,
    pub name: Seq<char>,
}

impl DeepView for RoleRef {
    type V = RoleRefModel;

    open spec fn deep_view(&self) -> RoleRefModel {
        RoleRefModel {
            api_group: self.api_group.deep_view(),
            kind: self.kind.deep_view(),
            name: self.name.deep_view(),
        }
    }
}

impl RoleRefModel {
    /// The value that nothing has been written to.
    pub open spec fn blank() -> Self {
        RoleRefModel {
            api_group: Seq::empty(),
            kind: Seq::empty(),
            name: Seq::empty(),
        }
    }
}

impl Default for RoleRef {
    fn default() -> (r: Self)
        ensures
            r.deep_view() == RoleRefModel::blank(),
    {
        RoleRef {
            api_group: String::new(),
            kind: String::new(),
            name: String::new(),
        }
    }
}

/// The grant of a role.
#[derive(Debug, PartialEq)]
pub struct RoleBinding {
    pub metadata: ObjectMeta,
    /// The grantees; always written as a whole.
    pub subjects: Option<Vec<Subject>>,
    pub role_ref: RoleRef,
}

/// What a [`RoleBinding`] says, as contracts see it.
#[verifier::ext_equal]
pub struct RoleBindingModel {
    pub metadata: ObjectMetaModel,
    pub subjects: Option<Seq<SubjectModel>>,
    pub role_ref: RoleRefModel,
}

impl DeepView for RoleBinding {
    type V = RoleBindingModel;

    open spec fn deep_view(&self) -> RoleBindingModel {
        RoleBindingModel {
            metadata: self.metadata.deep_view(),
            subjects: self.subjects.deep_view(),
            role_ref: self.role_ref.deep_view(),
        }
    }
}

impl RoleBindingModel {
    /// The value that nothing has been written to.
    pub open spec fn blank() -> Self {
        RoleBindingModel {
            metadata: ObjectMetaModel::blank(),
            subjects: None,
            role_ref: RoleRefModel::blank(),
        }
    }
}

impl Default for RoleBinding {
    fn default() -> (r: Self)
        ensures
            r.deep_view() == RoleBindingModel::blank(),
    {
        RoleBinding {
            metadata: ObjectMeta::default(),
            subjects: None,
            role_ref: RoleRef::default(),
        }
    }
}
} // verus!
