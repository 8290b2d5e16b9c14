//! Object metadata.

use vstd::prelude::*;

use crate::text_map::TextMap;

verus! {

/// A reference from an object to one that owns it.
#[derive(Debug, PartialEq)]
pub struct OwnerReference {
    pub api_version: String,
    pub kind: String,
    pub name: String,
    pub uid: String,
    pub controller: Option<bool>,
    pub block_owner_deletion: Option<bool>,
}

/// What an [`OwnerReference`] says, as contracts see it.
#[verifier::ext_equal]
pub struct OwnerReferenceModel {
    pub api_version: Seq<char>,
    pub kind: Seq<char>,
    pub name: Seq<char>,
    pub uid: Seq<char>,
    pub controller: Option<bool>,
    pub block_owner_deletion: Option<bool>,
}

impl DeepView for OwnerReference {
    type V = OwnerReferenceModel;

    open spec fn deep_view(&self) -> OwnerReferenceModel {
        OwnerReferenceModel {
            api_version: self.api_version.deep_view(),
            kind: self.kind.deep_view(),
            name: self.name.deep_view(),
            uid: self.uid.deep_view(),
            controller: self.controller,
            block_owner_deletion: self.block_owner_deletion,
        }
    }
}

/// The metadata of an object.
#[derive(Debug, PartialEq)]
pub struct ObjectMeta {
    pub name: Option<String>,
    pub namespace: Option<String>,
    pub uid: Option<String>,
    pub labels: Option<TextMap<String>>,
    pub annotations: Option<TextMap<String>>,
    pub owner_references: Option<Vec<OwnerReference>>,
    /// The whole of it as it was read, in JSON; nothing for one made here.
    pub rest: Option<serde_json::Value>,
}

/// What an [`ObjectMeta`] says, as contracts see it.
#[verifier::ext_equal]
pub struct ObjectMetaModel {
    pub name: Option<Seq<char>>,
    pub namespace: Option<Seq<char>>,
    pub uid: Option<Seq<char>>,
    pub labels: Option<Map<Seq<char>, Seq<char>>>,
    pub annotations: Option<Map<Seq<char>, Seq<char>>>,
    pub owner_references: Option<Seq<OwnerReferenceModel>>,
    pub rest: Option<serde_json::Value>,
}

impl DeepView for ObjectMeta {
    type V = ObjectMetaModel;

    open spec fn deep_view(&self) -> ObjectMetaModel {
        ObjectMetaModel {
            name: self.name.deep_view(),
            namespace: self.namespace.deep_view(),
            uid: self.uid.deep_view(),
            labels: self.labels.deep_view(),
            annotations: self.annotations.deep_view(),
            owner_references: self.owner_references.deep_view(),
            rest: self.rest,
        }
    }
}

impl ObjectMetaModel {
    /// The value that nothing has been written to.
    pub open spec fn blank() -> Self {
        ObjectMetaModel {
            name: None,
            namespace: None,
            uid: None,
            labels: None,
            annotations: None,
            owner_references: None,
            rest: None,
        }
    }
}

impl Default for ObjectMeta {
    fn default() -> (r: Self)
        ensures
            r.deep_view() == ObjectMetaModel::blank(),
    {
        ObjectMeta {
            name: None,
            namespace: None,
            uid: None,
            labels: None,
            annotations: None,
            owner_references: None,
            rest: None,
        }
    }
}

/// A selector of objects by their labels. One is always written as a whole.
#[derive(Debug, PartialEq)]
pub struct LabelSelector {
    pub match_labels: Option<TextMap<String>>,
}

/// What a [`LabelSelector`] says, as contracts see it.
#[verifier::ext_equal]
pub struct LabelSelectorModel {
    pub match_labels: Option<Map<Seq<char>, Seq<char>>>,
}

impl DeepView for LabelSelector {
    type V = LabelSelectorModel;

    open spec fn deep_view(&self) -> LabelSelectorModel {
        LabelSelectorModel {
            match_labels: self.match_labels.deep_view(),
        }
    }
}

impl LabelSelectorModel {
    /// The value that nothing has been written to.
    pub open spec fn blank() -> Self {
        LabelSelectorModel {
            match_labels: None,
        }
    }
}

impl Default for LabelSelector {
    fn default() -> (r: Self)
        ensures
            r.deep_view() == LabelSelectorModel::blank(),
    {
        LabelSelector {
            match_labels: None,
        }
    }
}
} // verus!
