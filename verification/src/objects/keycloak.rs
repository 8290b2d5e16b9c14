//! Keycloak instances, and realms, clients and users within them.

use vstd::prelude::*;

use crate::objects::meta::{LabelSelector, LabelSelectorModel, ObjectMeta, ObjectMetaModel};
use crate::text_map::TextMap;

verus! {

/// How an instance is reached from outside.
#[derive(Debug, PartialEq)]
pub struct ExternalAccess {
    pub enabled: bool,
}

/// What an [`ExternalAccess`] says, as contracts see it.
#[verifier::ext_equal]
pub struct ExternalAccessModel {
    pub enabled: bool,
}

impl DeepView for ExternalAccess {
    type V = ExternalAccessModel;

    open spec fn deep_view(&self) -> ExternalAccessModel {
        ExternalAccessModel {
            enabled: self.enabled,
        }
    }
}

impl ExternalAccessModel {
    /// The value that nothing has been written to.
    pub open spec fn blank() -> Self {
        ExternalAccessModel {
            enabled: false,
        }
    }
}

impl Default for ExternalAccess {
    fn default() -> (r: Self)
        ensures
            r.deep_view() == ExternalAccessModel::blank(),
    {
        ExternalAccess {
            enabled: false,
        }
    }
}

/// What is asked of an instance.
#[derive(Debug, PartialEq)]
pub struct KeycloakSpec {
    pub instances: u32,
    pub external_access: ExternalAccess,
}

/// What a [`KeycloakSpec`] says, as contracts see it.
#[verifier::ext_equal]
pub struct KeycloakSpecModel {
    pub instances: u32,
    pub external_access: ExternalAccessModel,
}

impl DeepView for KeycloakSpec {
    type V = KeycloakSpecModel;

    open spec fn deep_view(&self) -> KeycloakSpecModel {
        KeycloakSpecModel {
            instances: self.instances,
            external_access: self.external_access.deep_view(),
        }
    }
}

impl KeycloakSpecModel {
    /// The value that nothing has been written to.
    pub open spec fn blank() -> Self {
        KeycloakSpecModel {
            instances: 0,
            external_access: ExternalAccessModel::blank(),
        }
    }
}

impl Default for KeycloakSpec {
    fn default() -> (r: Self)
        ensures
            r.deep_view() == KeycloakSpecModel::blank(),
    {
        KeycloakSpec {
            instances: 0,
            external_access: ExternalAccess::default(),
        }
    }
}

/// What an instance reports.
#[derive(Debug, PartialEq)]
pub struct KeycloakStatus {
    pub internal_url: String,
}

/// What a [`KeycloakStatus`] says, as contracts see it.
#[verifier::ext_equal]
pub struct KeycloakStatusModel {
    pub internal_url: Seq<char>,
}

impl DeepView for KeycloakStatus {
    type V = KeycloakStatusModel;

    open spec fn deep_view(&self) -> KeycloakStatusModel {
        KeycloakStatusModel {
            internal_url: self.internal_url.deep_view(),
        }
    }
}

impl KeycloakStatusModel {
    /// The value that nothing has been written to.
    pub open spec fn blank() -> Self {
        KeycloakStatusModel {
            internal_url: Seq::empty(),
        }
    }
}

impl Default for KeycloakStatus {
    fn default() -> (r: Self)
        ensures
            r.deep_view() == KeycloakStatusModel::blank(),
    {
        KeycloakStatus {
            internal_url: String::new(),
        }
    }
}

/// A Keycloak instance.
#[derive(Debug, PartialEq)]
pub struct Keycloak {
    pub metadata: ObjectMeta,
    pub spec: KeycloakSpec,
    pub status: Option<KeycloakStatus>,
    /// The whole of it as it was read, in JSON; nothing for one made here.
    pub rest: Option<serde_json::Value>,
}

/// What a [`Keycloak`] says, as contracts see it.
#[verifier::ext_equal]
pub struct KeycloakModel {
    pub metadata: ObjectMetaModel,
    pub spec: KeycloakSpecModel,
    pub status: Option<KeycloakStatusModel>,
    pub rest: Option<serde_json::Value>,
}

impl DeepView for Keycloak {
    type V = KeycloakModel;

    open spec fn deep_view(&self) -> KeycloakModel {
        KeycloakModel {
            metadata: self.metadata.deep_view(),
            spec: self.spec.deep_view(),
            status: self.status.deep_view(),
            rest: self.rest,
        }
    }
}

impl KeycloakModel {
    /// The value that nothing has been written to.
    pub open spec fn blank() -> Self {
        KeycloakModel {
            metadata: ObjectMetaModel::blank(),
            spec: KeycloakSpecModel::blank(),
            status: None,
            rest: None,
        }
    }
}

impl Default for Keycloak {
    fn default() -> (r: Self)
        ensures
            r.deep_view() == KeycloakModel::blank(),
    {
        Keycloak {
            metadata: ObjectMeta::default(),
            spec: KeycloakSpec::default(),
            status: None,
            rest: None,
        }
    }
}

/// A realm.
#[derive(Debug, PartialEq)]
pub struct Realm {
    pub display_name: String,
    pub enabled: bool,
    pub realm: String,
}

/// What a [`Realm`] says, as contracts see it.
#[verifier::ext_equal]
pub struct RealmModel {
    pub display_name: Seq<char>,
    pub enabled: bool,
    pub realm: Seq<char>,
}

impl DeepView for Realm {
    type V = RealmModel;

    open spec fn deep_view(&self) -> RealmModel {
        RealmModel {
            display_name: self.display_name.deep_view(),
            enabled: self.enabled,
            realm: self.realm.deep_view(),
        }
    }
}

impl RealmModel {
    /// The value that nothing has been written to.
    pub open spec fn blank() -> Self {
        RealmModel {
            display_name: Seq::empty(),
            enabled: false,
            realm: Seq::empty(),
        }
    }
}

impl Default for Realm {
    fn default() -> (r: Self)
        ensures
            r.deep_view() == RealmModel::blank(),
    {
        Realm {
            display_name: String::new(),
            enabled: false,
            realm: String::new(),
        }
    }
}

/// What is asked of a realm.
#[derive(Debug, PartialEq)]
pub struct KeycloakRealmSpec {
    pub instance_selector: LabelSelector,
    pub realm: Realm,
}

/// What a [`KeycloakRealmSpec`] says, as contracts see it.
#[verifier::ext_equal]
pub struct KeycloakRealmSpecModel {
    pub instance_selector: LabelSelectorModel,
    pub realm: RealmModel,
}

impl DeepView for KeycloakRealmSpec {
    type V = KeycloakRealmSpecModel;

    open spec fn deep_view(&self) -> KeycloakRealmSpecModel {
        KeycloakRealmSpecModel {
            instance_selector: self.instance_selector.deep_view(),
            realm: self.realm.deep_view(),
        }
    }
}

impl KeycloakRealmSpecModel {
    /// The value that nothing has been written to.
    pub open spec fn blank() -> Self {
        KeycloakRealmSpecModel {
            instance_selector: LabelSelectorModel::blank(),
            realm: RealmModel::blank(),
        }
    }
}

impl Default for KeycloakRealmSpec {
    fn default() -> (r: Self)
        ensures
            r.deep_view() == KeycloakRealmSpecModel::blank(),
    {
        KeycloakRealmSpec {
            instance_selector: LabelSelector::default(),
            realm: Realm::default(),
        }
    }
}

/// A realm of a Keycloak instance.
#[derive(Debug, PartialEq)]
pub struct KeycloakRealm {
    pub metadata: ObjectMeta,
    pub spec: KeycloakRealmSpec,
    /// The whole of it as it was read, in JSON; nothing for one made here.
    pub rest: Option<serde_json::Value>,
}

/// What a [`KeycloakRealm`] says, as contracts see it.
#[verifier::ext_equal]
pub struct KeycloakRealmModel {
    pub metadata: ObjectMetaModel,
    pub spec: KeycloakRealmSpecModel,
    pub rest: Option<serde_json::Value>,
}

impl DeepView for KeycloakRealm {
    type V = KeycloakRealmModel;

    open spec fn deep_view(&self) -> KeycloakRealmModel {
        KeycloakRealmModel {
            metadata: self.metadata.deep_view(),
            spec: self.spec.deep_view(),
            rest: self.rest,
        }
    }
}

impl KeycloakRealmModel {
    /// The value that nothing has been written to.
    pub open spec fn blank() -> Self {
        KeycloakRealmModel {
            metadata: ObjectMetaModel::blank(),
            spec: KeycloakRealmSpecModel::blank(),
            rest: None,
        }
    }
}

impl Default for KeycloakRealm {
    fn default() -> (r: Self)
        ensures
            r.deep_view() == KeycloakRealmModel::blank(),
    {
        KeycloakRealm {
            metadata: ObjectMeta::default(),
            spec: KeycloakRealmSpec::default(),
            rest: None,
        }
    }
}

/// A client.
#[derive(Debug, PartialEq)]
pub struct Client {
    pub client_id: String,
    pub enabled: bool,
    pub root_url: String,
    pub base_url: String,
    pub redirect_uris: Vec<String>,
    pub client_authenticator_type: String,
    pub implicit_flow_enabled: bool,
    pub public_client: bool,
    pub standard_flow_enabled: bool,
    pub default_roles: Vec<String>,
}

/// What a [`Client`] says, as contracts see it.
#[verifier::ext_equal]
pub struct ClientModel {
    pub client_id: Seq<char>,
    pub enabled: bool,
    pub root_url: Seq<char>,
    pub base_url: Seq<char>,
    pub redirect_uris: Seq<Seq<char>>,
    pub client_authenticator_type: Seq<char>,
    pub implicit_flow_enabled: bool,
    pub public_client: bool,
    pub standard_flow_enabled: bool,
    pub default_roles: Seq<Seq<char>>,
}

impl DeepView for Client {
    type V = ClientModel;

    open spec fn deep_view(&self) -> ClientModel {
        ClientModel {
            client_id: self.client_id.deep_view(),
            enabled: self.enabled,
            root_url: self.root_url.deep_view(),
            base_url: self.base_url.deep_view(),
            redirect_uris: self.redirect_uris.deep_view(),
            client_authenticator_type: self.client_authenticator_type.deep_view(),
            implicit_flow_enabled: self.implicit_flow_enabled,
            public_client: self.public_client,
            standard_flow_enabled: self.standard_flow_enabled,
            default_roles: self.default_roles.deep_view(),
        }
    }
}

impl ClientModel {
    /// The value that nothing has been written to.
    pub open spec fn blank() -> Self {
        ClientModel {
            client_id: Seq::empty(),
            enabled: false,
            root_url: Seq::empty(),
            base_url: Seq::empty(),
            redirect_uris: Seq::empty(),
            client_authenticator_type: Seq::empty(),
            implicit_flow_enabled: false,
            public_client: false,
            standard_flow_enabled: false,
            default_roles: Seq::empty(),
        }
    }
}

impl Default for Client {
    fn default() -> (r: Self)
        ensures
            r.deep_view() == ClientModel::blank(),
    {
        Client {
            client_id: String::new(),
            enabled: false,
            root_url: String::new(),
            base_url: String::new(),
            redirect_uris: Vec::new(),
            client_authenticator_type: String::new(),
            implicit_flow_enabled: false,
            public_client: false,
            standard_flow_enabled: false,
            default_roles: Vec::new(),
        }
    }
}

/// What is asked of a client.
#[derive(Debug, PartialEq)]
pub struct KeycloakClientSpec {
    pub realm_selector: LabelSelector,
    pub client: Client,
}

/// What a [`KeycloakClientSpec`] says, as contracts see it.
#[verifier::ext_equal]
pub struct KeycloakClientSpecModel {
    pub realm_selector: LabelSelectorModel,
    pub client: ClientModel,
}

impl DeepView for KeycloakClientSpec {
    type V = KeycloakClientSpecModel;

    open spec fn deep_view(&self) -> KeycloakClientSpecModel {
        KeycloakClientSpecModel {
            realm_selector: self.realm_selector.deep_view(),
            client: self.client.deep_view(),
        }
    }
}

impl KeycloakClientSpecModel {
    /// The value that nothing has been written to.
    pub open spec fn blank() -> Self {
        KeycloakClientSpecModel {
            realm_selector: LabelSelectorModel::blank(),
            client: ClientModel::blank(),
        }
    }
}

impl Default for KeycloakClientSpec {
    fn default() -> (r: Self)
        ensures
            r.deep_view() == KeycloakClientSpecModel::blank(),
    {
        KeycloakClientSpec {
            realm_selector: LabelSelector::default(),
            client: Client::default(),
        }
    }
}

/// A client of a realm.
#[derive(Debug, PartialEq)]
pub struct KeycloakClient {
    pub metadata: ObjectMeta,
    pub spec: KeycloakClientSpec,
    /// The whole of it as it was read, in JSON; nothing for one made here.
    pub rest: Option<serde_json::Value>,
}

/// What a [`KeycloakClient`] says, as contracts see it.
#[verifier::ext_equal]
pub struct KeycloakClientModel {
    pub metadata: ObjectMetaModel,
    pub spec: KeycloakClientSpecModel,
    pub rest: Option<serde_json::Value>,
}

impl DeepView for KeycloakClient {
    type V = KeycloakClientModel;

    open spec fn deep_view(&self) -> KeycloakClientModel {
        KeycloakClientModel {
            metadata: self.metadata.deep_view(),
            spec: self.spec.deep_view(),
            rest: self.rest,
        }
    }
}

impl KeycloakClientModel {
    /// The value that nothing has been written to.
    pub open spec fn blank() -> Self {
        KeycloakClientModel {
            metadata: ObjectMetaModel::blank(),
            spec: KeycloakClientSpecModel::blank(),
            rest: None,
        }
    }
}

impl Default for KeycloakClient {
    fn default() -> (r: Self)
        ensures
            r.deep_view() == KeycloakClientModel::blank(),
    {
        KeycloakClient {
            metadata: ObjectMeta::default(),
            spec: KeycloakClientSpec::default(),
            rest: None,
        }
    }
}

/// A credential of a user.
#[derive(Debug, PartialEq)]
pub struct Credential {
    pub temporary: bool,
    pub type_: String,
    pub value: String,
}

/// What a [`Credential`] says, as contracts see it.
#[verifier::ext_equal]
pub struct CredentialModel {
    pub temporary: bool,
    pub type_: Seq<char>,
    pub value: Seq<char>,
}

impl DeepView for Credential {
    type V = CredentialModel;

    open spec fn deep_view(&self) -> CredentialModel {
        CredentialModel {
            temporary: self.temporary,
            type_: self.type_.deep_view(),
            value: self.value.deep_view(),
        }
    }
}

/// A user.
#[derive(Debug, PartialEq)]
pub struct User {
    pub credentials: Vec<Credential>,
    pub username: String,
    pub enabled: bool,
    pub first_name: String,
    pub last_name: String,
    /// The roles of the user, by client.
    pub client_roles: TextMap<Vec<String>>,
}

/// What a [`User`] says, as contracts see it.
#[verifier::ext_equal]
pub struct UserModel {
    pub credentials: Seq<CredentialModel>,
    pub username: Seq<char>,
    pub enabled: bool,
    pub first_name: Seq<char>,
    pub last_name: Seq<char>,
    pub client_roles: Map<Seq<char>, Seq<Seq<char>>>,
}

impl DeepView for User {
    type V = UserModel;

    open spec fn deep_view(&self) -> UserModel {
        UserModel {
            credentials: self.credentials.deep_view(),
            username: self.username.deep_view(),
            enabled: self.enabled,
            first_name: self.first_name.deep_view(),
            last_name: self.last_name.deep_view(),
            client_roles: self.client_roles.deep_view(),
        }
    }
}

impl UserModel {
    /// The value that nothing has been written to.
    pub open spec fn blank() -> Self {
        UserModel {
            credentials: Seq::empty(),
            username: Seq::empty(),
            enabled: false,
            first_name: Seq::empty(),
            last_name: Seq::empty(),
            client_roles: Map::empty(),
        }
    }
}

impl Default for User {
    fn default() -> (r: Self)
        ensures
            r.deep_view() == UserModel::blank(),
    {
        User {
            credentials: Vec::new(),
            username: String::new(),
            enabled: false,
            first_name: String::new(),
            last_name: String::new(),
            client_roles: TextMap::new(),
        }
    }
}

/// What is asked of a user.
#[derive(Debug, PartialEq)]
pub struct KeycloakUserSpec {
    pub realm_selector: LabelSelector,
    pub user: User,
}

/// What a [`KeycloakUserSpec`] says, as contracts see it.
#[verifier::ext_equal]
pub struct KeycloakUserSpecModel {
    pub realm_selector: LabelSelectorModel,
    pub user: UserModel,
}

impl DeepView for KeycloakUserSpec {
    type V = KeycloakUserSpecModel;

    open spec fn deep_view(&self) -> KeycloakUserSpecModel {
        KeycloakUserSpecModel {
            realm_selector: self.realm_selector.deep_view(),
            user: self.user.deep_view(),
        }
    }
}

impl KeycloakUserSpecModel {
    /// The value that nothing has been written to.
    pub open spec fn blank() -> Self {
        KeycloakUserSpecModel {
            realm_selector: LabelSelectorModel::blank(),
            user: UserModel::blank(),
        }
    }
}

impl Default for KeycloakUserSpec {
    fn default() -> (r: Self)
        ensures
            r.deep_view() == KeycloakUserSpecModel::blank(),
    {
        KeycloakUserSpec {
            realm_selector: LabelSelector::default(),
            user: User::default(),
        }
    }
}

/// A user of a realm.
#[derive(Debug, PartialEq)]
pub struct KeycloakUser {
    pub metadata: ObjectMeta,
    pub spec: KeycloakUserSpec,
    /// The whole of it as it was read, in JSON; nothing for one made here.
    pub rest: Option<serde_json::Value>,
}

/// What a [`KeycloakUser`] says, as contracts see it.
#[verifier::ext_equal]
pub struct KeycloakUserModel {
    pub metadata: ObjectMetaModel,
    pub spec: KeycloakUserSpecModel,
    pub rest: Option<serde_json::Value>,
}

impl DeepView for KeycloakUser {
    type V = KeycloakUserModel;

    open spec fn deep_view(&self) -> KeycloakUserModel {
        KeycloakUserModel {
            metadata: self.metadata.deep_view(),
            spec: self.spec.deep_view(),
            rest: self.rest,
        }
    }
}

impl KeycloakUserModel {
    /// The value that nothing has been written to.
    pub open spec fn blank() -> Self {
        KeycloakUserModel {
            metadata: ObjectMetaModel::blank(),
            spec: KeycloakUserSpecModel::blank(),
            rest: None,
        }
    }
}

impl Default for KeycloakUser {
    fn default() -> (r: Self)
        ensures
            r.deep_view() == KeycloakUserModel::blank(),
    {
        KeycloakUser {
            metadata: ObjectMeta::default(),
            spec: KeycloakUserSpec::default(),
            rest: None,
        }
    }
}
} // verus!
