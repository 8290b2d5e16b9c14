//! The custom resource that describes a hawkBit instance.

use std::ops::Deref;
use vstd::prelude::*;

use crate::error::Error;
use crate::objects::meta::{ObjectMeta, ObjectMetaModel};
use crate::text;
use crate::text_map::TextMap;

verus! {

/// A hawkBit instance that the operator is asked to keep.
#[derive(Debug, PartialEq)]
pub struct Hawkbit {
    pub metadata: ObjectMeta,
    pub spec: HawkbitSpec,
    pub status: Option<HawkbitStatus>,
}

/// What a [`Hawkbit`] says, as contracts see it.
#[verifier::ext_equal]
pub struct HawkbitModel {
    pub metadata: ObjectMetaModel,
    pub spec: HawkbitSpecModel,
    pub status: Option<HawkbitStatusModel>,
}

impl DeepView for Hawkbit {
    type V = HawkbitModel;

    open spec fn deep_view(&self) -> HawkbitModel {
        HawkbitModel {
            metadata: self.metadata.deep_view(),
            spec: self.spec.deep_view(),
            status: self.status.deep_view(),
        }
    }
}

impl HawkbitModel {
    /// The value that nothing has been written to.
    pub open spec fn blank() -> Self {
        HawkbitModel {
            metadata: ObjectMetaModel::blank(),
            spec: HawkbitSpecModel::blank(),
            status: None,
        }
    }
}

impl Default for Hawkbit {
    fn default() -> (r: Self)
        ensures
            r.deep_view() == HawkbitModel::blank(),
    {
        Hawkbit {
            metadata: ObjectMeta::default(),
            spec: HawkbitSpec::default(),
            status: None,
        }
    }
}

impl Hawkbit {
    /// The kind of the resource.
    pub const KIND: &'static str = "Hawkbit";

    /// The API group of the resource.
    pub const GROUP: &'static str = "iot.eclipse.org";

    /// The version of the resource within its group.
    pub const VERSION: &'static str = "v1alpha1";

    /// The group and version of the resource.
    pub const API_VERSION: &'static str = "iot.eclipse.org/v1alpha1";

    /// The name of the instance.
    pub fn name(&self) -> (r: String)
        requires
            self.deep_view().is_named(),
        ensures
            r@ == self.deep_view().name(),
    {
        match &self.metadata.name {
            Some(name) => name.clone(),
            None => String::new(),
        }
    }
}

impl HawkbitModel {
    /// The instance has a name, as every object that the cluster hands out.
    pub open spec fn is_named(self) -> bool {
        self.metadata.name is Some
    }

    /// The name of the instance.
    pub open spec fn name(self) -> Seq<char> {
        self.metadata.name->0
    }
}

/// What is asked of an instance.
#[derive(Debug, Clone, PartialEq)]
pub struct HawkbitSpec {
    pub database: Database,
    pub rabbit: Rabbit,
    pub image_overrides: TextMap<ImageOverride>,
    pub sign_on: Option<SignOn>,
}

/// What a [`HawkbitSpec`] says, as contracts see it.
#[verifier::ext_equal]
pub struct HawkbitSpecModel {
    pub database: DatabaseModel,
    pub rabbit: RabbitModel,
    pub image_overrides: Map<Seq<char>, ImageOverrideModel>,
    pub sign_on: Option<SignOnModel>,
}

impl DeepView for HawkbitSpec {
    type V = HawkbitSpecModel;

    open spec fn deep_view(&self) -> HawkbitSpecModel {
        HawkbitSpecModel {
            database: self.database.deep_view(),
            rabbit: self.rabbit.deep_view(),
            image_overrides: self.image_overrides.deep_view(),
            sign_on: self.sign_on.deep_view(),
        }
    }
}

impl HawkbitSpecModel {
    /// The value that nothing has been written to.
    pub open spec fn blank() -> Self {
        HawkbitSpecModel {
            database: DatabaseModel::blank(),
            rabbit: RabbitModel::blank(),
            image_overrides: Map::empty(),
            sign_on: None,
        }
    }
}

impl Default for HawkbitSpec {
    fn default() -> (r: Self)
        ensures
            r.deep_view() == HawkbitSpecModel::blank(),
    {
        HawkbitSpec {
            database: Database::default(),
            rabbit: Rabbit::default(),
            image_overrides: TextMap::new(),
            sign_on: None,
        }
    }
}

/// How users sign on.
#[derive(Debug, Clone, PartialEq)]
pub enum SignOn {
    /// With Keycloak.
    Keycloak {
        /// The Keycloak settings.
        config: KeycloakConfig,
    },
}

/// What a [`SignOn`] says, as contracts see it.
#[verifier::ext_equal]
pub enum SignOnModel {
    Keycloak { config: KeycloakConfigModel },
}

impl DeepView for SignOn {
    type V = SignOnModel;

    open spec fn deep_view(&self) -> SignOnModel {
        match self {
            SignOn::Keycloak { config } => SignOnModel::Keycloak { config: config.deep_view() },
        }
    }
}

/// How Keycloak is used.
#[derive(Debug, Clone, PartialEq)]
pub struct KeycloakConfig {
    /// A label selector for an instance to use, in JSON.
    pub use_instance: Option<serde_json::Value>,
    /// The URL under which hawkBit is reached.
    pub hawkbit_url: Option<String>,
}

/// What a [`KeycloakConfig`] says, as contracts see it.
#[verifier::ext_equal]
pub struct KeycloakConfigModel {
    pub use_instance: Option<serde_json::Value>,
    pub hawkbit_url: Option<Seq<char>>,
}

impl DeepView for KeycloakConfig {
    type V = KeycloakConfigModel;

    open spec fn deep_view(&self) -> KeycloakConfigModel {
        KeycloakConfigModel {
            use_instance: self.use_instance,
            hawkbit_url: self.hawkbit_url.deep_view(),
        }
    }
}

impl KeycloakConfigModel {
    /// The value that nothing has been written to.
    pub open spec fn blank() -> Self {
        KeycloakConfigModel {
            use_instance: None,
            hawkbit_url: None,
        }
    }
}

impl Default for KeycloakConfig {
    fn default() -> (r: Self)
        ensures
            r.deep_view() == KeycloakConfigModel::blank(),
    {
        KeycloakConfig {
            use_instance: None,
            hawkbit_url: None,
        }
    }
}

/// An image to use in place of the standard one.
#[derive(Debug, Clone, PartialEq)]
pub struct ImageOverride {
    pub image: Option<String>,
    pub pull_policy: Option<String>,
}

/// What an [`ImageOverride`] says, as contracts see it.
#[verifier::ext_equal]
pub struct ImageOverrideModel {
    pub image: Option<Seq<char>>,
    pub pull_policy: Option<Seq<char>>,
}

impl DeepView for ImageOverride {
    type V = ImageOverrideModel;

    open spec fn deep_view(&self) -> ImageOverrideModel {
        ImageOverrideModel {
            image: self.image.deep_view(),
            pull_policy: self.pull_policy.deep_view(),
        }
    }
}

impl ImageOverrideModel {
    /// The value that nothing has been written to.
    pub open spec fn blank() -> Self {
        ImageOverrideModel {
            image: None,
            pull_policy: None,
        }
    }
}

impl Default for ImageOverride {
    fn default() -> (r: Self)
        ensures
            r.deep_view() == ImageOverrideModel::blank(),
    {
        ImageOverride {
            image: None,
            pull_policy: None,
        }
    }
}

/// The database of an instance: exactly one of its kinds is to be given.
#[derive(Debug, Clone, PartialEq)]
pub struct Database {
    pub mysql: Option<MySQL>,
    pub postgres: Option<PostgreSQL>,
    pub embedded: Option<Embedded>,
}

/// What a [`Database`] says, as contracts see it.
#[verifier::ext_equal]
pub struct DatabaseModel {
    pub mysql: Option<MySQLModel>,
    pub postgres: Option<PostgreSQLModel>,
    pub embedded: Option<EmbeddedModel>,
}

impl DeepView for Database {
    type V = DatabaseModel;

    open spec fn deep_view(&self) -> DatabaseModel {
        DatabaseModel {
            mysql: self.mysql.deep_view(),
            postgres: self.postgres.deep_view(),
            embedded: self.embedded.deep_view(),
        }
    }
}

impl DatabaseModel {
    /// The value that nothing has been written to.
    pub open spec fn blank() -> Self {
        DatabaseModel {
            mysql: None,
            postgres: None,
            embedded: None,
        }
    }
}

impl Default for Database {
    fn default() -> (r: Self)
        ensures
            r.deep_view() == DatabaseModel::blank(),
    {
        Database {
            mysql: None,
            postgres: None,
            embedded: None,
        }
    }
}

impl DatabaseModel {
    /// The one kind of database that is given, if exactly one is.
    pub open spec fn variant(self) -> Option<DatabaseVariantModel> {
        match (self.mysql, self.postgres, self.embedded) {
            (Some(mysql), None, None) => Some(DatabaseVariantModel::MySQL(mysql)),
            (None, Some(postgres), None) => Some(DatabaseVariantModel::PostgreSQL(postgres)),
            (None, None, Some(_)) => Some(DatabaseVariantModel::Embedded),
            _ => None,
        }
    }
}

impl Database {
    /// The one kind of database that is given.
    pub fn variant(&self) -> (r: Result<DatabaseVariant, Error>)
        ensures
            r matches Ok(v) ==> self.deep_view().variant() == Some(v.deep_view()),
            r matches Err(e) ==> self.deep_view().variant() is None && e == Error::InvalidDatabase,
    {
        match (&self.mysql, &self.postgres, &self.embedded) {
            (Some(mysql), None, None) => Ok(DatabaseVariant::MySQL(mysql)),
            (None, Some(postgres), None) => Ok(DatabaseVariant::PostgreSQL(postgres)),
            (None, None, Some(_)) => Ok(DatabaseVariant::Embedded),
            _ => Err(Error::InvalidDatabase),
        }
    }
}

/// The message broker of an instance: exactly one of the two is to be given.
#[derive(Debug, Clone, PartialEq)]
pub struct Rabbit {
    pub external: Option<RabbitExternal>,
    pub managed: Option<RabbitManaged>,
}

/// What a [`Rabbit`] says, as contracts see it.
#[verifier::ext_equal]
pub struct RabbitModel {
    pub external: Option<RabbitExternalModel>,
    pub managed: Option<RabbitManagedModel>,
}

impl DeepView for Rabbit {
    type V = RabbitModel;

    open spec fn deep_view(&self) -> RabbitModel {
        RabbitModel {
            external: self.external.deep_view(),
            managed: self.managed.deep_view(),
        }
    }
}

impl RabbitModel {
    /// The value that nothing has been written to.
    pub open spec fn blank() -> Self {
        RabbitModel {
            external: None,
            managed: None,
        }
    }
}

impl Default for Rabbit {
    fn default() -> (r: Self)
        ensures
            r.deep_view() == RabbitModel::blank(),
    {
        Rabbit {
            external: None,
            managed: None,
        }
    }
}

/// A broker that the operator keeps.
#[derive(Debug, Clone, PartialEq)]
pub struct RabbitManaged {
    pub storage_size: Option<String>,
    /// Resource requirements, in JSON.
    pub resources: Option<serde_json::Value>,
}

/// What a [`RabbitManaged`] says, as contracts see it.
#[verifier::ext_equal]
pub struct RabbitManagedModel {
    pub storage_size: Option<Seq<char>>,
    pub resources: Option<serde_json::Value>,
}

impl DeepView for RabbitManaged {
    type V = RabbitManagedModel;

    open spec fn deep_view(&self) -> RabbitManagedModel {
        RabbitManagedModel {
            storage_size: self.storage_size.deep_view(),
            resources: self.resources,
        }
    }
}

impl RabbitManagedModel {
    /// The value that nothing has been written to.
    pub open spec fn blank() -> Self {
        RabbitManagedModel {
            storage_size: None,
            resources: None,
        }
    }
}

impl Default for RabbitManaged {
    fn default() -> (r: Self)
        ensures
            r.deep_view() == RabbitManagedModel::blank(),
    {
        RabbitManaged {
            storage_size: None,
            resources: None,
        }
    }
}

/// A broker that is there already.
#[derive(Debug, Clone, PartialEq)]
pub struct RabbitExternal {
    pub host: String,
    pub port: u16,
    pub username: String,
    pub password_secret: PasswordSecretSource,
}

/// What a [`RabbitExternal`] says, as contracts see it.
#[verifier::ext_equal]
pub struct RabbitExternalModel {
    pub host: Seq<char>,
    pub port: u16,
    pub username: Seq<char>,
    pub password_secret: PasswordSecretSourceModel,
}

impl DeepView for RabbitExternal {
    type V = RabbitExternalModel;

    open spec fn deep_view(&self) -> RabbitExternalModel {
        RabbitExternalModel {
            host: self.host.deep_view(),
            port: self.port,
            username: self.username.deep_view(),
            password_secret: self.password_secret.deep_view(),
        }
    }
}

impl RabbitExternalModel {
    /// The value that nothing has been written to: the standard port, and nothing else.
    pub open spec fn blank() -> Self {
        RabbitExternalModel {
            host: Seq::empty(),
            port: 5672,
            username: Seq::empty(),
            password_secret: PasswordSecretSourceModel::blank(),
        }
    }
}

impl Default for RabbitExternal {
    fn default() -> (r: Self)
        ensures
            r.deep_view() == RabbitExternalModel::blank(),
    {
        RabbitExternal {
            host: String::new(),
            port: 5672,
            username: String::new(),
            password_secret: PasswordSecretSource::default(),
        }
    }
}

/// What JDBC databases have in common.
#[derive(Debug, Clone, PartialEq)]
pub struct CommonJdbc {
    pub host: String,
    pub port: u16,
    pub database: String,
    pub url: String,
    pub username: String,
    pub password_secret: PasswordSecretSource,
}

/// What a [`CommonJdbc`] says, as contracts see it.
#[verifier::ext_equal]
pub struct CommonJdbcModel {
    pub host: Seq<char>,
    pub port: u16,
    pub database: Seq<char>,
    pub url: Seq<char>,
    pub username: Seq<char>,
    pub password_secret: PasswordSecretSourceModel,
}

impl DeepView for CommonJdbc {
    type V = CommonJdbcModel;

    open spec fn deep_view(&self) -> CommonJdbcModel {
        CommonJdbcModel {
            host: self.host.deep_view(),
            port: self.port,
            database: self.database.deep_view(),
            url: self.url.deep_view(),
            username: self.username.deep_view(),
            password_secret: self.password_secret.deep_view(),
        }
    }
}

impl CommonJdbcModel {
    /// The value that nothing has been written to.
    pub open spec fn blank() -> Self {
        CommonJdbcModel {
            host: Seq::empty(),
            port: 0,
            database: Seq::empty(),
            url: Seq::empty(),
            username: Seq::empty(),
            password_secret: PasswordSecretSourceModel::blank(),
        }
    }
}

impl Default for CommonJdbc {
    fn default() -> (r: Self)
        ensures
            r.deep_view() == CommonJdbcModel::blank(),
    {
        CommonJdbc {
            host: String::new(),
            port: 0,
            database: String::new(),
            url: String::new(),
            username: String::new(),
            password_secret: PasswordSecretSource::default(),
        }
    }
}

/// A MySQL database.
#[derive(Debug, Clone, PartialEq)]
pub struct MySQL {
    pub jdbc: CommonJdbc,
}

/// What a [`MySQL`] says, as contracts see it.
#[verifier::ext_equal]
pub struct MySQLModel {
    pub jdbc: CommonJdbcModel,
}

impl DeepView for MySQL {
    type V = MySQLModel;

    open spec fn deep_view(&self) -> MySQLModel {
        MySQLModel {
            jdbc: self.jdbc.deep_view(),
        }
    }
}

impl MySQLModel {
    /// The value that nothing has been written to.
    pub open spec fn blank() -> Self {
        MySQLModel {
            jdbc: CommonJdbcModel::blank(),
        }
    }
}

impl Default for MySQL {
    fn default() -> (r: Self)
        ensures
            r.deep_view() == MySQLModel::blank(),
    {
        MySQL {
            jdbc: CommonJdbc::default(),
        }
    }
}

/// A PostgreSQL database.
#[derive(Debug, Clone, PartialEq)]
pub struct PostgreSQL {
    pub jdbc: CommonJdbc,
}

/// What a [`PostgreSQL`] says, as contracts see it.
#[verifier::ext_equal]
pub struct PostgreSQLModel {
    pub jdbc: CommonJdbcModel,
}

impl DeepView for PostgreSQL {
    type V = PostgreSQLModel;

    open spec fn deep_view(&self) -> PostgreSQLModel {
        PostgreSQLModel {
            jdbc: self.jdbc.deep_view(),
        }
    }
}

impl PostgreSQLModel {
    /// The value that nothing has been written to.
    pub open spec fn blank() -> Self {
        PostgreSQLModel {
            jdbc: CommonJdbcModel::blank(),
        }
    }
}

impl Default for PostgreSQL {
    fn default() -> (r: Self)
        ensures
            r.deep_view() == PostgreSQLModel::blank(),
    {
        PostgreSQL {
            jdbc: CommonJdbc::default(),
        }
    }
}

/// The embedded database. It is meant for testing only.
#[derive(Debug, Clone, PartialEq)]
pub struct Embedded {}

/// What an [`Embedded`] says, as contracts see it.
#[verifier::ext_equal]
pub struct EmbeddedModel {}

impl DeepView for Embedded {
    type V = EmbeddedModel;

    open spec fn deep_view(&self) -> EmbeddedModel {
        EmbeddedModel {}
    }
}

impl EmbeddedModel {
    /// The value that nothing has been written to.
    pub open spec fn blank() -> Self {
        EmbeddedModel {}
    }
}

impl Default for Embedded {
    fn default() -> (r: Self)
        ensures
            r.deep_view() == EmbeddedModel::blank(),
    {
        Embedded {}
    }
}

/// The JDBC URL of a database: the one given, or one made up from its parts.
pub open spec fn jdbc_url(jdbc_type: Seq<char>, default_port: u16, jdbc: CommonJdbcModel) -> Seq<char> {
    if jdbc.url.len() > 0 {
        jdbc.url
    } else {
        let port = if jdbc.port > 0 {
            jdbc.port
        } else {
            default_port
        };
        "jdbc:"@ + jdbc_type + "://"@ + jdbc.host + ":"@ + text::decimal(port as nat) + "/"@ + jdbc.database
    }
}

/// A database that is reached through JDBC.
pub trait DatabaseOptions: Deref<Target = CommonJdbc> {
    /// What the database has in common with others.
    spec fn jdbc(&self) -> CommonJdbcModel;

    /// The name of the database in JDBC URLs.
    spec fn protocol(&self) -> Seq<char>;

    /// The port that is used where none is given.
    spec fn standard_port(&self) -> u16;

    /// The name of the database in JDBC URLs.
    fn jdbc_type(&self) -> (r: String)
        ensures
            r@ == self.protocol(),
    ;

    /// The port that is used where none is given.
    fn default_port(&self) -> (r: u16)
        ensures
            r == self.standard_port(),
    ;

    /// What the database has in common with others.
    fn common(&self) -> (r: &CommonJdbc)
        ensures
            r.deep_view() == self.jdbc(),
    ;

    /// The JDBC URL of the database.
    fn url(&self) -> (r: Result<String, Error>)
        ensures
            r matches Ok(url) && url@ == jdbc_url(self.protocol(), self.standard_port(), self.jdbc()),
    {
        let jdbc = self.common();
        if !jdbc.url.as_str().is_empty() {
            Ok(jdbc.url.clone())
        } else {
            let port: u16 = if jdbc.port > 0 {
                jdbc.port
            } else {
                self.default_port()
            };
            let mut url = "jdbc:".to_string();
            url.append(self.jdbc_type().as_str());
            url.append("://");
            url.append(jdbc.host.as_str());
            url.append(":");
            url.append(text::to_decimal(port).as_str());
            url.append("/");
            url.append(jdbc.database.as_str());
            Ok(url)
        }
    }
}

impl DatabaseOptions for MySQL {
    open spec fn jdbc(&self) -> CommonJdbcModel {
        self.deep_view().jdbc
    }

    open spec fn protocol(&self) -> Seq<char> {
        "mysql"@
    }

    open spec fn standard_port(&self) -> u16 {
        3306
    }

    fn jdbc_type(&self) -> (r: String) {
        "mysql".to_string()
    }

    fn default_port(&self) -> (r: u16) {
        3306
    }

    fn common(&self) -> (r: &CommonJdbc) {
        &self.jdbc
    }
}

impl Deref for MySQL {
    type Target = CommonJdbc;

    fn deref(&self) -> (r: &CommonJdbc)
        ensures
            *r == self.jdbc,
    {
        &self.jdbc
    }
}

impl DatabaseOptions for PostgreSQL {
    open spec fn jdbc(&self) -> CommonJdbcModel {
        self.deep_view().jdbc
    }

    open spec fn protocol(&self) -> Seq<char> {
        "postgresql"@
    }

    open spec fn standard_port(&self) -> u16 {
        5432
    }

    fn jdbc_type(&self) -> (r: String) {
        "postgresql".to_string()
    }

    fn default_port(&self) -> (r: u16) {
        5432
    }

    fn common(&self) -> (r: &CommonJdbc) {
        &self.jdbc
    }
}

impl Deref for PostgreSQL {
    type Target = CommonJdbc;

    fn deref(&self) -> (r: &CommonJdbc)
        ensures
            *r == self.jdbc,
    {
        &self.jdbc
    }
}

/// The one kind of database that is given.
pub enum DatabaseVariant<'a> {
    /// A MySQL database.
    MySQL(&'a MySQL),
    /// A PostgreSQL database.
    PostgreSQL(&'a PostgreSQL),
    /// The embedded database.
    Embedded,
}

/// What a [`DatabaseVariant`] says, as contracts see it.
#[verifier::ext_equal]
pub enum DatabaseVariantModel {
    MySQL(MySQLModel),
    PostgreSQL(PostgreSQLModel),
    Embedded,
}

impl<'a> DeepView for DatabaseVariant<'a> {
    type V = DatabaseVariantModel;

    open spec fn deep_view(&self) -> DatabaseVariantModel {
        match self {
            DatabaseVariant::MySQL(mysql) => DatabaseVariantModel::MySQL(mysql.deep_view()),
            DatabaseVariant::PostgreSQL(postgres) => DatabaseVariantModel::PostgreSQL(postgres.deep_view()),
            DatabaseVariant::Embedded => DatabaseVariantModel::Embedded,
        }
    }
}

/// Where a password is found: a field of a secret.
#[derive(Debug, Clone, PartialEq)]
pub struct PasswordSecretSource {
    pub name: String,
    pub field: String,
}

/// What a [`PasswordSecretSource`] says, as contracts see it.
#[verifier::ext_equal]
pub struct PasswordSecretSourceModel {
    pub name: Seq<char>,
    pub field: Seq<char>,
}

impl DeepView for PasswordSecretSource {
    type V = PasswordSecretSourceModel;

    open spec fn deep_view(&self) -> PasswordSecretSourceModel {
        PasswordSecretSourceModel {
            name: self.name.deep_view(),
            field: self.field.deep_view(),
        }
    }
}

impl PasswordSecretSourceModel {
    /// The value that nothing has been written to.
    pub open spec fn blank() -> Self {
        PasswordSecretSourceModel {
            name: Seq::empty(),
            field: Seq::empty(),
        }
    }
}

impl Default for PasswordSecretSource {
    fn default() -> (r: Self)
        ensures
            r.deep_view() == PasswordSecretSourceModel::blank(),
    {
        PasswordSecretSource {
            name: String::new(),
            field: String::new(),
        }
    }
}

/// What the operator reports of an instance.
#[derive(Debug, Clone, PartialEq)]
pub struct HawkbitStatus {
    pub phase: String,
    pub message: Option<String>,
}

/// What a [`HawkbitStatus`] says, as contracts see it.
#[verifier::ext_equal]
pub struct HawkbitStatusModel {
    pub phase: Seq<char>,
    pub message: Option<Seq<char>>,
}

impl DeepView for HawkbitStatus {
    type V = HawkbitStatusModel;

    open spec fn deep_view(&self) -> HawkbitStatusModel {
        HawkbitStatusModel {
            phase: self.phase.deep_view(),
            message: self.message.deep_view(),
        }
    }
}

impl HawkbitStatusModel {
    /// The value that nothing has been written to.
    pub open spec fn blank() -> Self {
        HawkbitStatusModel {
            phase: Seq::empty(),
            message: None,
        }
    }
}

impl Default for HawkbitStatus {
    fn default() -> (r: Self)
        ensures
            r.deep_view() == HawkbitStatusModel::blank(),
    {
        HawkbitStatus {
            phase: String::new(),
            message: None,
        }
    }
}
} // verus!
