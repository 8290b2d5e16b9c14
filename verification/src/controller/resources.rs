//! The objects around an instance's update server.

use vstd::prelude::*;

use crate::content;
use crate::controller::server;
use crate::controller::HawkbitController;
use crate::crd::{Hawkbit, HawkbitModel};
use crate::error;
use crate::error::Error;
use crate::install;
use crate::objects::config::{ConfigMap, ConfigMapModel, Secret, SecretModel, ServiceAccount, ServiceAccountModel};
use crate::objects::meta::ObjectMetaModel;
use crate::objects::network::{
    Route, RouteModel, RoutePort, RoutePortModel, RouteSpecModel, RouteTargetReference, RouteTargetReferenceModel,
    Service, ServiceModel, ServicePort, ServicePortModel, ServiceSpec, ServiceSpecModel, TLSConfig, TLSConfigModel,
};
use crate::objects::storage::{
    PersistentVolumeClaim, PersistentVolumeClaimModel, PersistentVolumeClaimSpec, PersistentVolumeClaimSpecModel,
    ResourceRequirements, ResourceRequirementsModel,
};
use crate::outside;
use crate::ownership;
use crate::text;

use operator_framework::tracker::ConfigTracker;

verus! {

/// The part of the server's configuration that every instance has.
pub const COMMON_CONFIG: &'static str = "server:
  useForwardHeaders: true
hawkbit: null
spring:
  cloud:
    stream:
      bindings:
        default:
          group: hawkbit
        device-created:
          destination: device-registry.device-created
        device-deleted:
          destination: device-registry.device-deleted
        device-updated:
          destination: device-registry.device-updated
";

/// The part for signing on with Keycloak, up to the issuer.
pub const SIGN_ON_CONFIG: &'static str = "
  security:
    oauth2:
      client:
        registration:
          hawkbit:
            provider: hawkbit-keycloak
            scope: openid
        provider:
          hawkbit-keycloak:
            issuer-uri: \"";

/// What follows the issuer.
pub const SIGN_ON_END: &'static str = "\"
";

/// The key of the server's configuration.
pub const CONFIG_KEY: &'static str = "application.yaml";

/// The length of the passwords that are made up.
pub const PASSWORD_LENGTH: usize = 16;

/// The prefix of a password that is not encoded.
pub const PASSWORD_PREFIX: &'static str = "{noop}";

/// The server's account, or why there is none.
pub open spec fn account(account: ServiceAccountModel, resource: HawkbitModel) -> Result<ServiceAccountModel, Error> {
    match ownership::owned(account.metadata, resource) {
        Err(e) => Err(e),
        Ok(metadata) => Ok(ServiceAccountModel { metadata, ..account }),
    }
}

/// The server's configuration.
pub open spec fn config_text(resource: HawkbitModel, issuer_uri: Option<Seq<char>>) -> Seq<char> {
    if resource.spec.sign_on is Some {
        COMMON_CONFIG@ + SIGN_ON_CONFIG@ + match issuer_uri {
            Some(issuer_uri) => issuer_uri,
            None => Seq::empty(),
        } + SIGN_ON_END@
    } else {
        COMMON_CONFIG@
    }
}

/// The server's config map, or why there is none.
pub open spec fn config_map(
    config: ConfigMapModel,
    resource: HawkbitModel,
    issuer_uri: Option<Seq<char>>,
) -> Result<ConfigMapModel, Error> {
    match ownership::owned(config.metadata, resource) {
        Err(e) => Err(e),
        Ok(metadata) => Ok(
            ConfigMapModel {
                metadata,
                data: install::with_text(config.data, CONFIG_KEY@, config_text(resource, issuer_uri)),
                ..config
            },
        ),
    }
}

/// A password that could have been made up.
pub open spec fn is_password(password: Seq<char>) -> bool {
    password.len() == PASSWORD_LENGTH && forall|i: int| 0 <= i < password.len() ==> outside::is_plain(#[trigger] password[i])
}

/// The administrator's credentials: those that are there, else the standard user with a new password.
pub open spec fn admin_data(data: Option<Map<Seq<char>, Seq<u8>>>, password: Seq<char>) -> Option<Map<Seq<char>, Seq<u8>>> {
    install::with_initial(
        install::with_initial(data, "adminUsername"@, "admin"@),
        "adminPassword"@,
        PASSWORD_PREFIX@ + password,
    )
}

/// The secret with the administrator's credentials, or why there is none.
pub open spec fn admin_secret(
    secret: SecretModel,
    resource: HawkbitModel,
    password: Seq<char>,
) -> Result<SecretModel, Error> {
    match ownership::owned(secret.metadata, resource) {
        Err(e) => Err(e),
        Ok(metadata) => Ok(SecretModel { metadata, data: admin_data(secret.data, password), ..secret }),
    }
}

/// What a claim of one gibibyte asks for.
pub open spec fn claim_spec(spec: PersistentVolumeClaimSpecModel) -> PersistentVolumeClaimSpecModel {
    PersistentVolumeClaimSpecModel {
        access_modes: Some(seq!["ReadWriteOnce"@]),
        resources: Some(
            install::resources_set(
                if spec.resources is Some {
                    spec.resources->0
                } else {
                    ResourceRequirementsModel::blank()
                },
                "storage"@,
                Some("1Gi"@),
                None,
            ),
        ),
        ..spec
    }
}

/// A claim of an instance, or why there is none.
pub open spec fn claim(
    claim: PersistentVolumeClaimModel,
    resource: HawkbitModel,
) -> Result<PersistentVolumeClaimModel, Error> {
    match ownership::owned(claim.metadata, resource) {
        Err(e) => Err(e),
        Ok(metadata) => Ok(
            PersistentVolumeClaimModel {
                metadata,
                spec: Some(
                    claim_spec(
                        if claim.spec is Some {
                            claim.spec->0
                        } else {
                            PersistentVolumeClaimSpecModel::blank()
                        },
                    ),
                ),
                ..claim
            },
        ),
    }
}

/// A TCP port of a service that leads to the container's port of the same name.
pub open spec fn service_port(name: Seq<char>, port: i32) -> ServicePortModel {
    ServicePortModel { name: Some(name), port, protocol: Some("TCP"@), target_port: Some(name) }
}

/// The server's service, or why there is none.
pub open spec fn service(service: ServiceModel, resource: HawkbitModel) -> Result<ServiceModel, Error> {
    match ownership::owned(service.metadata, resource) {
        Err(e) => Err(e),
        Ok(metadata) => Ok(
            ServiceModel {
                metadata: ObjectMetaModel { labels: Some(server::server_labels(resource)), ..metadata },
                spec: Some(
                    ServiceSpecModel {
                        type_: Some("ClusterIP"@),
                        ports: Some(seq![service_port("http"@, 8080)]),
                        selector: Some(server::server_labels(resource)),
                        ..if service.spec is Some {
                            service.spec->0
                        } else {
                            ServiceSpecModel::blank()
                        }
                    },
                ),
                ..service
            },
        ),
    }
}

/// The route to the server, or why there is none.
pub open spec fn route(route: RouteModel, resource: HawkbitModel) -> Result<RouteModel, Error> {
    match ownership::owned(route.metadata, resource) {
        Err(e) => Err(e),
        Ok(metadata) => Ok(
            RouteModel {
                metadata: ObjectMetaModel { labels: Some(server::server_labels(resource)), ..metadata },
                spec: RouteSpecModel {
                    to: RouteTargetReferenceModel { kind: "Service"@, name: resource.name(), weight: 100 },
                    port: Some(RoutePortModel { target_port: "http"@ }),
                    tls: Some(
                        TLSConfigModel { insecure_edge_termination_policy: Some("None"@), termination: "edge"@ },
                    ),
                    ..route.spec
                },
                ..route
            },
        ),
    }
}

/// The URL of an instance, once its route has a host.
pub open spec fn route_url(route: RouteModel) -> Option<Seq<char>> {
    if route.spec.host.len() > 0 {
        Some("https://"@ + route.spec.host)
    } else {
        None
    }
}

/// A TCP port of a service that leads to the container's port of the same name.
pub fn tcp_port(name: &str, port: i32) -> (r: ServicePort)
    ensures
        r.deep_view() == service_port(name@, port),
{
    ServicePort {
        name: Some(name.to_string()),
        port,
        protocol: Some("TCP".to_string()),
        target_port: Some(name.to_string()),
    }
}

impl HawkbitController {
    /// Brings the server's account into shape.
    pub fn create_service_account(
        &self,
        resource: &Hawkbit,
        account: ServiceAccount,
    ) -> (r: Result<ServiceAccount, Error>)
        ensures
            error::outcome(r) == self::account(account.deep_view(), resource.deep_view()),
    {
        match ownership::owned_by_controller(account.metadata, resource) {
            Ok(metadata) => Ok(ServiceAccount { metadata, rest: account.rest }),
            Err(e) => Err(e),
        }
    }

    /// The server's configuration.
    fn configuration(&self, resource: &Hawkbit, issuer_uri: &Option<String>) -> (r: String)
        ensures
            r@ == config_text(resource.deep_view(), issuer_uri.deep_view()),
    {
        let mut config = COMMON_CONFIG.to_string();
        if resource.spec.sign_on.is_some() {
            config.append(SIGN_ON_CONFIG);
            match issuer_uri {
                Some(issuer_uri) => {
                    config.append(issuer_uri.as_str());
                },
                None => {},
            }
            config.append(SIGN_ON_END);
        }
        assert(config@ =~= config_text(resource.deep_view(), issuer_uri.deep_view()));
        config
    }

    /// Brings the server's config map into shape, and hashes it.
    pub fn create_application_config(
        &self,
        resource: &Hawkbit,
        config: ConfigMap,
        tracker: &mut ConfigTracker,
        issuer_uri: &Option<String>,
    ) -> (r: Result<ConfigMap, Error>)
        ensures
            error::outcome(r) == config_map(config.deep_view(), resource.deep_view(), issuer_uri.deep_view()),
            outside::taken_in(*final(tracker)) == match r {
                Ok(config) => outside::taken_in(*old(tracker)) + content::text_content(config.data.deep_view()),
                Err(_) => outside::taken_in(*old(tracker)),
            },
    {
        let metadata = match ownership::owned_by_controller(config.metadata, resource) {
            Ok(metadata) => metadata,
            Err(e) => {
                return Err(e);
            },
        };
        let mut data = config.data;
        let text = self.configuration(resource, issuer_uri);
        install::append_string(&mut data, CONFIG_KEY, text.as_str());
        content::track_texts(tracker, &data);
        Ok(ConfigMap { metadata, data, rest: config.rest })
    }

    /// Brings the secret with the administrator's credentials into shape, and hashes it. The password is
    /// used where there is none yet.
    pub fn create_application_secrets_with(
        &self,
        resource: &Hawkbit,
        secret: Secret,
        tracker: &mut ConfigTracker,
        password: &str,
    ) -> (r: Result<Secret, Error>)
        ensures
            error::outcome(r) == admin_secret(secret.deep_view(), resource.deep_view(), password@),
            outside::taken_in(*final(tracker)) == match r {
                Ok(secret) => outside::taken_in(*old(tracker)) + content::byte_content(secret.data.deep_view()),
                Err(_) => outside::taken_in(*old(tracker)),
            },
    {
        let metadata = match ownership::owned_by_controller(secret.metadata, resource) {
            Ok(metadata) => metadata,
            Err(e) => {
                return Err(e);
            },
        };
        let mut data = secret.data;
        install::init_string(&mut data, "adminUsername", "admin");
        let password = text::chain(PASSWORD_PREFIX, password);
        install::init_string(&mut data, "adminPassword", password.as_str());
        content::track_bytes(tracker, &data);
        Ok(Secret { metadata, data, rest: secret.rest })
    }

    /// Makes up a password.
    pub fn new_password(&self) -> (r: String)
        ensures
            is_password(r@),
    {
        match outside::generate_password(PASSWORD_LENGTH) {
            Ok(password) => password,
            Err(_) => {
                assert(false);
                String::new()
            },
        }
    }

    /// Brings the secret with the administrator's credentials into shape, and hashes it. Where there is
    /// no password yet, one is made up.
    pub fn create_application_secrets(
        &self,
        resource: &Hawkbit,
        secret: Secret,
        tracker: &mut ConfigTracker,
    ) -> (r: Result<Secret, Error>)
        ensures
            exists|password: Seq<char>| #[trigger]
                is_password(password) && error::outcome(r) == admin_secret(
                    secret.deep_view(),
                    resource.deep_view(),
                    password,
                ),
            outside::taken_in(*final(tracker)) == match r {
                Ok(secret) => outside::taken_in(*old(tracker)) + content::byte_content(secret.data.deep_view()),
                Err(_) => outside::taken_in(*old(tracker)),
            },
    {
        let password = self.new_password();
        self.create_application_secrets_with(resource, secret, tracker, password.as_str())
    }

    /// Brings a claim of the instance into shape.
    pub fn create_storage(
        &self,
        resource: &Hawkbit,
        claim: PersistentVolumeClaim,
    ) -> (r: Result<PersistentVolumeClaim, Error>)
        ensures
            error::outcome(r) == self::claim(claim.deep_view(), resource.deep_view()),
    {
        let metadata = match ownership::owned_by_controller(claim.metadata, resource) {
            Ok(metadata) => metadata,
            Err(e) => {
                return Err(e);
            },
        };
        let mut spec = match claim.spec {
            Some(spec) => spec,
            None => PersistentVolumeClaimSpec::default(),
        };
        let modes = vec!["ReadWriteOnce".to_string()];
        assert(modes.deep_view() =~= seq!["ReadWriteOnce"@]);
        spec.access_modes = Some(modes);
        let mut resources = match spec.resources {
            Some(resources) => resources,
            None => ResourceRequirements::default(),
        };
        install::set_resources(&mut resources, "storage", Some("1Gi"), None);
        spec.resources = Some(resources);
        Ok(PersistentVolumeClaim { metadata, spec: Some(spec), rest: claim.rest })
    }

    /// Brings the server's service into shape.
    pub fn create_service(&self, resource: &Hawkbit, service: Service) -> (r: Result<Service, Error>)
        requires
            resource.deep_view().is_named(),
        ensures
            error::outcome(r) == self::service(service.deep_view(), resource.deep_view()),
    {
        let mut metadata = match ownership::owned_by_controller(service.metadata, resource) {
            Ok(metadata) => metadata,
            Err(e) => {
                return Err(e);
            },
        };
        metadata.labels = Some(self.selector(resource, "server", "server"));
        let mut spec = match service.spec {
            Some(spec) => spec,
            None => ServiceSpec::default(),
        };
        spec.type_ = Some("ClusterIP".to_string());
        let ports = vec![tcp_port("http", 8080)];
        assert(ports.deep_view() =~= seq![service_port("http"@, 8080)]);
        spec.ports = Some(ports);
        spec.selector = Some(self.selector(resource, "server", "server"));
        Ok(Service { metadata, spec: Some(spec), rest: service.rest })
    }

    /// Brings the route to the server into shape, and gives the URL of the instance if it has one.
    pub fn create_route(&self, resource: &Hawkbit, route: Route) -> (r: Result<(Route, Option<String>), Error>)
        requires
            resource.deep_view().is_named(),
        ensures
            match (r, self::route(route.deep_view(), resource.deep_view())) {
                (Ok((after, url)), Ok(model)) => after.deep_view() == model && url.deep_view() == route_url(model),
                (Err(e), Err(model)) => e == model,
                _ => false,
            },
    {
        let mut metadata = match ownership::owned_by_controller(route.metadata, resource) {
            Ok(metadata) => metadata,
            Err(e) => {
                return Err(e);
            },
        };
        metadata.labels = Some(self.selector(resource, "server", "server"));
        let mut spec = route.spec;
        spec.to = RouteTargetReference { kind: "Service".to_string(), name: resource.name(), weight: 100 };
        spec.port = Some(RoutePort { target_port: "http".to_string() });
        spec.tls = Some(
            TLSConfig {
                insecure_edge_termination_policy: Some("None".to_string()),
                termination: "edge".to_string(),
            },
        );
        let url = if spec.host.as_str().is_empty() {
            None
        } else {
            Some(text::chain("https://", spec.host.as_str()))
        };
        Ok((Route { metadata, spec, rest: route.rest }, url))
    }
}

} // verus!
