//! What the server is surrounded by: its account, configuration, credentials, storage, service and route.

use vstd::prelude::*;
use vstd::utf8::encode_utf8;

use crate::controller::resources;
use crate::crd::HawkbitModel;
use crate::error::Error;
use crate::laws::serving;
use crate::objects::config::{ConfigMapModel, SecretModel, ServiceAccountModel};
use crate::objects::meta::ObjectMetaModel;
use crate::objects::network::{RouteModel, ServiceModel};
use crate::objects::storage::PersistentVolumeClaimModel;
use crate::ownership;

verus! {

/// The server's configuration is under the one key that it is looked for, and texts under other keys are kept. It is
/// the common part alone where users do not sign on with Keycloak; else the issuer of tokens follows, in quotes, or
/// nothing between the quotes while the issuer is not known.
pub proof fn lemma_configuration(
    config: ConfigMapModel,
    resource: HawkbitModel,
    issuer_uri: Option<Seq<char>>,
    key: Seq<char>,
)
    requires
        resources::config_map(config, resource, issuer_uri) is Ok,
    ensures
        ({
            let before = config.data;
            let after = resources::config_map(config, resource, issuer_uri)->Ok_0.data->0;
            let is_there = before is Some && before->0.contains_key(key);
            let common = "server:
  useForwardHeaders: true
hawkbit: null
spring:
  cloud:
    stream:
      bindings:
        default:
          group: hawkbit
        device-created:
          destination: device-registry.device-created
        device-deleted:
          destination: device-registry.device-deleted
        device-updated:
          destination: device-registry.device-updated
"@;
            let client = "
  security:
    oauth2:
      client:
        registration:
          hawkbit:
            provider: hawkbit-keycloak
            scope: openid
        provider:
          hawkbit-keycloak:
            issuer-uri: \""@;
            let end = "\"
"@;
            &&& resources::config_map(config, resource, issuer_uri)->Ok_0.data is Some
            &&& after.contains_key(key) <==> is_there || key == "application.yaml"@
            &&& is_there && key != "application.yaml"@ ==> after[key] == before->0[key]
            &&& resource.spec.sign_on is None ==> after["application.yaml"@] == common
            &&& resource.spec.sign_on is Some && issuer_uri is Some ==> after["application.yaml"@] == common + client
                + issuer_uri->0 + end
            &&& resource.spec.sign_on is Some && issuer_uri is None ==> after["application.yaml"@] == common + client
                + end
        }),
{
    if resource.spec.sign_on is Some && issuer_uri is None {
        let front = resources::COMMON_CONFIG@ + resources::SIGN_ON_CONFIG@;
        assert(front + Seq::<char>::empty() =~= front);
    }
}

/// Account, configuration, credentials and claims keep the labels that they have.
pub proof fn lemma_labels_kept(
    account: ServiceAccountModel,
    config: ConfigMapModel,
    secret: SecretModel,
    claim: PersistentVolumeClaimModel,
    resource: HawkbitModel,
    issuer_uri: Option<Seq<char>>,
    password: Seq<char>,
)
    ensures
        resources::account(account, resource) matches Ok(after) ==> after.metadata.labels == account.metadata.labels
            && after.rest == account.rest,
        resources::config_map(config, resource, issuer_uri) matches Ok(after) ==> after.metadata.labels
            == config.metadata.labels,
        resources::admin_secret(secret, resource, password) matches Ok(after) ==> after.metadata.labels
            == secret.metadata.labels,
        resources::claim(claim, resource) matches Ok(after) ==> after.metadata.labels == claim.metadata.labels,
{
}

/// Credentials of the administrator that are missing are filled in, and no others are: the standard user, and the
/// password behind the mark for one that is not encoded.
pub proof fn lemma_admin_credentials(secret: SecretModel, resource: HawkbitModel, password: Seq<char>, key: Seq<char>)
    requires
        resources::admin_secret(secret, resource, password) is Ok,
    ensures
        ({
            let before = secret.data;
            let after = resources::admin_secret(secret, resource, password)->Ok_0.data->0;
            let is_there = before is Some && before->0.contains_key(key);
            &&& resources::admin_secret(secret, resource, password)->Ok_0.data is Some
            &&& after.contains_key(key) <==> is_there || key == "adminUsername"@ || key == "adminPassword"@
            &&& is_there ==> after[key] == before->0[key]
            &&& !is_there && key == "adminUsername"@ ==> after[key] == encode_utf8("admin"@)
            &&& !is_there && key == "adminPassword"@ ==> after[key] == encode_utf8("{noop}"@ + password)
        }),
{
    reveal_strlit("adminUsername");
    reveal_strlit("adminPassword");
    assert("adminUsername"@[5] == 'U' && "adminPassword"@[5] == 'P');
}

/// Passwords that are made up have sixteen characters, each of them a digit or a small letter.
pub proof fn lemma_passwords(password: Seq<char>, i: int)
    requires
        resources::is_password(password),
    ensures
        password.len() == 16,
        0 <= i < password.len() ==> ('0' <= password[i] <= '9' || 'a' <= password[i] <= 'z'),
{
}

/// A claim asks for one gibibyte that one node can write to, without a limit; what it asks for besides stays.
pub proof fn lemma_claim(claim: PersistentVolumeClaimModel, resource: HawkbitModel, other: Seq<char>)
    requires
        resources::claim(claim, resource) is Ok,
        other != "storage"@,
    ensures
        ({
            let after = resources::claim(claim, resource)->Ok_0.spec->0;
            let requests = after.resources->0.requests->0;
            let limits = after.resources->0.limits->0;
            &&& resources::claim(claim, resource)->Ok_0.spec is Some
            &&& after.access_modes == Some(seq!["ReadWriteOnce"@])
            &&& after.resources is Some
            &&& after.resources->0.requests is Some
            &&& requests.contains_key("storage"@)
            &&& requests["storage"@] == "1Gi"@
            &&& after.resources->0.limits is Some
            &&& !limits.contains_key("storage"@)
            &&& claim.spec is Some ==> after.rest == claim.spec->0.rest
            &&& claim.spec is None ==> after.rest is None
            &&& match claim.spec {
                Some(spec) => match spec.resources {
                    Some(before) => {
                        &&& match before.requests {
                            Some(amounts) => requests.contains_key(other) == amounts.contains_key(other) && (
                            amounts.contains_key(other) ==> requests[other] == amounts[other]),
                            None => !requests.contains_key(other),
                        }
                        &&& match before.limits {
                            Some(amounts) => limits.contains_key(other) == amounts.contains_key(other) && (
                            amounts.contains_key(other) ==> limits[other] == amounts[other]),
                            None => !limits.contains_key(other),
                        }
                    },
                    None => !requests.contains_key(other) && !limits.contains_key(other),
                },
                None => !requests.contains_key(other) && !limits.contains_key(other),
            }
        }),
{
}

/// The server's service leads to the server's port, inside the cluster.
pub proof fn lemma_service(service: ServiceModel, resource: HawkbitModel)
    requires
        resources::service(service, resource) is Ok,
    ensures
        ({
            let after = resources::service(service, resource)->Ok_0;
            let spec = after.spec->0;
            &&& after.metadata.labels == Some(serving::labelled(resource, "server"@, "server"@))
            &&& after.spec is Some
            &&& spec.type_ == Some("ClusterIP"@)
            &&& spec.selector == Some(serving::labelled(resource, "server"@, "server"@))
            &&& spec.ports is Some
            &&& spec.ports->0.len() == 1
            &&& spec.ports->0[0].name == Some("http"@)
            &&& spec.ports->0[0].port == 8080
            &&& spec.ports->0[0].protocol == Some("TCP"@)
            &&& spec.ports->0[0].target_port == Some("http"@)
            &&& service.spec is Some ==> spec.cluster_ip == service.spec->0.cluster_ip && spec.rest
                == service.spec->0.rest
            &&& service.spec is None ==> spec.cluster_ip is None && spec.rest is None
        }),
{
    serving::lemma_labelled(resource, "server"@, "server"@);
}

/// A port of a service is for TCP, and leads to the port of the same name.
pub proof fn lemma_service_port(name: Seq<char>, port: i32)
    ensures
        resources::service_port(name, port).name == Some(name),
        resources::service_port(name, port).target_port == Some(name),
        resources::service_port(name, port).port == port,
        resources::service_port(name, port).protocol == Some("TCP"@),
{
}

/// The route leads all requests to the server's service, encrypted up to the edge of the cluster and in no other
/// way; its host is not touched.
pub proof fn lemma_route(route: RouteModel, resource: HawkbitModel)
    requires
        resources::route(route, resource) is Ok,
    ensures
        ({
            let after = resources::route(route, resource)->Ok_0;
            let spec = after.spec;
            &&& after.metadata.labels == Some(serving::labelled(resource, "server"@, "server"@))
            &&& spec.host == route.spec.host
            &&& spec.to.kind == "Service"@
            &&& spec.to.name == resource.metadata.name->0
            &&& spec.to.weight == 100
            &&& spec.port is Some
            &&& spec.port->0.target_port == "http"@
            &&& spec.tls is Some
            &&& spec.tls->0.termination == "edge"@
            &&& spec.tls->0.insecure_edge_termination_policy == Some("None"@)
        }),
{
    serving::lemma_labelled(resource, "server"@, "server"@);
}

/// The URL of a route is its host behind the mark for encryption, and there is none before there is a host. Bringing
/// the route into shape does not change it.
pub proof fn lemma_route_url(route: RouteModel, resource: HawkbitModel)
    ensures
        route.spec.host.len() > 0 ==> resources::route_url(route) == Some("https://"@ + route.spec.host),
        route.spec.host.len() == 0 ==> resources::route_url(route) is None,
        resources::route(route, resource) is Ok ==> resources::route_url(resources::route(route, resource)->Ok_0)
            == resources::route_url(route),
{
}

/// An object around the server cannot be had just when the instance cannot control it, and for that reason.
pub proof fn lemma_no_surroundings(
    account: ServiceAccountModel,
    config: ConfigMapModel,
    secret: SecretModel,
    claim: PersistentVolumeClaimModel,
    service: ServiceModel,
    route: RouteModel,
    resource: HawkbitModel,
    issuer_uri: Option<Seq<char>>,
    password: Seq<char>,
    e: Error,
)
    ensures
        ownership::owned(account.metadata, resource) == Err::<ObjectMetaModel, Error>(e) <==> resources::account(
            account,
            resource,
        ) == Err::<ServiceAccountModel, Error>(e),
        ownership::owned(config.metadata, resource) == Err::<ObjectMetaModel, Error>(e) <==> resources::config_map(
            config,
            resource,
            issuer_uri,
        ) == Err::<ConfigMapModel, Error>(e),
        ownership::owned(secret.metadata, resource) == Err::<ObjectMetaModel, Error>(e) <==> resources::admin_secret(
            secret,
            resource,
            password,
        ) == Err::<SecretModel, Error>(e),
        ownership::owned(claim.metadata, resource) == Err::<ObjectMetaModel, Error>(e) <==> resources::claim(
            claim,
            resource,
        ) == Err::<PersistentVolumeClaimModel, Error>(e),
        ownership::owned(service.metadata, resource) == Err::<ObjectMetaModel, Error>(e) <==> resources::service(
            service,
            resource,
        ) == Err::<ServiceModel, Error>(e),
        ownership::owned(route.metadata, resource) == Err::<ObjectMetaModel, Error>(e) <==> resources::route(
            route,
            resource,
        ) == Err::<RouteModel, Error>(e),
{
}

} // verus!
