[package]
name = "hawkbit-operator"
version = "0.1.0"
edition = "2021"
publish = false

[dependencies]
anyhow = "1"
env_logger = "0.8"
futures = "0.3"
k8s-openapi = { version = "=0.9.0", features = ["v1_17"] }
keycloak-crd = "=0.1.1"
kube = "=0.42.0"
kube-derive = "=0.42.0"
kube-runtime = "=0.42.0"
log = "0.4"
openshift-openapi = { version = "=0.1.1", features = ["v4_4"] }
operator-framework = "=0.4.1"
passwords = "=3.1.19"
serde = { version = "1", features = ["derive"] }
serde_json = "1"
snafu = "0.6"
tokio = { version = "0.2", features = ["full"] }
