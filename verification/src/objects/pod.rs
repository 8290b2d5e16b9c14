//! Pods: containers, volumes and what they hold.

use vstd::prelude::*;

use crate::objects::meta::{ObjectMeta, ObjectMetaModel};

verus! {

/// Where the value of an environment variable comes from.
#[derive(Debug, PartialEq)]
pub enum EnvVarSource {
    /// A key of a secret.
    SecretKey {
        /// The name of the secret.
        name: String,
        /// The key within the secret.
        key: String,
    },
    /// A field of the pod.
    FieldPath {
        /// The path of the field.
        path: String,
    },
    /// Any other source, as it was read.
    Other {
        /// The source.
        source: serde_json::Value,
    },
}

/// What an [`EnvVarSource`] says, as contracts see it.
#[verifier::ext_equal]
pub enum EnvVarSourceModel {
    SecretKey { name: Seq<char>, key: Seq<char> },
    FieldPath { path: Seq<char> },
    Other { source: serde_json::Value },
}

impl DeepView for EnvVarSource {
    type V = EnvVarSourceModel;

    open spec fn deep_view(&self) -> EnvVarSourceModel {
        match self {
            EnvVarSource::SecretKey { name, key } => EnvVarSourceModel::SecretKey { name: name@, key: key@ },
            EnvVarSource::FieldPath { path } => EnvVarSourceModel::FieldPath { path: path@ },
            EnvVarSource::Other { source } => EnvVarSourceModel::Other { source: *source },
        }
    }
}

/// An environment variable of a container.
#[derive(Debug, PartialEq)]
pub struct EnvVar {
    pub name: String,
    pub value: Option<String>,
    pub value_from: Option<EnvVarSource>,
}

/// What an [`EnvVar`] says, as contracts see it.
#[verifier::ext_equal]
pub struct EnvVarModel {
    pub name: Seq<char>,
    pub value: Option<Seq<char>>,
    pub value_from: Option<EnvVarSourceModel>,
}

impl DeepView for EnvVar {
    type V = EnvVarModel;

    open spec fn deep_view(&self) -> EnvVarModel {
        EnvVarModel {
            name: self.name.deep_view(),
            value: self.value.deep_view(),
            value_from: self.value_from.deep_view(),
        }
    }
}

/// A port of a container.
#[derive(Debug, PartialEq)]
pub struct ContainerPort {
    pub name: Option<String>,
    pub container_port: i32,
    pub protocol: Option<String>,
    pub host_ip: Option<String>,
    pub host_port: Option<i32>,
}

/// What a [`ContainerPort`] says, as contracts see it.
#[verifier::ext_equal]
pub struct ContainerPortModel {
    pub name: Option<Seq<char>>,
    pub container_port: i32,
    pub protocol: Option<Seq<char>>,
    pub host_ip: Option<Seq<char>>,
    pub host_port: Option<i32>,
}

impl DeepView for ContainerPort {
    type V = ContainerPortModel;

    open spec fn deep_view(&self) -> ContainerPortModel {
        ContainerPortModel {
            name: self.name.deep_view(),
            container_port: self.container_port,
            protocol: self.protocol.deep_view(),
            host_ip: self.host_ip.deep_view(),
            host_port: self.host_port,
        }
    }
}

impl ContainerPortModel {
    /// The value that nothing has been written to.
    pub open spec fn blank() -> Self {
        ContainerPortModel {
            name: None,
            container_port: 0,
            protocol: None,
            host_ip: None,
            host_port: None,
        }
    }
}

impl Default for ContainerPort {
    fn default() -> (r: Self)
        ensures
            r.deep_view() == ContainerPortModel::blank(),
    {
        ContainerPort {
            name: None,
            container_port: 0,
            protocol: None,
            host_ip: None,
            host_port: None,
        }
    }
}

/// A volume of the pod, mounted into a container.
#[derive(Debug, PartialEq)]
pub struct VolumeMount {
    pub name: String,
    pub mount_path: String,
    pub read_only: Option<bool>,
    pub mount_propagation: Option<String>,
    pub sub_path: Option<String>,
    pub sub_path_expr: Option<String>,
}

/// What a [`VolumeMount`] says, as contracts see it.
#[verifier::ext_equal]
pub struct VolumeMountModel {
    pub name: Seq<char>,
    pub mount_path: Seq<char>,
    pub read_only: Option<bool>,
    pub mount_propagation: Option<Seq<char>>,
    pub sub_path: Option<Seq<char>>,
    pub sub_path_expr: Option<Seq<char>>,
}

impl DeepView for VolumeMount {
    type V = VolumeMountModel;

    open spec fn deep_view(&self) -> VolumeMountModel {
        VolumeMountModel {
            name: self.name.deep_view(),
            mount_path: self.mount_path.deep_view(),
            read_only: self.read_only,
            mount_propagation: self.mount_propagation.deep_view(),
            sub_path: self.sub_path.deep_view(),
            sub_path_expr: self.sub_path_expr.deep_view(),
        }
    }
}

impl VolumeMountModel {
    /// The value that nothing has been written to.
    pub open spec fn blank() -> Self {
        VolumeMountModel {
            name: Seq::empty(),
            mount_path: Seq::empty(),
            read_only: None,
            mount_propagation: None,
            sub_path: None,
            sub_path_expr: None,
        }
    }
}

impl Default for VolumeMount {
    fn default() -> (r: Self)
        ensures
            r.deep_view() == VolumeMountModel::blank(),
    {
        VolumeMount {
            name: String::new(),
            mount_path: String::new(),
            read_only: None,
            mount_propagation: None,
            sub_path: None,
            sub_path_expr: None,
        }
    }
}

/// A probe that asks over HTTP.
#[derive(Debug, PartialEq)]
pub struct HttpProbe {
    pub path: String,
    /// The name of the port.
    pub port: String,
    pub failure_threshold: i32,
    pub initial_delay_seconds: i32,
    pub period_seconds: i32,
    pub success_threshold: i32,
    pub timeout_seconds: i32,
}

/// What a [`HttpProbe`] says, as contracts see it.
#[verifier::ext_equal]
pub struct HttpProbeModel {
    pub path: Seq<char>,
    pub port: Seq<char>,
    pub failure_threshold: i32,
    pub initial_delay_seconds: i32,
    pub period_seconds: i32,
    pub success_threshold: i32,
    pub timeout_seconds: i32,
}

impl DeepView for HttpProbe {
    type V = HttpProbeModel;

    open spec fn deep_view(&self) -> HttpProbeModel {
        HttpProbeModel {
            path: self.path.deep_view(),
            port: self.port.deep_view(),
            failure_threshold: self.failure_threshold,
            initial_delay_seconds: self.initial_delay_seconds,
            period_seconds: self.period_seconds,
            success_threshold: self.success_threshold,
            timeout_seconds: self.timeout_seconds,
        }
    }
}

/// A probe that runs a command in the container.
#[derive(Debug, PartialEq)]
pub struct ExecProbe {
    pub command: Vec<String>,
    pub initial_delay_seconds: i32,
    pub period_seconds: i32,
    pub timeout_seconds: i32,
}

/// What an [`ExecProbe`] says, as contracts see it.
#[verifier::ext_equal]
pub struct ExecProbeModel {
    pub command: Seq<Seq<char>>,
    pub initial_delay_seconds: i32,
    pub period_seconds: i32,
    pub timeout_seconds: i32,
}

impl DeepView for ExecProbe {
    type V = ExecProbeModel;

    open spec fn deep_view(&self) -> ExecProbeModel {
        ExecProbeModel {
            command: self.command.deep_view(),
            initial_delay_seconds: self.initial_delay_seconds,
            period_seconds: self.period_seconds,
            timeout_seconds: self.timeout_seconds,
        }
    }
}

/// A probe of a container. One is always written as a whole.
#[derive(Debug, PartialEq)]
pub enum Probe {
    /// Asks over HTTP.
    Http(HttpProbe),
    /// Runs a command in the container.
    Exec(ExecProbe),
    /// Any other probe, as it was read.
    Other(serde_json::Value),
}

/// What a [`Probe`] says, as contracts see it.
#[verifier::ext_equal]
pub enum ProbeModel {
    Http(HttpProbeModel),
    Exec(ExecProbeModel),
    Other(serde_json::Value),
}

impl DeepView for Probe {
    type V = ProbeModel;

    open spec fn deep_view(&self) -> ProbeModel {
        match self {
            Probe::Http(p) => ProbeModel::Http(p.deep_view()),
            Probe::Exec(p) => ProbeModel::Exec(p.deep_view()),
            Probe::Other(p) => ProbeModel::Other(*p),
        }
    }
}

/// A container of a pod.
#[derive(Debug, PartialEq)]
pub struct Container {
    pub name: String,
    pub image: Option<String>,
    pub image_pull_policy: Option<String>,
    pub command: Option<Vec<String>>,
    pub args: Option<Vec<String>>,
    pub working_dir: Option<String>,
    pub env: Option<Vec<EnvVar>>,
    pub ports: Option<Vec<ContainerPort>>,
    pub volume_mounts: Option<Vec<VolumeMount>>,
    pub readiness_probe: Option<Probe>,
    pub liveness_probe: Option<Probe>,
    /// The whole of it as it was read, in JSON; nothing for one made here.
    pub rest: Option<serde_json::Value>,
}

/// What a [`Container`] says, as contracts see it.
#[verifier::ext_equal]
pub struct ContainerModel {
    pub name: Seq<char>,
    pub image: Option<Seq<char>>,
    pub image_pull_policy: Option<Seq<char>>,
    pub command: Option<Seq<Seq<char>>>,
    pub args: Option<Seq<Seq<char>>>,
    pub working_dir: Option<Seq<char>>,
    pub env: Option<Seq<EnvVarModel>>,
    pub ports: Option<Seq<ContainerPortModel>>,
    pub volume_mounts: Option<Seq<VolumeMountModel>>,
    pub readiness_probe: Option<ProbeModel>,
    pub liveness_probe: Option<ProbeModel>,
    pub rest: Option<serde_json::Value>,
}

impl DeepView for Container {
    type V = ContainerModel;

    open spec fn deep_view(&self) -> ContainerModel {
        ContainerModel {
            name: self.name.deep_view(),
            image: self.image.deep_view(),
            image_pull_policy: self.image_pull_policy.deep_view(),
            command: self.command.deep_view(),
            args: self.args.deep_view(),
            working_dir: self.working_dir.deep_view(),
            env: self.env.deep_view(),
            ports: self.ports.deep_view(),
            volume_mounts: self.volume_mounts.deep_view(),
            readiness_probe: self.readiness_probe.deep_view(),
            liveness_probe: self.liveness_probe.deep_view(),
            rest: self.rest,
        }
    }
}

impl ContainerModel {
    /// The value that nothing has been written to.
    pub open spec fn blank() -> Self {
        ContainerModel {
            name: Seq::empty(),
            image: None,
            image_pull_policy: None,
            command: None,
            args: None,
            working_dir: None,
            env: None,
            ports: None,
            volume_mounts: None,
            readiness_probe: None,
            liveness_probe: None,
            rest: None,
        }
    }
}

impl Default for Container {
    fn default() -> (r: Self)
        ensures
            r.deep_view() == ContainerModel::blank(),
    {
        Container {
            name: String::new(),
            image: None,
            image_pull_policy: None,
            command: None,
            args: None,
            working_dir: None,
            env: None,
            ports: None,
            volume_mounts: None,
            readiness_probe: None,
            liveness_probe: None,
            rest: None,
        }
    }
}

/// A volume that shows a config map.
#[derive(Debug, PartialEq)]
pub struct ConfigMapVolumeSource {
    pub name: Option<String>,
    pub default_mode: Option<i32>,
    /// The whole of it as it was read, in JSON; nothing for one made here.
    pub rest: Option<serde_json::Value>,
}

/// What a [`ConfigMapVolumeSource`] says, as contracts see it.
#[verifier::ext_equal]
pub struct ConfigMapVolumeSourceModel {
    pub name: Option<Seq<char>>,
    pub default_mode: Option<i32>,
    pub rest: Option<serde_json::Value>,
}

impl DeepView for ConfigMapVolumeSource {
    type V = ConfigMapVolumeSourceModel;

    open spec fn deep_view(&self) -> ConfigMapVolumeSourceModel {
        ConfigMapVolumeSourceModel {
            name: self.name.deep_view(),
            default_mode: self.default_mode,
            rest: self.rest,
        }
    }
}

/// A volume that a claim provides.
#[derive(Debug, PartialEq)]
pub struct PersistentVolumeClaimVolumeSource {
    pub claim_name: String,
    pub read_only: Option<bool>,
}

/// What a [`PersistentVolumeClaimVolumeSource`] says, as contracts see it.
#[verifier::ext_equal]
pub struct PersistentVolumeClaimVolumeSourceModel {
    pub claim_name: Seq<char>,
    pub read_only: Option<bool>,
}

impl DeepView for PersistentVolumeClaimVolumeSource {
    type V = PersistentVolumeClaimVolumeSourceModel;

    open spec fn deep_view(&self) -> PersistentVolumeClaimVolumeSourceModel {
        PersistentVolumeClaimVolumeSourceModel {
            claim_name: self.claim_name.deep_view(),
            read_only: self.read_only,
        }
    }
}

/// A volume that starts out empty.
#[derive(Debug, PartialEq)]
pub struct EmptyDirVolumeSource {
    pub medium: Option<String>,
    pub size_limit: Option<String>,
}

/// What an [`EmptyDirVolumeSource`] says, as contracts see it.
#[verifier::ext_equal]
pub struct EmptyDirVolumeSourceModel {
    pub medium: Option<Seq<char>>,
    pub size_limit: Option<Seq<char>>,
}

impl DeepView for EmptyDirVolumeSource {
    type V = EmptyDirVolumeSourceModel;

    open spec fn deep_view(&self) -> EmptyDirVolumeSourceModel {
        EmptyDirVolumeSourceModel {
            medium: self.medium.deep_view(),
            size_limit: self.size_limit.deep_view(),
        }
    }
}

/// A volume of a pod.
#[derive(Debug, PartialEq)]
pub struct Volume {
    pub name: String,
    pub config_map: Option<ConfigMapVolumeSource>,
    pub persistent_volume_claim: Option<PersistentVolumeClaimVolumeSource>,
    pub empty_dir: Option<EmptyDirVolumeSource>,
    /// The whole of it as it was read, in JSON; nothing for one made here.
    pub rest: Option<serde_json::Value>,
}

/// What a [`Volume`] says, as contracts see it.
#[verifier::ext_equal]
pub struct VolumeModel {
    pub name: Seq<char>,
    pub config_map: Option<ConfigMapVolumeSourceModel>,
    pub persistent_volume_claim: Option<PersistentVolumeClaimVolumeSourceModel>,
    pub empty_dir: Option<EmptyDirVolumeSourceModel>,
    pub rest: Option<serde_json::Value>,
}

impl DeepView for Volume {
    type V = VolumeModel;

    open spec fn deep_view(&self) -> VolumeModel {
        VolumeModel {
            name: self.name.deep_view(),
            config_map: self.config_map.deep_view(),
            persistent_volume_claim: self.persistent_volume_claim.deep_view(),
            empty_dir: self.empty_dir.deep_view(),
            rest: self.rest,
        }
    }
}

impl VolumeModel {
    /// The value that nothing has been written to.
    pub open spec fn blank() -> Self {
        VolumeModel {
            name: Seq::empty(),
            config_map: None,
            persistent_volume_claim: None,
            empty_dir: None,
            rest: None,
        }
    }
}

impl Default for Volume {
    fn default() -> (r: Self)
        ensures
            r.deep_view() == VolumeModel::blank(),
    {
        Volume {
            name: String::new(),
            config_map: None,
            persistent_volume_claim: None,
            empty_dir: None,
            rest: None,
        }
    }
}

/// What a pod runs.
#[derive(Debug, PartialEq)]
pub struct PodSpec {
    pub service_account: Option<String>,
    pub restart_policy: Option<String>,
    pub init_containers: Option<Vec<Container>>,
    pub containers: Vec<Container>,
    pub volumes: Option<Vec<Volume>>,
    /// The whole of it as it was read, in JSON; nothing for one made here.
    pub rest: Option<serde_json::Value>,
}

/// What a [`PodSpec`] says, as contracts see it.
#[verifier::ext_equal]
pub struct PodSpecModel {
    pub service_account: Option<Seq<char>>,
    pub restart_policy: Option<Seq<char>>,
    pub init_containers: Option<Seq<ContainerModel>>,
    pub containers: Seq<ContainerModel>,
    pub volumes: Option<Seq<VolumeModel>>,
    pub rest: Option<serde_json::Value>,
}

impl DeepView for PodSpec {
    type V = PodSpecModel;

    open spec fn deep_view(&self) -> PodSpecModel {
        PodSpecModel {
            service_account: self.service_account.deep_view(),
            restart_policy: self.restart_policy.deep_view(),
            init_containers: self.init_containers.deep_view(),
            containers: self.containers.deep_view(),
            volumes: self.volumes.deep_view(),
            rest: self.rest,
        }
    }
}

impl PodSpecModel {
    /// The value that nothing has been written to.
    pub open spec fn blank() -> Self {
        PodSpecModel {
            service_account: None,
            restart_policy: None,
            init_containers: None,
            containers: Seq::empty(),
            volumes: None,
            rest: None,
        }
    }
}

impl Default for PodSpec {
    fn default() -> (r: Self)
        ensures
            r.deep_view() == PodSpecModel::blank(),
    {
        PodSpec {
            service_account: None,
            restart_policy: None,
            init_containers: None,
            containers: Vec::new(),
            volumes: None,
            rest: None,
        }
    }
}

/// The pods that a workload makes.
#[derive(Debug, PartialEq)]
pub struct PodTemplateSpec {
    pub metadata: Option<ObjectMeta>,
    pub spec: Option<PodSpec>,
}

/// What a [`PodTemplateSpec`] says, as contracts see it.
#[verifier::ext_equal]
pub struct PodTemplateSpecModel {
    pub metadata: Option<ObjectMetaModel>,
    pub spec: Option<PodSpecModel>,
}

impl DeepView for PodTemplateSpec {
    type V = PodTemplateSpecModel;

    open spec fn deep_view(&self) -> PodTemplateSpecModel {
        PodTemplateSpecModel {
            metadata: self.metadata.deep_view(),
            spec: self.spec.deep_view(),
        }
    }
}

impl PodTemplateSpecModel {
    /// The value that nothing has been written to.
    pub open spec fn blank() -> Self {
        PodTemplateSpecModel {
            metadata: None,
            spec: None,
        }
    }
}

impl Default for PodTemplateSpec {
    fn default() -> (r: Self)
        ensures
            r.deep_view() == PodTemplateSpecModel::blank(),
    {
        PodTemplateSpec {
            metadata: None,
            spec: None,
        }
    }
}
} // verus!
