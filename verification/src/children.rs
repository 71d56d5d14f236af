//! The two kinds of child object that realize a `ForwardedService`: a
//! Service, and a Deployment whose pod runs the forwarder. Each type holds
//! what the operator sets on the child and reads back from it.

use crate::meta::{ObjectMeta, ObjectMetaView};
use crate::string_map::StringMap;
use vstd::prelude::*;
use vstd::string::*;

verus! {

/// One port of a Service.
#[derive(Clone, Debug)]
pub struct ServicePort {
    pub name: String,
    pub port: i32,
    pub protocol: String,
    pub target_port: i32,
}

/// The mathematical view of a `ServicePort`.
pub struct ServicePortView {
    pub name: Seq<char>,
    pub port: i32,
    pub protocol: Seq<char>,
    pub target_port: i32,
}

impl View for ServicePort {
    type V = ServicePortView;

    open spec fn view(&self) -> ServicePortView {
        ServicePortView {
            name: self.name@,
            port: self.port,
            protocol: self.protocol@,
            target_port: self.target_port,
        }
    }
}

/// A Service: its metadata, its ports, the labels it selects pods by, and
/// its type.
#[derive(Clone, Debug)]
pub struct Service {
    pub metadata: ObjectMeta,
    pub ports: Vec<ServicePort>,
    pub selector: StringMap,
    pub type_: String,
}

/// The mathematical view of a `Service`.
pub struct ServiceView {
    pub metadata: ObjectMetaView,
    pub ports: Seq<ServicePortView>,
    pub selector: Map<Seq<char>, Seq<char>>,
    pub type_: Seq<char>,
}

impl View for Service {
    type V = ServiceView;

    open spec fn view(&self) -> ServiceView {
        ServiceView {
            metadata: self.metadata@,
            ports: self.ports@.map_values(|p: ServicePort| p@),
            selector: self.selector@,
            type_: self.type_@,
        }
    }
}

/// Where a container mounts a volume.
#[derive(Clone, Debug)]
pub struct VolumeMount {
    pub mount_path: String,
    pub name: String,
    pub read_only: bool,
}

/// The mathematical view of a `VolumeMount`.
pub struct VolumeMountView {
    pub mount_path: Seq<char>,
    pub name: Seq<char>,
    pub read_only: bool,
}

impl View for VolumeMount {
    type V = VolumeMountView;

    open spec fn view(&self) -> VolumeMountView {
        VolumeMountView {
            mount_path: self.mount_path@,
            name: self.name@,
            read_only: self.read_only,
        }
    }
}

/// A volume that is filled from a secret.
#[derive(Clone, Debug)]
pub struct SecretVolume {
    pub name: String,
    pub secret_name: String,
    pub optional: bool,
}

/// The mathematical view of a `SecretVolume`.
pub struct SecretVolumeView {
    pub name: Seq<char>,
    pub secret_name: Seq<char>,
    pub optional: bool,
}

impl View for SecretVolume {
    type V = SecretVolumeView;

    open spec fn view(&self) -> SecretVolumeView {
        SecretVolumeView {
            name: self.name@,
            secret_name: self.secret_name@,
            optional: self.optional,
        }
    }
}

/// A container of a pod template.
#[derive(Clone, Debug)]
pub struct Container {
    pub name: String,
    pub image: Option<String>,
    pub args: Option<Vec<String>>,
    pub volume_mounts: Vec<VolumeMount>,
}

/// The mathematical view of a `Container`.
pub struct ContainerView {
    pub name: Seq<char>,
    pub image: Option<Seq<char>>,
    pub args: Option<Seq<Seq<char>>>,
    pub volume_mounts: Seq<VolumeMountView>,
}

impl View for Container {
    type V = ContainerView;

    open spec fn view(&self) -> ContainerView {
        ContainerView {
            name: self.name@,
            image: self.image.deep_view(),
            args: self.args.deep_view(),
            volume_mounts: self.volume_mounts@.map_values(|m: VolumeMount| m@),
        }
    }
}

/// A Deployment: its metadata, how many old revisions it keeps, the labels
/// it selects pods by, and its pod template, of which `container` is the
/// first container.
#[derive(Clone, Debug)]
pub struct Deployment {
    pub metadata: ObjectMeta,
    pub revision_history_limit: i32,
    pub selector: StringMap,
    pub pod_labels: StringMap,
    pub container: Container,
    pub volumes: Vec<SecretVolume>,
}

/// The mathematical view of a `Deployment`.
pub struct DeploymentView {
    pub metadata: ObjectMetaView,
    pub revision_history_limit: i32,
    pub selector: Map<Seq<char>, Seq<char>>,
    pub pod_labels: Map<Seq<char>, Seq<char>>,
    pub container: ContainerView,
    pub volumes: Seq<SecretVolumeView>,
}

impl View for Deployment {
    type V = DeploymentView;

    open spec fn view(&self) -> DeploymentView {
        DeploymentView {
            metadata: self.metadata@,
            revision_history_limit: self.revision_history_limit,
            selector: self.selector@,
            pod_labels: self.pod_labels@,
            container: self.container@,
            volumes: self.volumes@.map_values(|v: SecretVolume| v@),
        }
    }
}

} // verus!
