use std::collections::HashMap;
use vstd::prelude::*;

verus! {

/// One published port of a listed container.
#[derive(Debug)]
pub struct PortInfo {
    pub ip: String,
    pub private_port: u16,
    pub public_port: u16,
    pub type_: String,
}

/// What a `PortInfo` holds, as mathematical values.
pub struct PortInfoView {
    pub ip: Seq<char>,
    pub private_port: u16,
    pub public_port: u16,
    pub type_: Seq<char>,
}

impl View for PortInfo {
    type V = PortInfoView;

    open spec fn view(&self) -> PortInfoView {
        PortInfoView {
            ip: self.ip@,
            private_port: self.private_port,
            public_port: self.public_port,
            type_: self.type_@,
        }
    }
}

/// Snapshot of one container as the engine lists it.
#[derive(Debug)]
pub struct ContainerInfo {
    pub id: String,
    pub names: Vec<String>,
    pub image: String,
    pub state: String,
    pub status: String,
    pub labels: HashMap<String, String>,
    pub ports: Vec<PortInfo>,
    pub created: u64,
}

/// What a `ContainerInfo` holds, as mathematical values.
pub struct ContainerInfoView {
    pub id: Seq<char>,
    pub names: Seq<Seq<char>>,
    pub image: Seq<char>,
    pub state: Seq<char>,
    pub status: Seq<char>,
    pub labels: Map<String, String>,
    pub ports: Seq<PortInfoView>,
    pub created: u64,
}

impl View for ContainerInfo {
    type V = ContainerInfoView;

    open spec fn view(&self) -> ContainerInfoView {
        ContainerInfoView {
            id: self.id@,
            names: self.names@.map_values(|s: String| s@),
            image: self.image@,
            state: self.state@,
            status: self.status@,
            labels: self.labels@,
            ports: self.ports@.map_values(|p: PortInfo| p@),
            created: self.created,
        }
    }
}

/// Snapshot of one image as the engine lists it.
#[derive(Debug)]
pub struct ImageInfo {
    pub id: String,
    pub repo_tags: Vec<String>,
    pub size: u64,
    pub created: u64,
}

/// What a `ImageInfo` holds, as mathematical values.
pub struct ImageInfoView {
    pub id: Seq<char>,
    pub repo_tags: Seq<Seq<char>>,
    pub size: u64,
    pub created: u64,
}

impl View for ImageInfo {
    type V = ImageInfoView;

    open spec fn view(&self) -> ImageInfoView {
        ImageInfoView {
            id: self.id@,
            repo_tags: self.repo_tags@.map_values(|s: String| s@),
            size: self.size,
            created: self.created,
        }
    }
}

/// One host binding of a container port.
#[derive(Debug)]
pub struct PortMapping {
    pub host_ip: String,
    pub host_port: String,
    pub container_port: String,
    pub protocol: String,
}

/// What a `PortMapping` holds, as mathematical values.
pub struct PortMappingView {
    pub host_ip: Seq<char>,
    pub host_port: Seq<char>,
    pub container_port: Seq<char>,
    pub protocol: Seq<char>,
}

impl View for PortMapping {
    type V = PortMappingView;

    open spec fn view(&self) -> PortMappingView {
        PortMappingView {
            host_ip: self.host_ip@,
            host_port: self.host_port@,
            container_port: self.container_port@,
            protocol: self.protocol@,
        }
    }
}

/// One volume mount of a container.
#[derive(Debug)]
pub struct VolumeMapping {
    pub host_path: String,
    pub container_path: String,
    pub mode: String,
}

/// What a `VolumeMapping` holds, as mathematical values.
pub struct VolumeMappingView {
    pub host_path: Seq<char>,
    pub container_path: Seq<char>,
    pub mode: Seq<char>,
}

impl View for VolumeMapping {
    type V = VolumeMappingView;

    open spec fn view(&self) -> VolumeMappingView {
        VolumeMappingView {
            host_path: self.host_path@,
            container_path: self.container_path@,
            mode: self.mode@,
        }
    }
}

/// Detailed configuration of one container, as an inspect request shows it.
#[derive(Debug)]
pub struct ContainerConfig {
    pub id: String,
    pub name: String,
    pub image: String,
    pub command: String,
    pub created: String,
    pub status: String,
    pub ports: Vec<PortMapping>,
    pub volumes: Vec<VolumeMapping>,
    pub env_vars: Vec<String>,
    pub labels: HashMap<String, String>,
    pub network_mode: String,
    pub restart_policy: String,
}

/// What a `ContainerConfig` holds, as mathematical values.
pub struct ContainerConfigView {
    pub id: Seq<char>,
    pub name: Seq<char>,
    pub image: Seq<char>,
    pub command: Seq<char>,
    pub created: Seq<char>,
    pub status: Seq<char>,
    pub ports: Seq<PortMappingView>,
    pub volumes: Seq<VolumeMappingView>,
    pub env_vars: Seq<Seq<char>>,
    pub labels: Map<String, String>,
    pub network_mode: Seq<char>,
    pub restart_policy: Seq<char>,
}

impl View for ContainerConfig {
    type V = ContainerConfigView;

    open spec fn view(&self) -> ContainerConfigView {
        ContainerConfigView {
            id: self.id@,
            name: self.name@,
            image: self.image@,
            command: self.command@,
            created: self.created@,
            status: self.status@,
            ports: self.ports@.map_values(|p: PortMapping| p@),
            volumes: self.volumes@.map_values(|v: VolumeMapping| v@),
            env_vars: self.env_vars@.map_values(|s: String| s@),
            labels: self.labels@,
            network_mode: self.network_mode@,
            restart_policy: self.restart_policy@,
        }
    }
}

} // verus!
