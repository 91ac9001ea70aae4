use crate::model::{
    ContainerConfig, ContainerConfigView, PortMapping, PortMappingView, VolumeMapping,
    VolumeMappingView,
};
use crate::text::{join, join_strings, split, split_str, string_views, strip_leading, strip_one};
use std::collections::HashMap;
use vstd::prelude::*;

verus! {

/// The `config` object of an inspect result.
#[derive(Debug)]
pub struct InspectConfig {
    pub image: Option<String>,
    pub cmd: Option<Vec<String>>,
    pub env: Option<Vec<String>>,
    pub labels: Option<HashMap<String, String>>,
}

/// The `state` object of an inspect result; the status is the engine's word
/// for it ("running", "exited", ...).
#[derive(Debug)]
pub struct InspectState {
    pub status: Option<String>,
}

/// One host address and port that a container port is bound to.
#[derive(Debug)]
pub struct HostBinding {
    pub host_ip: Option<String>,
    pub host_port: Option<String>,
}

/// One entry of the port map: a `port/protocol` key and its host bindings.
#[derive(Debug)]
pub struct PortEntry {
    pub container_port: String,
    pub bindings: Option<Vec<HostBinding>>,
}

/// The `network_settings` object of an inspect result; the port map's
/// entries are in the order in which they are to be reported.
#[derive(Debug)]
pub struct InspectNetwork {
    pub ports: Option<Vec<PortEntry>>,
}

/// One entry of the `mounts` list of an inspect result.
#[derive(Debug)]
pub struct MountRecord {
    pub source: Option<String>,
    pub destination: Option<String>,
    pub mode: Option<String>,
}

/// The restart policy of a host configuration, by the engine's name for it.
#[derive(Debug)]
pub struct RestartRule {
    pub name: Option<String>,
}

/// The `host_config` object of an inspect result.
#[derive(Debug)]
pub struct InspectHost {
    pub network_mode: Option<String>,
    pub restart_policy: Option<RestartRule>,
}

/// What an inspect request returns about one container; every nested object
/// may be absent.
#[derive(Debug)]
pub struct InspectRecord {
    pub name: Option<String>,
    pub created: Option<String>,
    pub config: Option<InspectConfig>,
    pub state: Option<InspectState>,
    pub network_settings: Option<InspectNetwork>,
    pub mounts: Option<Vec<MountRecord>>,
    pub host_config: Option<InspectHost>,
}

/// The text of an optional string, empty when absent.
pub open spec fn text_or_empty(o: Option<String>) -> Seq<char> {
    match o {
        Some(s) => s@,
        None => Seq::empty(),
    }
}

/// The texts of an optional list of strings, none when absent.
pub open spec fn texts_or_empty(o: Option<Vec<String>>) -> Seq<Seq<char>> {
    match o {
        Some(v) => string_views(v@),
        None => Seq::empty(),
    }
}

/// The label map of an optional map, empty when absent.
pub open spec fn labels_or_empty(o: Option<HashMap<String, String>>) -> Map<String, String> {
    match o {
        Some(m) => m@,
        None => Map::empty(),
    }
}

/// The port number of a `port/protocol` key: what stands before the first
/// slash.
pub open spec fn port_number(key: Seq<char>) -> Seq<char> {
    split(key, '/')[0]
}

/// The protocol of a `port/protocol` key: what stands between the first and
/// the second slash, or `tcp` when the key holds no slash.
pub open spec fn port_protocol(key: Seq<char>) -> Seq<char> {
    let parts = split(key, '/');
    if parts.len() > 1 {
        parts[1]
    } else {
        "tcp"@
    }
}

/// The mapping that one host binding of the port `key` yields.
pub open spec fn binding_mapping(key: Seq<char>, binding: HostBinding) -> PortMappingView {
    PortMappingView {
        host_ip: text_or_empty(binding.host_ip),
        host_port: text_or_empty(binding.host_port),
        container_port: port_number(key),
        protocol: port_protocol(key),
    }
}

/// The mappings of one port-map entry: one per host binding, in order; none
/// where the bindings are absent.
pub open spec fn entry_mappings(entry: PortEntry) -> Seq<PortMappingView> {
    match entry.bindings {
        Some(bindings) => bindings@.map_values(
            |b: HostBinding| binding_mapping(entry.container_port@, b),
        ),
        None => Seq::empty(),
    }
}

/// The mappings of all entries, entry after entry.
pub open spec fn expand_ports(entries: Seq<PortEntry>) -> Seq<PortMappingView>
    decreases entries.len(),
{
    if entries.len() == 0 {
        Seq::empty()
    } else {
        expand_ports(entries.drop_last()) + entry_mappings(entries.last())
    }
}

/// The port mappings of an optional network object.
pub open spec fn network_mappings(network: Option<InspectNetwork>) -> Seq<PortMappingView> {
    match network {
        Some(InspectNetwork { ports: Some(entries) }) => expand_ports(entries@),
        _ => Seq::empty(),
    }
}

/// The volume mapping of one mount.
pub open spec fn mount_mapping(mount: MountRecord) -> VolumeMappingView {
    VolumeMappingView {
        host_path: text_or_empty(mount.source),
        container_path: text_or_empty(mount.destination),
        mode: text_or_empty(mount.mode),
    }
}

/// The volume mappings of an optional mount list.
pub open spec fn mount_mappings(mounts: Option<Vec<MountRecord>>) -> Seq<VolumeMappingView> {
    match mounts {
        Some(list) => list@.map_values(|m: MountRecord| mount_mapping(m)),
        None => Seq::empty(),
    }
}

/// The command line of an optional configuration: its words joined by one
/// space.
pub open spec fn command_line(config: Option<InspectConfig>) -> Seq<char> {
    match config {
        Some(InspectConfig { cmd: Some(words), .. }) => join(string_views(words@), " "@),
        _ => Seq::empty(),
    }
}

/// The status word of an optional state, `unknown` when none is reported.
pub open spec fn status_word(state: Option<InspectState>) -> Seq<char> {
    match state {
        Some(InspectState { status: Some(word) }) => word@,
        _ => "unknown"@,
    }
}

/// The restart policy's name, `no` when none is reported.
pub open spec fn restart_name(host: Option<InspectHost>) -> Seq<char> {
    match host {
        Some(InspectHost { restart_policy: Some(RestartRule { name: Some(n) }), .. }) => n@,
        _ => "no"@,
    }
}

/// The detail record that an inspect result stands for.
pub open spec fn container_detail(id: Seq<char>, details: InspectRecord) -> ContainerConfigView {
    ContainerConfigView {
        id,
        name: strip_one(text_or_empty(details.name), '/'),
        image: match details.config {
            Some(c) => text_or_empty(c.image),
            None => Seq::empty(),
        },
        command: command_line(details.config),
        created: text_or_empty(details.created),
        status: status_word(details.state),
        ports: network_mappings(details.network_settings),
        volumes: mount_mappings(details.mounts),
        env_vars: match details.config {
            Some(c) => texts_or_empty(c.env),
            None => Seq::empty(),
        },
        labels: match details.config {
            Some(c) => labels_or_empty(c.labels),
            None => Map::empty(),
        },
        network_mode: match details.host_config {
            Some(h) => text_or_empty(h.network_mode),
            None => Seq::empty(),
        },
        restart_policy: restart_name(details.host_config),
    }
}


/// The text of an optional string, empty when absent.
pub fn text_or_default(o: &Option<String>) -> (r: String)
    ensures
        r@ == text_or_empty(*o),
{
    match o {
        Some(s) => s.clone(),
        None => String::new(),
    }
}

/// Splits a `port/protocol` key into its port number and its protocol.
pub fn port_key_parts(key: &str) -> (r: (String, String))
    ensures
        r.0@ == port_number(key@),
        r.1@ == port_protocol(key@),
{
    let parts = split_str(key, '/');
    assert(string_views(parts@)[0] == parts@[0]@);
    let number = parts[0].clone();
    let protocol = if parts.len() > 1 {
        assert(string_views(parts@)[1] == parts@[1]@);
        parts[1].clone()
    } else {
        String::from_str("tcp")
    };
    (number, protocol)
}

/// Expands a port map into one mapping per host binding, keeping the order
/// of the entries and of each entry's bindings.
pub fn expand_port_entries(entries: &Vec<PortEntry>) -> (r: Vec<PortMapping>)
    ensures
        r@.map_values(|p: PortMapping| p@) == expand_ports(entries@),
{
    let mut ports: Vec<PortMapping> = Vec::new();
    let mut i: usize = 0;
    assert(entries@.take(0) =~= Seq::<PortEntry>::empty());
    while i < entries.len()
        invariant
            i <= entries.len(),
            ports@.map_values(|p: PortMapping| p@) == expand_ports(entries@.take(i as int)),
        decreases entries.len() - i,
    {
        let entry = &entries[i];
        let ghost before = ports@.map_values(|p: PortMapping| p@);
        proof {
            assert(entries@.take(i + 1).drop_last() =~= entries@.take(i as int));
            assert(entries@.take(i + 1).last() == *entry);
        }
        match &entry.bindings {
            Some(bindings) => {
                let mut j: usize = 0;
                while j < bindings.len()
                    invariant
                        j <= bindings.len(),
                        entry.bindings == Some(*bindings),
                        ports@.map_values(|p: PortMapping| p@) == before + entry_mappings(
                            *entry,
                        ).take(j as int),
                    decreases bindings.len() - j,
                {
                    let (number, protocol) = port_key_parts(entry.container_port.as_str());
                    let mapping = PortMapping {
                        host_ip: text_or_default(&bindings[j].host_ip),
                        host_port: text_or_default(&bindings[j].host_port),
                        container_port: number,
                        protocol,
                    };
                    proof {
                        assert(mapping@ == entry_mappings(*entry)[j as int]);
                        assert(entry_mappings(*entry).take(j + 1) =~= entry_mappings(*entry).take(
                            j as int,
                        ).push(mapping@));
                        assert(ports@.push(mapping).map_values(|p: PortMapping| p@) =~= ports@.map_values(
                            |p: PortMapping| p@,
                        ).push(mapping@));
                    }
                    ports.push(mapping);
                    j = j + 1;
                }
                assert(entry_mappings(*entry).take(j as int) =~= entry_mappings(*entry));
            },
            None => {
                assert(before + entry_mappings(*entry) =~= before);
            },
        }
        i = i + 1;
    }
    assert(entries@.take(entries.len() as int) =~= entries@);
    ports
}

/// The volume mappings of a mount list, in order.
pub fn mount_volumes(mounts: &Vec<MountRecord>) -> (r: Vec<VolumeMapping>)
    ensures
        r@.map_values(|v: VolumeMapping| v@) == mounts@.map_values(
            |m: MountRecord| mount_mapping(m),
        ),
{
    let mut volumes: Vec<VolumeMapping> = Vec::new();
    let mut i: usize = 0;
    while i < mounts.len()
        invariant
            i <= mounts.len(),
            volumes@.map_values(|v: VolumeMapping| v@) == mounts@.take(i as int).map_values(
                |m: MountRecord| mount_mapping(m),
            ),
        decreases mounts.len() - i,
    {
        let volume = VolumeMapping {
            host_path: text_or_default(&mounts[i].source),
            container_path: text_or_default(&mounts[i].destination),
            mode: text_or_default(&mounts[i].mode),
        };
        proof {
            let done = mounts@.take(i as int).map_values(|m: MountRecord| mount_mapping(m));
            let next = mounts@.take(i + 1).map_values(|m: MountRecord| mount_mapping(m));
            assert(volume@ == mount_mapping(mounts@[i as int]));
            assert(next =~= done.push(volume@));
            assert(volumes@.push(volume).map_values(|v: VolumeMapping| v@) =~= volumes@.map_values(
                |v: VolumeMapping| v@,
            ).push(volume@));
        }
        volumes.push(volume);
        i = i + 1;
    }
    assert(mounts@.take(mounts.len() as int) =~= mounts@);
    volumes
}


impl ContainerConfig {
    /// Derives the detail record of the container `container_id` from what
    /// an inspect request returned, defaulting every absent part on its own.
    pub fn from_inspect(container_id: &str, details: InspectRecord) -> (r: ContainerConfig)
        ensures
            r@ == container_detail(container_id@, details),
    {
        let InspectRecord { name, created, config, state, network_settings, mounts, host_config } =
            details;
        let name = strip_leading(text_or_default(&name).as_str(), '/');
        let (image, command, env_vars, labels) = match config {
            Some(InspectConfig { image, cmd, env, labels }) => {
                let command = match &cmd {
                    Some(words) => join_strings(words, " "),
                    None => String::new(),
                };
                let env_vars = match env {
                    Some(list) => list,
                    None => Vec::new(),
                };
                let labels = match labels {
                    Some(map) => map,
                    None => HashMap::new(),
                };
                (text_or_default(&image), command, env_vars, labels)
            },
            None => (String::new(), String::new(), Vec::new(), HashMap::new()),
        };
        let status = match state {
            Some(InspectState { status: Some(word) }) => word,
            _ => String::from_str("unknown"),
        };
        let ports = match &network_settings {
            Some(InspectNetwork { ports: Some(entries) }) => expand_port_entries(entries),
            _ => Vec::new(),
        };
        let volumes = match &mounts {
            Some(list) => mount_volumes(list),
            None => Vec::new(),
        };
        let (network_mode, restart_policy) = match host_config {
            Some(InspectHost { network_mode, restart_policy }) => {
                let policy = match restart_policy {
                    Some(RestartRule { name: Some(n) }) => n,
                    _ => String::from_str("no"),
                };
                (text_or_default(&network_mode), policy)
            },
            None => (String::new(), String::from_str("no")),
        };
        let r = ContainerConfig {
            id: String::from_str(container_id),
            name,
            image,
            command,
            created: text_or_default(&created),
            status,
            ports,
            volumes,
            env_vars,
            labels,
            network_mode,
            restart_policy,
        };
        proof {
            let want = container_detail(container_id@, details);
            assert(r@.env_vars =~= want.env_vars);
            assert(r@.ports =~= want.ports);
            assert(r@.volumes =~= want.volumes);
            assert(r@.labels =~= want.labels);
        }
        r
    }
}

} // verus!
