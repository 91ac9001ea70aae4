use crate::detail::{labels_or_empty, text_or_default, text_or_empty};
use crate::model::{ContainerInfo, ContainerInfoView, ImageInfo, ImageInfoView, PortInfo, PortInfoView};
use crate::text::{string_views, strip_all, strip_leading, strip_one, strip_prefix_all};
use std::collections::HashMap;
use vstd::prelude::*;

verus! {

/// One port of a container summary; the type is the engine's word for the
/// protocol.
#[derive(Debug)]
pub struct PortRecord {
    pub ip: Option<String>,
    pub private_port: u16,
    pub public_port: Option<u16>,
    pub typ: Option<String>,
}

/// One container as the engine's list operation reports it.
#[derive(Debug)]
pub struct ContainerRecord {
    pub id: Option<String>,
    pub names: Option<Vec<String>>,
    pub image: Option<String>,
    pub state: Option<String>,
    pub status: Option<String>,
    pub labels: Option<HashMap<String, String>>,
    pub ports: Option<Vec<PortRecord>>,
    pub created: Option<i64>,
}

/// One image as the engine's list operation reports it.
#[derive(Debug)]
pub struct ImageRecord {
    pub id: String,
    pub repo_tags: Vec<String>,
    pub size: i64,
    pub created: i64,
}

/// A signed 64-bit number read as an unsigned one of the same bits.
pub open spec fn as_unsigned(x: int) -> int {
    if x >= 0 {
        x
    } else {
        x + 0x1_0000_0000_0000_0000
    }
}

/// Reads a signed number as the unsigned number of the same 64 bits.
pub fn to_unsigned(x: i64) -> (r: u64)
    ensures
        r == as_unsigned(x as int),
{
    if x >= 0 {
        x as u64
    } else {
        u64::MAX - ((-(x + 1)) as u64)
    }
}

/// The port that a port record stands for: an absent address is empty, an
/// absent public port is 0, an absent protocol is `tcp`.
pub open spec fn port_info(port: PortRecord) -> PortInfoView {
    PortInfoView {
        ip: text_or_empty(port.ip),
        private_port: port.private_port,
        public_port: match port.public_port {
            Some(p) => p,
            None => 0,
        },
        type_: match port.typ {
            Some(t) => t@,
            None => "tcp"@,
        },
    }
}

/// The display names of a container: each raw name without its leading
/// slash.
pub open spec fn display_names(names: Option<Vec<String>>) -> Seq<Seq<char>> {
    match names {
        Some(list) => list@.map_values(|n: String| strip_one(n@, '/')),
        None => Seq::empty(),
    }
}

/// The ports of a container summary, none when absent.
pub open spec fn port_infos(ports: Option<Vec<PortRecord>>) -> Seq<PortInfoView> {
    match ports {
        Some(list) => list@.map_values(|p: PortRecord| port_info(p)),
        None => Seq::empty(),
    }
}

/// The canonical record that a container summary stands for.
pub open spec fn container_info(record: ContainerRecord) -> ContainerInfoView {
    ContainerInfoView {
        id: text_or_empty(record.id),
        names: display_names(record.names),
        image: text_or_empty(record.image),
        state: text_or_empty(record.state),
        status: text_or_empty(record.status),
        labels: labels_or_empty(record.labels),
        ports: port_infos(record.ports),
        created: match record.created {
            Some(t) => as_unsigned(t as int) as u64,
            None => 0,
        },
    }
}

/// The canonical record that an image summary stands for: the id without
/// its `sha256:` prefix, size and creation time read as unsigned.
pub open spec fn image_info(record: ImageRecord) -> ImageInfoView {
    ImageInfoView {
        id: strip_all(record.id@, "sha256:"@),
        repo_tags: string_views(record.repo_tags@),
        size: as_unsigned(record.size as int) as u64,
        created: as_unsigned(record.created as int) as u64,
    }
}

impl PortInfo {
    /// Normalizes one port of a container summary.
    pub fn from_record(port: &PortRecord) -> (r: PortInfo)
        ensures
            r@ == port_info(*port),
    {
        PortInfo {
            ip: text_or_default(&port.ip),
            private_port: port.private_port,
            public_port: match port.public_port {
                Some(p) => p,
                None => 0,
            },
            type_: match &port.typ {
                Some(t) => t.clone(),
                None => String::from_str("tcp"),
            },
        }
    }
}

impl ContainerInfo {
    /// Normalizes one container summary: absent fields become empty or
    /// zero, names lose their leading slash, ports without a protocol are
    /// `tcp`.
    pub fn from_record(record: ContainerRecord) -> (r: ContainerInfo)
        ensures
            r@ == container_info(record),
    {
        let ContainerRecord { id, names, image, state, status, labels, ports, created } = record;
        let mut clean_names: Vec<String> = Vec::new();
        if let Some(list) = &names {
            let mut i: usize = 0;
            while i < list.len()
                invariant
                    i <= list.len(),
                    string_views(clean_names@) == list@.take(i as int).map_values(
                        |n: String| strip_one(n@, '/'),
                    ),
                decreases list.len() - i,
            {
                let name = strip_leading(list[i].as_str(), '/');
                proof {
                    let done = list@.take(i as int).map_values(|n: String| strip_one(n@, '/'));
                    let next = list@.take(i + 1).map_values(|n: String| strip_one(n@, '/'));
                    assert(next =~= done.push(name@));
                    assert(string_views(clean_names@.push(name)) =~= string_views(
                        clean_names@,
                    ).push(name@));
                }
                clean_names.push(name);
                i = i + 1;
            }
            assert(list@.take(list.len() as int) =~= list@);
        }
        let mut port_list: Vec<PortInfo> = Vec::new();
        if let Some(list) = &ports {
            let mut i: usize = 0;
            while i < list.len()
                invariant
                    i <= list.len(),
                    port_list@.map_values(|p: PortInfo| p@) == list@.take(i as int).map_values(
                        |p: PortRecord| port_info(p),
                    ),
                decreases list.len() - i,
            {
                let port = PortInfo::from_record(&list[i]);
                proof {
                    let done = list@.take(i as int).map_values(|p: PortRecord| port_info(p));
                    let next = list@.take(i + 1).map_values(|p: PortRecord| port_info(p));
                    assert(next =~= done.push(port@));
                    assert(port_list@.push(port).map_values(|p: PortInfo| p@)
                        =~= port_list@.map_values(|p: PortInfo| p@).push(port@));
                }
                port_list.push(port);
                i = i + 1;
            }
            assert(list@.take(list.len() as int) =~= list@);
        }
        let r = ContainerInfo {
            id: text_or_default(&id),
            names: clean_names,
            image: text_or_default(&image),
            state: text_or_default(&state),
            status: text_or_default(&status),
            labels: match labels {
                Some(map) => map,
                None => HashMap::new(),
            },
            ports: port_list,
            created: match created {
                Some(t) => to_unsigned(t),
                None => 0,
            },
        };
        proof {
            let want = container_info(record);
            assert(r@.names =~= want.names);
            assert(r@.ports =~= want.ports);
            assert(r@.labels =~= want.labels);
        }
        r
    }
}

impl ImageInfo {
    /// Normalizes one image summary.
    pub fn from_record(record: ImageRecord) -> (r: ImageInfo)
        ensures
            r@ == image_info(record),
    {
        let ImageRecord { id, repo_tags, size, created } = record;
        ImageInfo {
            id: strip_prefix_all(id.as_str(), "sha256:"),
            repo_tags,
            size: to_unsigned(size),
            created: to_unsigned(created),
        }
    }
}

} // verus!
