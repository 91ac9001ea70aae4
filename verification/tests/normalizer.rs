use docker_core::detail::{
    expand_port_entries, mount_volumes, port_key_parts, text_or_default, HostBinding,
    InspectConfig, InspectHost, InspectNetwork, InspectRecord, InspectState, MountRecord,
    PortEntry, RestartRule,
};
use docker_core::listing::{to_unsigned, ContainerRecord, ImageRecord, PortRecord};
use docker_core::model::{ContainerConfig, ContainerInfo, ImageInfo, PortInfo};
use std::collections::HashMap;

fn text(s: &str) -> Option<String> {
    Some(s.to_string())
}

fn empty_inspect() -> InspectRecord {
    InspectRecord {
        name: None,
        created: None,
        config: None,
        state: None,
        network_settings: None,
        mounts: None,
        host_config: None,
    }
}

#[test]
fn raw_name_loses_its_slash() {
    let record = ContainerRecord {
        id: text("abc123"),
        names: Some(vec!["/web-1".to_string(), "db".to_string(), "//x".to_string()]),
        image: text("nginx:latest"),
        state: text("running"),
        status: text("Up 2 hours"),
        labels: None,
        ports: None,
        created: Some(1_700_000_000),
    };
    let info = ContainerInfo::from_record(record);
    assert_eq!(info.names, vec!["web-1".to_string(), "db".to_string(), "/x".to_string()]);
    assert_eq!(info.id, "abc123");
    assert_eq!(info.image, "nginx:latest");
    assert_eq!(info.state, "running");
    assert_eq!(info.status, "Up 2 hours");
    assert!(info.labels.is_empty());
    assert!(info.ports.is_empty());
    assert_eq!(info.created, 1_700_000_000);
}

#[test]
fn raw_id_loses_its_hash_prefix() {
    let record = ImageRecord {
        id: "sha256:abcd0123".to_string(),
        repo_tags: vec!["nginx:latest".to_string(), "nginx:1".to_string()],
        size: 187_000_000,
        created: 1_700_000_001,
    };
    let info = ImageInfo::from_record(record);
    assert_eq!(info.id, "abcd0123");
    assert_eq!(info.repo_tags, vec!["nginx:latest".to_string(), "nginx:1".to_string()]);
    assert_eq!(info.size, 187_000_000);
    assert_eq!(info.created, 1_700_000_001);
}

#[test]
fn image_without_prefix_keeps_its_id() {
    let record = ImageRecord { id: "abcd".to_string(), repo_tags: vec![], size: 0, created: 0 };
    let info = ImageInfo::from_record(record);
    assert_eq!(info.id, "abcd");
    assert!(info.repo_tags.is_empty());
}

#[test]
fn negative_numbers_keep_their_bits() {
    assert_eq!(to_unsigned(0), 0);
    assert_eq!(to_unsigned(5), 5);
    assert_eq!(to_unsigned(i64::MAX), i64::MAX as u64);
    assert_eq!(to_unsigned(-1), u64::MAX);
    assert_eq!(to_unsigned(-2), (-2i64) as u64);
    assert_eq!(to_unsigned(i64::MIN), i64::MIN as u64);
    let record = ImageRecord { id: String::new(), repo_tags: vec![], size: -1, created: i64::MIN };
    let info = ImageInfo::from_record(record);
    assert_eq!(info.size, u64::MAX);
    assert_eq!(info.created, 1u64 << 63);
}

#[test]
fn absent_container_fields_default() {
    let record = ContainerRecord {
        id: None,
        names: None,
        image: None,
        state: None,
        status: None,
        labels: None,
        ports: None,
        created: None,
    };
    let info = ContainerInfo::from_record(record);
    assert_eq!(info.id, "");
    assert!(info.names.is_empty());
    assert_eq!(info.image, "");
    assert_eq!(info.state, "");
    assert_eq!(info.status, "");
    assert!(info.labels.is_empty());
    assert!(info.ports.is_empty());
    assert_eq!(info.created, 0);
}

#[test]
fn labels_and_ports_pass_through() {
    let mut labels = HashMap::new();
    labels.insert("com.example.role".to_string(), "web".to_string());
    labels.insert("tier".to_string(), "front".to_string());
    let record = ContainerRecord {
        id: text("1"),
        names: Some(vec![]),
        image: None,
        state: None,
        status: None,
        labels: Some(labels.clone()),
        ports: Some(vec![
            PortRecord { ip: text("0.0.0.0"), private_port: 80, public_port: Some(8080), typ: text("tcp") },
            PortRecord { ip: None, private_port: 53, public_port: None, typ: text("udp") },
            PortRecord { ip: None, private_port: 22, public_port: None, typ: None },
            PortRecord { ip: None, private_port: 23, public_port: Some(0), typ: text("") },
        ]),
        created: Some(-1),
    };
    let info = ContainerInfo::from_record(record);
    assert_eq!(info.labels, labels);
    assert_eq!(info.ports.len(), 4);
    assert_eq!(info.ports[0].ip, "0.0.0.0");
    assert_eq!(info.ports[0].private_port, 80);
    assert_eq!(info.ports[0].public_port, 8080);
    assert_eq!(info.ports[0].type_, "tcp");
    assert_eq!(info.ports[1].ip, "");
    assert_eq!(info.ports[1].public_port, 0);
    assert_eq!(info.ports[1].type_, "udp");
    assert_eq!(info.ports[2].private_port, 22);
    assert_eq!(info.ports[2].type_, "tcp");
    assert_eq!(info.ports[3].type_, "");
    assert_eq!(info.created, u64::MAX);
}

#[test]
fn port_without_protocol_is_tcp() {
    let port = PortInfo::from_record(&PortRecord {
        ip: None,
        private_port: 443,
        public_port: Some(8443),
        typ: None,
    });
    assert_eq!(port.type_, "tcp");
    assert_eq!(port.ip, "");
    assert_eq!(port.private_port, 443);
    assert_eq!(port.public_port, 8443);
}

#[test]
fn optional_text_defaults_to_empty() {
    assert_eq!(text_or_default(&None), "");
    assert_eq!(text_or_default(&text("x")), "x");
}

#[test]
fn port_keys_split_at_the_slash() {
    assert_eq!(port_key_parts("80/tcp"), ("80".to_string(), "tcp".to_string()));
    assert_eq!(port_key_parts("53/udp"), ("53".to_string(), "udp".to_string()));
    assert_eq!(port_key_parts("80"), ("80".to_string(), "tcp".to_string()));
    assert_eq!(port_key_parts("80/"), ("80".to_string(), "".to_string()));
    assert_eq!(port_key_parts(""), ("".to_string(), "tcp".to_string()));
    assert_eq!(port_key_parts("80/tcp/x"), ("80".to_string(), "tcp".to_string()));
}

#[test]
fn one_port_can_have_several_bindings() {
    let entries = vec![
        PortEntry {
            container_port: "80/tcp".to_string(),
            bindings: Some(vec![
                HostBinding { host_ip: text("0.0.0.0"), host_port: text("8080") },
                HostBinding { host_ip: text("::"), host_port: text("8080") },
            ]),
        },
        PortEntry { container_port: "443/tcp".to_string(), bindings: None },
        PortEntry { container_port: "9/udp".to_string(), bindings: Some(vec![]) },
        PortEntry {
            container_port: "53".to_string(),
            bindings: Some(vec![HostBinding { host_ip: None, host_port: None }]),
        },
    ];
    let ports = expand_port_entries(&entries);
    assert_eq!(ports.len(), 3);
    assert_eq!(ports[0].host_ip, "0.0.0.0");
    assert_eq!(ports[0].host_port, "8080");
    assert_eq!(ports[0].container_port, "80");
    assert_eq!(ports[0].protocol, "tcp");
    assert_eq!(ports[1].host_ip, "::");
    assert_eq!(ports[1].host_port, "8080");
    assert_eq!(ports[1].container_port, "80");
    assert_eq!(ports[1].protocol, "tcp");
    assert_eq!(ports[2].host_ip, "");
    assert_eq!(ports[2].host_port, "");
    assert_eq!(ports[2].container_port, "53");
    assert_eq!(ports[2].protocol, "tcp");
    assert!(expand_port_entries(&Vec::new()).is_empty());
}

#[test]
fn mounts_become_volumes() {
    let mounts = vec![
        MountRecord { source: text("/data"), destination: text("/var/lib/data"), mode: text("rw") },
        MountRecord { source: None, destination: None, mode: None },
    ];
    let volumes = mount_volumes(&mounts);
    assert_eq!(volumes.len(), 2);
    assert_eq!(volumes[0].host_path, "/data");
    assert_eq!(volumes[0].container_path, "/var/lib/data");
    assert_eq!(volumes[0].mode, "rw");
    assert_eq!(volumes[1].host_path, "");
    assert_eq!(volumes[1].container_path, "");
    assert_eq!(volumes[1].mode, "");
}

#[test]
fn empty_inspect_result_defaults_everything() {
    let config = ContainerConfig::from_inspect("c1", empty_inspect());
    assert_eq!(config.id, "c1");
    assert_eq!(config.name, "");
    assert_eq!(config.image, "");
    assert_eq!(config.command, "");
    assert_eq!(config.created, "");
    assert_eq!(config.status, "unknown");
    assert!(config.ports.is_empty());
    assert!(config.volumes.is_empty());
    assert!(config.env_vars.is_empty());
    assert!(config.labels.is_empty());
    assert_eq!(config.network_mode, "");
    assert_eq!(config.restart_policy, "no");
}

#[test]
fn nested_objects_default_independently() {
    let mut record = empty_inspect();
    record.config = Some(InspectConfig { image: None, cmd: None, env: None, labels: None });
    record.state = Some(InspectState { status: None });
    record.network_settings = Some(InspectNetwork { ports: None });
    record.host_config = Some(InspectHost { network_mode: None, restart_policy: None });
    let config = ContainerConfig::from_inspect("c2", record);
    assert_eq!(config.image, "");
    assert_eq!(config.command, "");
    assert!(config.env_vars.is_empty());
    assert!(config.labels.is_empty());
    assert_eq!(config.status, "unknown");
    assert!(config.ports.is_empty());
    assert_eq!(config.network_mode, "");
    assert_eq!(config.restart_policy, "no");

    let mut record = empty_inspect();
    record.host_config = Some(InspectHost {
        network_mode: text("host"),
        restart_policy: Some(RestartRule { name: None }),
    });
    let config = ContainerConfig::from_inspect("c3", record);
    assert_eq!(config.network_mode, "host");
    assert_eq!(config.restart_policy, "no");
}

#[test]
fn full_inspect_result() {
    let mut labels = HashMap::new();
    labels.insert("a".to_string(), "b".to_string());
    let record = InspectRecord {
        name: text("/web-1"),
        created: text("2024-01-02T03:04:05.000000000Z"),
        config: Some(InspectConfig {
            image: text("nginx:latest"),
            cmd: Some(vec!["nginx".to_string(), "-g".to_string(), "daemon off;".to_string()]),
            env: Some(vec!["PATH=/bin".to_string(), "A=1".to_string()]),
            labels: Some(labels.clone()),
        }),
        state: Some(InspectState { status: text("running") }),
        network_settings: Some(InspectNetwork {
            ports: Some(vec![PortEntry {
                container_port: "80/tcp".to_string(),
                bindings: Some(vec![HostBinding { host_ip: text("0.0.0.0"), host_port: text("8080") }]),
            }]),
        }),
        mounts: Some(vec![MountRecord {
            source: text("/srv"),
            destination: text("/usr/share/nginx/html"),
            mode: text("ro"),
        }]),
        host_config: Some(InspectHost {
            network_mode: text("bridge"),
            restart_policy: Some(RestartRule { name: text("unless-stopped") }),
        }),
    };
    let config = ContainerConfig::from_inspect("0123456789ab", record);
    assert_eq!(config.id, "0123456789ab");
    assert_eq!(config.name, "web-1");
    assert_eq!(config.image, "nginx:latest");
    assert_eq!(config.command, "nginx -g daemon off;");
    assert_eq!(config.created, "2024-01-02T03:04:05.000000000Z");
    assert_eq!(config.status, "running");
    assert_eq!(config.ports.len(), 1);
    assert_eq!(config.ports[0].host_ip, "0.0.0.0");
    assert_eq!(config.ports[0].host_port, "8080");
    assert_eq!(config.ports[0].container_port, "80");
    assert_eq!(config.ports[0].protocol, "tcp");
    assert_eq!(config.volumes.len(), 1);
    assert_eq!(config.volumes[0].host_path, "/srv");
    assert_eq!(config.volumes[0].container_path, "/usr/share/nginx/html");
    assert_eq!(config.volumes[0].mode, "ro");
    assert_eq!(config.env_vars, vec!["PATH=/bin".to_string(), "A=1".to_string()]);
    assert_eq!(config.labels, labels);
    assert_eq!(config.network_mode, "bridge");
    assert_eq!(config.restart_policy, "unless-stopped");
}
