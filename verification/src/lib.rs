//! Connection and telemetry core of a control surface for a local container
//! engine: the connection state, the normalization of engine records and of
//! tool output into one model, the derivation of usage statistics from raw
//! counters, and the relay of engine streams to a sink.

pub mod command;
pub mod connection;
pub mod detail;
pub mod error;
pub mod listing;
pub mod model;
pub mod relay;
pub mod size;
pub mod stats;
pub mod text;
pub mod textmode;
pub mod timestamp;

pub use connection::{
    get_docker_client, initialize_docker, reset_docker_client, DockerState, DockerStatus,
};
pub use error::{to_string_error, DockerError, DockerResult};
pub use model::{ContainerConfig, ContainerInfo, ImageInfo, PortInfo, PortMapping, VolumeMapping};
pub use size::parse_size;
pub use stats::ContainerStats;
pub use timestamp::parse_timestamp;
