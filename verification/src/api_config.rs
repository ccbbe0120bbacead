//! The configuration of the API service.
use vstd::prelude::*;
use crate::config::{DatabaseConfig, HostingConfig, LogConfig, RabbitMqConfig};

verus! {

/// The API service's settings: where it listens (HTTP and gRPC), its
/// database, the broker, and where the other services are reached.
#[derive(Debug, Clone, PartialEq, Eq)]
pub struct AppConfig {
    pub log: LogConfig,
    pub database: DatabaseConfig,
    pub scheduler: HostingConfig,
    pub api: HostingConfig,
    pub grpc: HostingConfig,
    pub notificator: HostingConfig,
    pub rotator: HostingConfig,
    pub rabbitmq: RabbitMqConfig,
}

} // verus!
