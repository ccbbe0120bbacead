//! The configuration of the notificator service.
use vstd::prelude::*;
use crate::config::{DatabaseConfig, HostingConfig, LogConfig, RabbitMqConfig};

verus! {

/// The notificator's settings: its gRPC address, database, broker and health endpoint.
#[derive(Debug, Clone, PartialEq, Eq)]
pub struct AppConfig {
    pub log: LogConfig,
    pub database: DatabaseConfig,
    pub grpc: HostingConfig,
    pub rabbitmq: RabbitMqConfig,
    pub health: HostingConfig,
}

} // verus!
