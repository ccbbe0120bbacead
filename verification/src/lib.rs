//! Cipher: the decision logic of a secret rotation service, with its contracts.
//!
//! The I/O around it (HTTP, gRPC, AMQP, Postgres) lives in the companion program;
//! this library holds the domain model, request validation, reply decisions,
//! event routing and the webhook delivery state machines.
pub mod secrets;
pub mod ids;
pub mod delivery;
pub mod text;
pub mod events;
pub mod store;
pub mod notify;
pub mod validation;
pub mod secret_models;
pub mod webhook_models;
pub mod config;
pub mod api_config;
pub mod notificator_config;
pub mod secret_rows;
pub mod grpc;
pub mod api_services;
pub mod http_replies;
pub mod api_grpc;
pub mod notificator_grpc;
pub mod amqp;
pub mod trace;
