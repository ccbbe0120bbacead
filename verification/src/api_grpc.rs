//! The API's gRPC endpoint that the rotator calls to read a secret.
use vstd::prelude::*;
use crate::api_services::{ServiceError, ServiceResult};
use crate::grpc::{GrpcCode, GrpcStatus, spec_status};
use crate::ids::{parse_uuid, spec_parse_uuid, spec_uuid_text, uuid_text};
use crate::secrets::{ProviderConfig, Secret, StrategyConfig};

verus! {

/// AWS access in the gRPC answer.
#[derive(Debug, Clone, PartialEq, Eq)]
pub struct GrpcAwsConfig {
    pub role_arn: String,
}

/// The provider in the gRPC answer.
#[derive(Debug, Clone, PartialEq, Eq)]
pub enum GrpcProvider {
    Aws(GrpcAwsConfig),
}

/// A single-path strategy in the gRPC answer.
#[derive(Debug, Clone, PartialEq, Eq)]
pub struct GrpcSingleStrategy {
    pub path: String,
}

/// A blue/green strategy in the gRPC answer; the slot is `"blue"` or `"green"`.
#[derive(Debug, Clone, PartialEq, Eq)]
pub struct GrpcBlueGreenStrategy {
    pub blue_path: String,
    pub green_path: String,
    pub active_slot: String,
}

/// The strategy in the gRPC answer.
#[derive(Debug, Clone, PartialEq, Eq)]
pub enum GrpcStrategy {
    Single(GrpcSingleStrategy),
    BlueGreen(GrpcBlueGreenStrategy),
}

/// The gRPC answer to a read of one secret.
#[derive(Debug, Clone, PartialEq, Eq)]
pub struct GetSecretResponse {
    pub secret_id: String,
    pub provider: Option<GrpcProvider>,
    pub strategy: Option<GrpcStrategy>,
}

/// The id asked for, which must be a UUID; otherwise `INVALID_ARGUMENT`.
pub fn get_secret_request_id(secret_id: &str) -> (res: Result<u128, GrpcStatus>)
    ensures
        match spec_parse_uuid(secret_id@) {
            Some(id) => res == Ok::<u128, GrpcStatus>(id),
            None => res matches Err(s) && spec_status(s, GrpcCode::InvalidArgument, "invalid secret_id"@),
        },
{
    match parse_uuid(secret_id) {
        Some(id) => Ok(id),
        None => Err(GrpcStatus::new(GrpcCode::InvalidArgument, "invalid secret_id")),
    }
}

/// The gRPC answer to a read: the secret's id as text, its provider and its
/// strategy; `NOT_FOUND` for a missing secret; `INTERNAL` otherwise, naming a
/// database error as such.
pub fn get_secret_response(result: ServiceResult<Secret>) -> (res: Result<GetSecretResponse, GrpcStatus>)
    ensures
        match result {
            Ok(secret) => res matches Ok(r) && {
                &&& r.secret_id@ == spec_uuid_text(secret.id)
                &&& spec_parse_uuid(r.secret_id@) == Some(secret.id)
                &&& r.provider matches Some(GrpcProvider::Aws(aws)) && (secret.provider matches ProviderConfig::Aws(c)
                    && aws.role_arn@ == c.role_arn@)
                &&& match (r.strategy, secret.strategy) {
                    (Some(GrpcStrategy::Single(g)), StrategyConfig::Single(c)) => g.path@ == c.path@,
                    (Some(GrpcStrategy::BlueGreen(g)), StrategyConfig::BlueGreen(c)) => {
                        &&& g.blue_path@ == c.blue_path@
                        &&& g.green_path@ == c.green_path@
                        &&& g.active_slot@ == c.active_slot.spec_name()
                    },
                    _ => false,
                }
            },
            Err(ServiceError::NotFound) => res matches Err(s) && spec_status(s, GrpcCode::NotFound, "secret not found"@),
            Err(ServiceError::PersistenceError(m)) => res matches Err(s)
                && spec_status(s, GrpcCode::Internal, "database error: "@ + m@),
            Err(e) => res matches Err(s) && spec_status(s, GrpcCode::Internal, "error: "@ + e.spec_describe()),
        },
{
    match result {
        Ok(secret) => {
            let provider = Some(
                match secret.provider {
                    ProviderConfig::Aws(aws) => GrpcProvider::Aws(GrpcAwsConfig { role_arn: aws.role_arn }),
                },
            );
            let strategy = Some(
                match secret.strategy {
                    StrategyConfig::Single(s) => GrpcStrategy::Single(GrpcSingleStrategy { path: s.path }),
                    StrategyConfig::BlueGreen(bg) => GrpcStrategy::BlueGreen(
                        GrpcBlueGreenStrategy {
                            active_slot: bg.active_slot.name(),
                            blue_path: bg.blue_path,
                            green_path: bg.green_path,
                        },
                    ),
                },
            );
            Ok(GetSecretResponse { secret_id: uuid_text(secret.id), provider, strategy })
        },
        Err(ServiceError::NotFound) => Err(GrpcStatus::new(GrpcCode::NotFound, "secret not found")),
        Err(ServiceError::PersistenceError(e)) => {
            let mut m = String::from_str("database error: ");
            m.append(e.as_str());
            Err(GrpcStatus::with_message(GrpcCode::Internal, m))
        },
        Err(e) => {
            let mut m = String::from_str("error: ");
            m.append(e.describe().as_str());
            Err(GrpcStatus::with_message(GrpcCode::Internal, m))
        },
    }
}

} // verus!
