//! The HTTP models of secrets: create requests with their validation rules,
//! and the replies built from the stored secrets.
use vstd::prelude::*;
use crate::secrets::{
    ActiveSlot, AwsProviderConfig, BlueGreenStrategyConfig, ProviderConfig, Secret,
    SingleStrategyConfig, StrategyConfig,
};
use crate::validation::{
    ErrorCode, EntryView, Field, ValidationError, ValidationErrorView, ValidationErrors,
    length_error, length_within, spec_all_field_level, spec_errors_view, spec_field_entry,
    spec_length_error, spec_outcome, spec_struct_entry,
};

verus! {

/// The value that `cron::Schedule`'s `FromStr` gives for an expression: whether
/// it parses as a schedule (`sec min hour dom month dow [year]`).
pub uninterp spec fn spec_cron_accepts(expression: Seq<char>) -> bool;

/// Calls `cron::Schedule::from_str` on an expression. Claimed: it succeeds
/// exactly when the named predicate `spec_cron_accepts` holds of the text; the
/// schedule itself is not kept.
#[verifier::external_body]
fn cron_accepts(expression: &str) -> (res: bool)
    ensures
        res == spec_cron_accepts(expression@),
{
    match expression.parse::<cron::Schedule>() {
        Ok(_) => true,
        Err(_) => false,
    }
}

/// The length errors of a text that must have between `min` and `max` characters.
pub open spec fn spec_length_errors(text: Seq<char>, min: nat, max: nat) -> Seq<ValidationErrorView> {
    if min <= text.len() && text.len() <= max {
        Seq::empty()
    } else {
        seq![spec_length_error()]
    }
}

fn length_errors(text: &String, min: u64, max: u64) -> (res: Vec<ValidationError>)
    ensures
        spec_errors_view(res@) == spec_length_errors(text@, min as nat, max as nat),
{
    let mut res: Vec<ValidationError> = Vec::new();
    if !length_within(text, min, max) {
        res.push(length_error());
    }
    proof {
        assert(spec_errors_view(res@) =~= spec_length_errors(text@, min as nat, max as nat));
    }
    res
}

/// The error of an expression that is not a cron expression.
pub open spec fn spec_cron_error(expression: Seq<char>) -> ValidationErrorView {
    ValidationErrorView {
        code: ErrorCode::InvalidCronExpression,
        message: Some(
            "Invalid cron expression: '"@ + expression
                + "'. Allowed format: sec min hour dom month dow year"@,
        ),
    }
}

/// Checks that a text is a cron expression.
pub fn validate_cron(expression: &str) -> (res: Result<(), ValidationError>)
    ensures
        match res {
            Ok(()) => spec_cron_accepts(expression@),
            Err(e) => !spec_cron_accepts(expression@) && e@ == spec_cron_error(expression@),
        },
{
    if cron_accepts(expression) {
        Ok(())
    } else {
        let mut message = String::from_str("Invalid cron expression: '");
        message.append(expression);
        message.append("'. Allowed format: sec min hour dom month dow year");
        Err(ValidationError { code: ErrorCode::InvalidCronExpression, message: Some(message) })
    }
}

/// The error of a blue/green request whose two paths are the same.
pub open spec fn spec_identical_paths_error() -> ValidationErrorView {
    ValidationErrorView {
        code: ErrorCode::IdenticalPaths,
        message: Some("blue_path and green_path must be different"@),
    }
}

/// A single-path strategy in a create request.
#[derive(Debug, Clone, PartialEq, Eq)]
pub struct SingleStrategyRequest {
    pub path: String,
}

/// A blue/green strategy in a create request.
#[derive(Debug, Clone, PartialEq, Eq)]
pub struct BlueGreenStrategyRequest {
    pub blue_path: String,
    pub green_path: String,
}

/// The strategy of a create request.
#[derive(Debug, Clone, PartialEq, Eq)]
pub enum StrategyRequest {
    Single(SingleStrategyRequest),
    BlueGreen(BlueGreenStrategyRequest),
}

/// AWS access in a create request.
#[derive(Debug, Clone, PartialEq, Eq)]
pub struct AwsConfigRequest {
    pub role_arn: String,
}

/// The provider of a create request.
#[derive(Debug, Clone, PartialEq, Eq)]
pub enum ProviderRequest {
    Aws(AwsConfigRequest),
}

/// Request payload for creating a new secret entry.
#[derive(Debug, Clone, PartialEq, Eq)]
pub struct SaveSecretRequest {
    /// Cron expression of the rotation schedule (sec min hour dom month dow year).
    pub cron_expression: String,
    pub strategy: StrategyRequest,
    pub provider: ProviderRequest,
}

/// Checks that the two paths of a blue/green request differ.
pub fn validate_blue_green_paths(req: &BlueGreenStrategyRequest) -> (res: Result<(), ValidationError>)
    ensures
        match res {
            Ok(()) => req.blue_path@ != req.green_path@,
            Err(e) => req.blue_path@ == req.green_path@ && e@ == spec_identical_paths_error(),
        },
{
    if req.blue_path == req.green_path {
        return Err(
            ValidationError {
                code: ErrorCode::IdenticalPaths,
                message: Some(String::from_str("blue_path and green_path must be different")),
            },
        );
    }
    Ok(())
}

impl SingleStrategyRequest {
    /// The errors of a single-path strategy: its path has 1 to 255 characters.
    pub open spec fn spec_errors(self) -> Seq<EntryView> {
        spec_field_entry(Field::Path, spec_length_errors(self.path@, 1, 255))
    }

    /// Checks the strategy.
    pub fn validate(&self) -> (res: Result<(), ValidationErrors>)
        ensures
            spec_outcome(res, self.spec_errors()),
    {
        let mut errors = ValidationErrors::new();
        errors.add_field(Field::Path, length_errors(&self.path, 1, 255));
        errors.into_result()
    }
}

impl BlueGreenStrategyRequest {
    /// The errors of the two paths: each has 1 to 255 characters.
    pub open spec fn spec_field_errors(self) -> Seq<EntryView> {
        spec_field_entry(Field::BluePath, spec_length_errors(self.blue_path@, 1, 255))
            + spec_field_entry(Field::GreenPath, spec_length_errors(self.green_path@, 1, 255))
    }

    /// The errors of a blue/green strategy: those of its paths, and when both
    /// paths pass, that they differ (reported under `"__all__"`).
    pub open spec fn spec_errors(self) -> Seq<EntryView> {
        if self.spec_field_errors().len() > 0 {
            self.spec_field_errors()
        } else if self.blue_path@ == self.green_path@ {
            spec_field_entry(Field::Schema, seq![spec_identical_paths_error()])
        } else {
            Seq::empty()
        }
    }

    /// Checks the strategy.
    pub fn validate(&self) -> (res: Result<(), ValidationErrors>)
        ensures
            spec_outcome(res, self.spec_errors()),
    {
        let mut errors = ValidationErrors::new();
        errors.add_field(Field::BluePath, length_errors(&self.blue_path, 1, 255));
        errors.add_field(Field::GreenPath, length_errors(&self.green_path, 1, 255));
        assert(errors@ =~= self.spec_field_errors());
        if errors.is_empty() {
            if let Err(e) = validate_blue_green_paths(self) {
                let mut schema: Vec<ValidationError> = Vec::new();
                schema.push(e);
                errors.add_field(Field::Schema, schema);
                assert(spec_errors_view(schema@) =~= seq![spec_identical_paths_error()]);
            }
        }
        proof {
            if self.spec_field_errors().len() == 0 {
                assert(errors@ =~= self.spec_errors());
            }
        }
        errors.into_result()
    }
}

impl StrategyRequest {
    /// The errors of the strategy.
    pub open spec fn spec_errors(self) -> Seq<EntryView> {
        match self {
            StrategyRequest::Single(s) => s.spec_errors(),
            StrategyRequest::BlueGreen(bg) => bg.spec_errors(),
        }
    }

    /// Checks the strategy.
    pub fn validate(&self) -> (res: Result<(), ValidationErrors>)
        ensures
            spec_outcome(res, self.spec_errors()),
    {
        match self {
            StrategyRequest::Single(s) => s.validate(),
            StrategyRequest::BlueGreen(bg) => bg.validate(),
        }
    }

    /// The stored form of the strategy: the same paths, and for a blue/green
    /// secret the blue slot active.
    pub open spec fn into_config_post(self, res: StrategyConfig) -> bool {
        match (self, res) {
            (StrategyRequest::Single(r), StrategyConfig::Single(c)) => c.path@ == r.path@,
            (StrategyRequest::BlueGreen(r), StrategyConfig::BlueGreen(c)) => {
                &&& c.blue_path@ == r.blue_path@
                &&& c.green_path@ == r.green_path@
                &&& c.active_slot == ActiveSlot::Blue
            },
            _ => false,
        }
    }

    /// The stored strategy: a new blue/green secret starts with the blue slot active.
    pub fn into_config(self) -> (res: StrategyConfig)
        ensures
            self.into_config_post(res),
    {
        match self {
            StrategyRequest::Single(s) => StrategyConfig::Single(SingleStrategyConfig { path: s.path }),
            StrategyRequest::BlueGreen(bg) => StrategyConfig::BlueGreen(
                BlueGreenStrategyConfig {
                    blue_path: bg.blue_path,
                    green_path: bg.green_path,
                    active_slot: ActiveSlot::Blue,
                },
            ),
        }
    }
}

/// The errors of a strategy are all reported on its own fields.
pub proof fn lemma_strategy_errors_field_level(s: StrategyRequest)
    ensures
        spec_all_field_level(s.spec_errors()),
{
}

impl AwsConfigRequest {
    /// The errors of AWS access: the role ARN has 20 to 2048 characters.
    pub open spec fn spec_errors(self) -> Seq<EntryView> {
        spec_field_entry(Field::RoleArn, spec_length_errors(self.role_arn@, 20, 2048))
    }

    /// Checks AWS access.
    pub fn validate(&self) -> (res: Result<(), ValidationErrors>)
        ensures
            spec_outcome(res, self.spec_errors()),
    {
        let mut errors = ValidationErrors::new();
        errors.add_field(Field::RoleArn, length_errors(&self.role_arn, 20, 2048));
        errors.into_result()
    }
}

impl ProviderRequest {
    /// The errors of the provider.
    pub open spec fn spec_errors(self) -> Seq<EntryView> {
        match self {
            ProviderRequest::Aws(aws) => aws.spec_errors(),
        }
    }

    /// Checks the provider.
    pub fn validate(&self) -> (res: Result<(), ValidationErrors>)
        ensures
            spec_outcome(res, self.spec_errors()),
    {
        match self {
            ProviderRequest::Aws(aws) => aws.validate(),
        }
    }

    /// The stored form of the provider: the same role.
    pub open spec fn into_config_post(self, res: ProviderConfig) -> bool {
        match (self, res) {
            (ProviderRequest::Aws(r), ProviderConfig::Aws(c)) => c.role_arn@ == r.role_arn@,
        }
    }

    /// The stored provider.
    pub fn into_config(self) -> (res: ProviderConfig)
        ensures
            self.into_config_post(res),
    {
        match self {
            ProviderRequest::Aws(aws) => ProviderConfig::Aws(AwsProviderConfig { role_arn: aws.role_arn }),
        }
    }
}

impl SaveSecretRequest {
    /// The errors of the cron expression: it has 1 to 255 characters and is a
    /// cron expression (both checks run).
    pub open spec fn spec_cron_errors(self) -> Seq<ValidationErrorView> {
        spec_length_errors(self.cron_expression@, 1, 255) + if spec_cron_accepts(
            self.cron_expression@,
        ) {
            Seq::empty()
        } else {
            seq![spec_cron_error(self.cron_expression@)]
        }
    }

    /// The errors of a create request: those of the cron expression, then those
    /// of the strategy and of the provider, each nested under its field.
    pub open spec fn spec_errors(self) -> Seq<EntryView> {
        spec_field_entry(Field::CronExpression, self.spec_cron_errors())
            + spec_struct_entry(Field::Strategy, self.strategy.spec_errors())
            + spec_struct_entry(Field::Provider, self.provider.spec_errors())
    }

    /// Checks a create request.
    pub fn validate(&self) -> (res: Result<(), ValidationErrors>)
        ensures
            spec_outcome(res, self.spec_errors()),
    {
        let mut errors = ValidationErrors::new();
        let mut cron = length_errors(&self.cron_expression, 1, 255);
        let ghost length_part = spec_errors_view(cron@);
        if let Err(e) = validate_cron(self.cron_expression.as_str()) {
            cron.push(e);
        }
        assert(spec_errors_view(cron@) =~= self.spec_cron_errors());
        errors.add_field(Field::CronExpression, cron);
        proof {
            lemma_strategy_errors_field_level(self.strategy);
        }
        errors.add_nested(Field::Strategy, self.strategy.validate());
        errors.add_nested(Field::Provider, self.provider.validate());
        assert(errors@ =~= self.spec_errors());
        errors.into_result()
    }
}

/// A create request is accepted only when each of its parts is: with no
/// errors, its cron expression, its strategy and its provider have none.
/// In particular a blue/green request whose two paths are equal is always
/// refused, with an error entry under `"strategy"`.
pub proof fn lemma_create_request_needs_valid_parts(req: SaveSecretRequest)
    ensures
        req.spec_errors().len() == 0 ==> {
            &&& req.spec_cron_errors().len() == 0
            &&& req.strategy.spec_errors().len() == 0
            &&& req.provider.spec_errors().len() == 0
        },
        (req.strategy matches StrategyRequest::BlueGreen(bg) && bg.blue_path@ == bg.green_path@) ==> {
            &&& req.strategy.spec_errors().len() > 0
            &&& req.spec_errors().len() > 0
            &&& exists|i: int| 0 <= i < req.spec_errors().len() && (#[trigger] req.spec_errors()[i]).field == Field::Strategy
        },
{
    let a = spec_field_entry(Field::CronExpression, req.spec_cron_errors());
    let b = spec_struct_entry(Field::Strategy, req.strategy.spec_errors());
    let c = spec_struct_entry(Field::Provider, req.provider.spec_errors());
    assert(req.spec_errors() == a + b + c);
    if req.strategy.spec_errors().len() > 0 {
        assert(req.spec_errors()[a.len() as int] == b[0]);
        assert(b[0].field == Field::Strategy);
    }
}

/// Which parts of a create request are accepted: a single path of 1 to 255
/// characters; blue and green paths of 1 to 255 characters that differ; a role
/// ARN of 20 to 2048 characters; a cron expression of 1 to 255 characters that
/// the cron crate accepts. A request is accepted exactly when all its parts are.
pub proof fn lemma_create_request_rules(req: SaveSecretRequest)
    ensures
        req.strategy matches StrategyRequest::Single(sp) ==> (req.strategy.spec_errors().len() == 0
            <==> 1 <= sp.path@.len() <= 255),
        req.strategy matches StrategyRequest::BlueGreen(bg) ==> (req.strategy.spec_errors().len() == 0
            <==> (1 <= bg.blue_path@.len() <= 255 && 1 <= bg.green_path@.len() <= 255
            && bg.blue_path@ != bg.green_path@)),
        req.provider matches ProviderRequest::Aws(aws) ==> (req.provider.spec_errors().len() == 0
            <==> 20 <= aws.role_arn@.len() <= 2048),
        req.spec_cron_errors().len() == 0 <==> (1 <= req.cron_expression@.len() <= 255
            && spec_cron_accepts(req.cron_expression@)),
        req.spec_errors().len() == 0 <==> (req.spec_cron_errors().len() == 0 && req.strategy.spec_errors().len() == 0
            && req.provider.spec_errors().len() == 0),
{
    let a = spec_field_entry(Field::CronExpression, req.spec_cron_errors());
    let b = spec_struct_entry(Field::Strategy, req.strategy.spec_errors());
    let c = spec_struct_entry(Field::Provider, req.provider.spec_errors());
    assert(req.spec_errors() == a + b + c);
    match req.strategy {
        StrategyRequest::Single(_) => {},
        StrategyRequest::BlueGreen(bg) => {
            let f = spec_field_entry(Field::BluePath, spec_length_errors(bg.blue_path@, 1, 255));
            let g = spec_field_entry(Field::GreenPath, spec_length_errors(bg.green_path@, 1, 255));
            assert(bg.spec_field_errors() == f + g);
        },
    }
}

/// Response returned after successful secret creation.
#[derive(Debug, Clone, Copy, PartialEq, Eq)]
pub struct SaveSecretResponse {
    pub id: u128,
}

/// A single-path strategy in a reply.
#[derive(Debug, Clone, PartialEq, Eq)]
pub struct SingleStrategyResponse {
    pub path: String,
}

/// A blue/green strategy in a reply; the active slot is `"blue"` or `"green"`.
#[derive(Debug, Clone, PartialEq, Eq)]
pub struct BlueGreenStrategyResponse {
    pub blue_path: String,
    pub green_path: String,
    pub active_slot: String,
}

/// The strategy in a reply.
#[derive(Debug, Clone, PartialEq, Eq)]
pub enum StrategyResponse {
    Single(SingleStrategyResponse),
    BlueGreen(BlueGreenStrategyResponse),
}

/// AWS access in a reply.
#[derive(Debug, Clone, PartialEq, Eq)]
pub struct AwsConfigResponse {
    pub role_arn: String,
}

/// The provider in a reply.
#[derive(Debug, Clone, PartialEq, Eq)]
pub enum ProviderResponse {
    Aws(AwsConfigResponse),
}

/// A single secret entry.
#[derive(Debug)]
pub struct SecretResponse {
    pub id: u128,
    pub strategy: StrategyResponse,
    pub provider: ProviderResponse,
    pub created_at: chrono::NaiveDateTime,
    pub updated_at: Option<chrono::NaiveDateTime>,
}

/// Response after activating a blue/green slot.
#[derive(Debug, Clone, PartialEq, Eq)]
pub struct ActivateBlueGreenResponse {
    pub active_slot: String,
}

/// The path rotated in place.
#[derive(Debug, Clone, PartialEq, Eq)]
pub struct SingleRotationResponse {
    pub path: String,
}

/// The slots of a blue/green secret after a rotation wrote its inactive slot.
#[derive(Debug, Clone, PartialEq, Eq)]
pub struct BlueGreenRotationResponse {
    pub active_slot: String,
    pub active_path: String,
    pub ready_slot: String,
    pub ready_path: String,
}

/// What a manual rotation did.
#[derive(Debug, Clone, PartialEq, Eq)]
pub enum RotationDetailsResponse {
    Single(SingleRotationResponse),
    BlueGreen(BlueGreenRotationResponse),
}

/// Whether a manual rotation is complete, or waits for activation.
#[derive(Debug, Clone, Copy, PartialEq, Eq, Structural)]
pub enum RotationStatus {
    Done,
    Ready,
}

/// Response after a manual rotation.
#[derive(Debug, Clone, PartialEq, Eq)]
pub struct RotateSecretResponse {
    pub status: RotationStatus,
    pub details: RotationDetailsResponse,
}

/// The reply form of a strategy: the same paths, the slot by name.
pub open spec fn spec_strategy_reply(reply: StrategyResponse, config: StrategyConfig) -> bool {
    match (reply, config) {
        (StrategyResponse::Single(r), StrategyConfig::Single(c)) => r.path@ == c.path@,
        (StrategyResponse::BlueGreen(r), StrategyConfig::BlueGreen(c)) => {
            &&& r.blue_path@ == c.blue_path@
            &&& r.green_path@ == c.green_path@
            &&& r.active_slot@ == c.active_slot.spec_name()
        },
        _ => false,
    }
}

/// The reply form of a provider: the same role.
pub open spec fn spec_provider_reply(reply: ProviderResponse, config: ProviderConfig) -> bool {
    match (reply, config) {
        (ProviderResponse::Aws(r), ProviderConfig::Aws(c)) => r.role_arn@ == c.role_arn@,
    }
}

impl SecretResponse {
    /// The reply form of a stored secret.
    pub fn from(s: Secret) -> (res: SecretResponse)
        ensures
            res.id == s.id,
            spec_strategy_reply(res.strategy, s.strategy),
            spec_provider_reply(res.provider, s.provider),
            res.created_at == s.created_at,
            res.updated_at == s.updated_at,
    {
        let strategy = match s.strategy {
            StrategyConfig::Single(single) => StrategyResponse::Single(
                SingleStrategyResponse { path: single.path },
            ),
            StrategyConfig::BlueGreen(bg) => StrategyResponse::BlueGreen(
                BlueGreenStrategyResponse {
                    active_slot: bg.active_slot.name(),
                    blue_path: bg.blue_path,
                    green_path: bg.green_path,
                },
            ),
        };
        let provider = match s.provider {
            ProviderConfig::Aws(aws) => ProviderResponse::Aws(AwsConfigResponse { role_arn: aws.role_arn }),
        };
        SecretResponse {
            id: s.id,
            strategy,
            provider,
            created_at: s.created_at,
            updated_at: s.updated_at,
        }
    }
}

} // verus!
