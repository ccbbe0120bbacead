use cipher::secret_models::{
    AwsConfigRequest, BlueGreenStrategyRequest, ProviderRequest, SaveSecretRequest,
    SingleStrategyRequest, StrategyRequest,
};
use cipher::validation::{ErrorResponse, ValidationErrors};

fn single_strategy() -> StrategyRequest {
    StrategyRequest::Single(SingleStrategyRequest {
        path: "prod/payments/key".to_string(),
    })
}

fn blue_green_strategy() -> StrategyRequest {
    StrategyRequest::BlueGreen(BlueGreenStrategyRequest {
        blue_path: "prod/key-blue".to_string(),
        green_path: "prod/key-green".to_string(),
    })
}

fn aws_provider() -> ProviderRequest {
    ProviderRequest::Aws(AwsConfigRequest {
        role_arn: "arn:aws:iam::123456789012:role/Rotator".to_string(),
    })
}

fn valid_base(strategy: StrategyRequest, provider: ProviderRequest) -> SaveSecretRequest {
    SaveSecretRequest {
        cron_expression: "0 0 * * * * *".to_string(),
        strategy,
        provider,
    }
}

fn field_codes(err: &ValidationErrors, field: &str) -> Option<Vec<&'static str>> {
    err.field_errors()
        .into_iter()
        .find(|f| f.field.name() == field)
        .map(|f| f.errors.iter().map(|e| e.code.name()).collect())
}

#[test]
fn valid_single_with_aws() {
    assert!(
        valid_base(single_strategy(), aws_provider())
            .validate()
            .is_ok()
    );
}

#[test]
fn valid_blue_green_with_aws() {
    assert!(
        valid_base(blue_green_strategy(), aws_provider())
            .validate()
            .is_ok()
    );
}

#[test]
fn identical_blue_green_paths_rejected() {
    let bg = BlueGreenStrategyRequest {
        blue_path: "prod/same".to_string(),
        green_path: "prod/same".to_string(),
    };
    let err = bg.validate().unwrap_err();
    let codes = field_codes(&err, "__all__").unwrap();
    assert!(codes.contains(&"identical_paths"), "got: {:?}", codes);
}

#[test]
fn invalid_cron_rejected() {
    let req = SaveSecretRequest {
        cron_expression: "not-a-cron".to_string(),
        strategy: single_strategy(),
        provider: aws_provider(),
    };
    let err = req.validate().unwrap_err();
    assert!(field_codes(&err, "cron_expression").is_some());
}

#[test]
fn short_role_arn_rejected() {
    let aws = AwsConfigRequest {
        role_arn: "short".to_string(),
    };
    let err = aws.validate().unwrap_err();
    assert!(field_codes(&err, "role_arn").is_some());
}

#[test]
fn invalid_cron_message_names_the_expression() {
    let req = SaveSecretRequest {
        cron_expression: "not-a-cron".to_string(),
        strategy: single_strategy(),
        provider: aws_provider(),
    };
    let err = req.validate().unwrap_err();
    assert_eq!(
        ErrorResponse::from_validation_errors(&err).message,
        "Invalid cron expression: 'not-a-cron'. Allowed format: sec min hour dom month dow year"
    );
}

#[test]
fn empty_cron_reports_length_and_cron_errors() {
    let req = SaveSecretRequest {
        cron_expression: "".to_string(),
        strategy: single_strategy(),
        provider: aws_provider(),
    };
    let err = req.validate().unwrap_err();
    assert_eq!(
        field_codes(&err, "cron_expression").unwrap(),
        vec!["length", "invalid_cron_expression"]
    );
    assert_eq!(
        ErrorResponse::from_validation_errors(&err).message,
        "Invalid value for 'cron_expression', Invalid cron expression: ''. Allowed format: sec min hour dom month dow year"
    );
}

#[test]
fn nested_errors_are_left_out_of_the_message() {
    let req = SaveSecretRequest {
        cron_expression: "0 0 * * * * *".to_string(),
        strategy: single_strategy(),
        provider: ProviderRequest::Aws(AwsConfigRequest { role_arn: "short".to_string() }),
    };
    let err = req.validate().unwrap_err();
    assert!(err.field_errors().is_empty());
    assert_eq!(err.entries().len(), 1);
    assert_eq!(ErrorResponse::from_validation_errors(&err).message, "");
}

#[test]
fn blue_green_path_length_errors_skip_the_identity_check() {
    let bg = BlueGreenStrategyRequest {
        blue_path: "".to_string(),
        green_path: "".to_string(),
    };
    let err = bg.validate().unwrap_err();
    assert_eq!(field_codes(&err, "blue_path").unwrap(), vec!["length"]);
    assert_eq!(field_codes(&err, "green_path").unwrap(), vec!["length"]);
    assert!(field_codes(&err, "__all__").is_none());
    let message = ErrorResponse::from_validation_errors(&err).message;
    let mut parts: Vec<&str> = message.split("; ").collect();
    parts.sort();
    assert_eq!(parts, vec!["Invalid value for 'blue_path'", "Invalid value for 'green_path'"]);
}

#[test]
fn long_path_rejected_and_boundary_accepted() {
    let ok = SingleStrategyRequest { path: "p".repeat(255) };
    assert!(ok.validate().is_ok());
    let long = SingleStrategyRequest { path: "p".repeat(256) };
    assert!(field_codes(&long.validate().unwrap_err(), "path").is_some());
    let arn20 = AwsConfigRequest { role_arn: "a".repeat(20) };
    assert!(arn20.validate().is_ok());
}
