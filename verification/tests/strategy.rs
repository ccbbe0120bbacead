use cipher::secret_models::{SecretResponse, StrategyResponse, ProviderResponse};
use cipher::secret_rows::{saved_secret, secret_insert, AddSecretRequest, SecretRow, Slot, StrategyInsert};
use cipher::secrets::{
    ActiveSlot, AwsProviderConfig, BlueGreenStrategyConfig, ProviderConfig, Secret,
    SingleStrategyConfig, StrategyConfig,
};

fn when() -> chrono::NaiveDateTime {
    chrono::NaiveDate::from_ymd_opt(2026, 1, 1).unwrap().and_hms_opt(0, 0, 0).unwrap()
}

fn bg(active: ActiveSlot) -> BlueGreenStrategyConfig {
    BlueGreenStrategyConfig {
        blue_path: "prod/key-blue".to_string(),
        green_path: "prod/key-green".to_string(),
        active_slot: active,
    }
}

#[test]
fn inactive_path_of_each_strategy() {
    assert_eq!(StrategyConfig::BlueGreen(bg(ActiveSlot::Blue)).inactive_path(), Some("prod/key-green"));
    assert_eq!(StrategyConfig::BlueGreen(bg(ActiveSlot::Green)).inactive_path(), Some("prod/key-blue"));
    let single = StrategyConfig::Single(SingleStrategyConfig { path: "p".to_string() });
    assert_eq!(single.inactive_path(), None);
}

#[test]
fn flipping_swaps_slots_and_twice_restores() {
    assert_eq!(ActiveSlot::Blue.flipped(), ActiveSlot::Green);
    assert_eq!(ActiveSlot::Green.flipped(), ActiveSlot::Blue);
    assert_eq!(ActiveSlot::Blue.flipped().flipped(), ActiveSlot::Blue);
    assert_eq!(ActiveSlot::Blue.name(), "blue");
    assert_eq!(ActiveSlot::Green.name(), "green");
    assert_eq!(bg(ActiveSlot::Green).active_path(), "prod/key-green");
}

#[test]
fn slot_converts_to_active_slot() {
    assert_eq!(ActiveSlot::from(Slot::Blue), ActiveSlot::Blue);
    assert_eq!(ActiveSlot::from(Slot::Green), ActiveSlot::Green);
}

#[test]
fn secret_response_names_the_slot() {
    let s = Secret {
        id: 7,
        strategy: StrategyConfig::BlueGreen(bg(ActiveSlot::Green)),
        provider: ProviderConfig::Aws(AwsProviderConfig { role_arn: "arn:aws:iam::1:role/R".to_string() }),
        created_at: when(),
        updated_at: None,
    };
    let r = SecretResponse::from(s);
    assert_eq!(r.id, 7);
    match r.strategy {
        StrategyResponse::BlueGreen(b) => {
            assert_eq!(b.active_slot, "green");
            assert_eq!(b.blue_path, "prod/key-blue");
            assert_eq!(b.green_path, "prod/key-green");
        }
        _ => panic!("expected blue/green"),
    }
    let ProviderResponse::Aws(a) = r.provider;
    assert_eq!(a.role_arn, "arn:aws:iam::1:role/R");
    assert_eq!(r.created_at, when());
}

fn row(strategy_type: &str) -> SecretRow {
    SecretRow {
        id: 9,
        cron: "0 0 * * * * *".to_string(),
        strategy_type: strategy_type.to_string(),
        provider_type: "aws".to_string(),
        aws_role_arn: Some("arn:aws:iam::1:role/R".to_string()),
        created_at: when(),
        updated_at: None,
        single_path: None,
        bg_blue_path: None,
        bg_green_path: None,
        bg_active_slot: None,
    }
}

#[test]
fn rows_read_as_secrets() {
    let mut single = row("single");
    single.single_path = Some("prod/one".to_string());
    assert!(single.is_well_formed());
    let s = Secret::from(single);
    assert_eq!(s.strategy, StrategyConfig::Single(SingleStrategyConfig { path: "prod/one".to_string() }));

    let mut blue_green = row("blue_green");
    blue_green.bg_blue_path = Some("prod/key-blue".to_string());
    blue_green.bg_green_path = Some("prod/key-green".to_string());
    blue_green.bg_active_slot = Some(Slot::Green);
    let s = Secret::from(blue_green);
    assert_eq!(s.strategy, StrategyConfig::BlueGreen(bg(ActiveSlot::Green)));
    assert_eq!(s.id, 9);
}

#[test]
fn malformed_rows_are_recognised() {
    assert!(!row("single").is_well_formed());
    assert!(!row("other").is_well_formed());
    let mut no_provider = row("single");
    no_provider.single_path = Some("p".to_string());
    no_provider.provider_type = "gcp".to_string();
    assert!(!no_provider.is_well_formed());
}

#[test]
fn new_secret_columns() {
    let req = AddSecretRequest {
        cron_expression: "0 30 9 * * * *".to_string(),
        strategy: StrategyConfig::BlueGreen(bg(ActiveSlot::Blue)),
        provider: ProviderConfig::Aws(AwsProviderConfig { role_arn: "arn:x".to_string() }),
    };
    let insert = secret_insert(&req);
    assert_eq!(insert.strategy_type, "blue_green");
    assert_eq!(insert.provider_type, "aws");
    assert_eq!(insert.aws_role_arn, "arn:x");
    assert_eq!(insert.cron, "0 30 9 * * * *");
    assert_eq!(
        insert.strategy,
        StrategyInsert::BlueGreen { blue_path: "prod/key-blue".to_string(), green_path: "prod/key-green".to_string() }
    );
    let saved = saved_secret(req, 3, when());
    assert_eq!(saved.id, 3);
    assert_eq!(saved.updated_at, None);
    assert_eq!(saved.strategy, StrategyConfig::BlueGreen(bg(ActiveSlot::Blue)));
}
