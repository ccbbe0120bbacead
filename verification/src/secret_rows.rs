//! How the API stores secrets: the columns written for a new secret, and the
//! secret read back from a joined row.
use vstd::prelude::*;
use crate::secrets::{
    ActiveSlot, AwsProviderConfig, BlueGreenStrategyConfig, ProviderConfig, ProviderView, Secret,
    SecretView, SingleStrategyConfig, StrategyConfig, StrategyView,
};
use crate::text::text_eq;

verus! {

/// The stored form of an active slot.
#[derive(Debug, Clone, Copy, PartialEq, Eq, Structural)]
pub enum Slot {
    Blue,
    Green,
}

impl From<Slot> for ActiveSlot {
    fn from(slot: Slot) -> (res: ActiveSlot) {
        match slot {
            Slot::Blue => ActiveSlot::Blue,
            Slot::Green => ActiveSlot::Green,
        }
    }
}

impl vstd::std_specs::convert::FromSpecImpl<Slot> for ActiveSlot {
    open spec fn obeys_from_spec() -> bool {
        true
    }

    open spec fn from_spec(slot: Slot) -> ActiveSlot {
        match slot {
            Slot::Blue => ActiveSlot::Blue,
            Slot::Green => ActiveSlot::Green,
        }
    }
}

/// The stored form of an active slot.
pub open spec fn spec_slot_of(slot: ActiveSlot) -> Slot {
    match slot {
        ActiveSlot::Blue => Slot::Blue,
        ActiveSlot::Green => Slot::Green,
    }
}

/// A secret as the listing query returns it: its own columns joined with those
/// of its strategy (only the strategy's own columns are set).
#[derive(Debug)]
pub struct SecretRow {
    pub id: u128,
    pub cron: String,
    pub strategy_type: String,
    pub provider_type: String,
    pub aws_role_arn: Option<String>,
    pub created_at: chrono::NaiveDateTime,
    pub updated_at: Option<chrono::NaiveDateTime>,
    pub single_path: Option<String>,
    pub bg_blue_path: Option<String>,
    pub bg_green_path: Option<String>,
    pub bg_active_slot: Option<Slot>,
}

/// The content of a row.
pub struct SecretRowView {
    pub id: u128,
    pub cron: Seq<char>,
    pub strategy_type: Seq<char>,
    pub provider_type: Seq<char>,
    pub aws_role_arn: Option<Seq<char>>,
    pub created_at: chrono::NaiveDateTime,
    pub updated_at: Option<chrono::NaiveDateTime>,
    pub single_path: Option<Seq<char>>,
    pub bg_blue_path: Option<Seq<char>>,
    pub bg_green_path: Option<Seq<char>>,
    pub bg_active_slot: Option<Slot>,
}

/// The content of an optional text.
pub open spec fn spec_opt_text(t: Option<String>) -> Option<Seq<char>> {
    match t {
        Some(s) => Some(s@),
        None => None,
    }
}

impl View for SecretRow {
    type V = SecretRowView;

    open spec fn view(&self) -> SecretRowView {
        SecretRowView {
            id: self.id,
            cron: self.cron@,
            strategy_type: self.strategy_type@,
            provider_type: self.provider_type@,
            aws_role_arn: spec_opt_text(self.aws_role_arn),
            created_at: self.created_at,
            updated_at: self.updated_at,
            single_path: spec_opt_text(self.single_path),
            bg_blue_path: spec_opt_text(self.bg_blue_path),
            bg_green_path: spec_opt_text(self.bg_green_path),
            bg_active_slot: self.bg_active_slot,
        }
    }
}

/// The strategy type column of a single-path secret.
pub open spec fn spec_single_type() -> Seq<char> {
    "single"@
}

/// The strategy type column of a blue/green secret.
pub open spec fn spec_blue_green_type() -> Seq<char> {
    "blue_green"@
}

/// The provider type column of an AWS secret.
pub open spec fn spec_aws_type() -> Seq<char> {
    "aws"@
}

impl StrategyConfig {
    /// The strategy type column: `"single"` or `"blue_green"`.
    pub open spec fn spec_column_name(self) -> Seq<char> {
        match self {
            StrategyConfig::Single(_) => spec_single_type(),
            StrategyConfig::BlueGreen(_) => spec_blue_green_type(),
        }
    }

    /// The strategy type column.
    pub fn column_name(&self) -> (res: &'static str)
        ensures
            res@ == self.spec_column_name(),
    {
        match self {
            StrategyConfig::Single(_) => "single",
            StrategyConfig::BlueGreen(_) => "blue_green",
        }
    }
}

impl ProviderConfig {
    /// The provider type column: `"aws"`.
    pub open spec fn spec_column_name(self) -> Seq<char> {
        match self {
            ProviderConfig::Aws(_) => spec_aws_type(),
        }
    }

    /// The provider type column.
    pub fn column_name(&self) -> (res: &'static str)
        ensures
            res@ == self.spec_column_name(),
    {
        match self {
            ProviderConfig::Aws(_) => "aws",
        }
    }
}

impl SecretRowView {
    /// A row that names a known strategy and provider and holds their columns.
    pub open spec fn well_formed(self) -> bool {
        &&& (self.strategy_type == spec_single_type() && self.single_path is Some)
            || (self.strategy_type == spec_blue_green_type() && self.bg_blue_path is Some
            && self.bg_green_path is Some && self.bg_active_slot is Some)
        &&& self.provider_type == spec_aws_type() && self.aws_role_arn is Some
    }

    /// The secret a well-formed row holds.
    pub open spec fn spec_secret(self) -> SecretView {
        SecretView {
            id: self.id,
            strategy: if self.strategy_type == spec_single_type() {
                StrategyView::Single { path: self.single_path->0 }
            } else {
                StrategyView::BlueGreen {
                    blue_path: self.bg_blue_path->0,
                    green_path: self.bg_green_path->0,
                    active_slot: match self.bg_active_slot->0 {
                        Slot::Blue => ActiveSlot::Blue,
                        Slot::Green => ActiveSlot::Green,
                    },
                }
            },
            provider: ProviderView::Aws { role_arn: self.aws_role_arn->0 },
            created_at: self.created_at,
            updated_at: self.updated_at,
        }
    }
}

/// The row that the listing query returns for a stored secret with this
/// schedule: its strategy's columns set, the others empty.
pub open spec fn spec_row_of(s: SecretView, cron: Seq<char>) -> SecretRowView {
    SecretRowView {
        id: s.id,
        cron,
        strategy_type: match s.strategy {
            StrategyView::Single { .. } => spec_single_type(),
            StrategyView::BlueGreen { .. } => spec_blue_green_type(),
        },
        provider_type: spec_aws_type(),
        aws_role_arn: match s.provider {
            ProviderView::Aws { role_arn } => Some(role_arn),
        },
        created_at: s.created_at,
        updated_at: s.updated_at,
        single_path: match s.strategy {
            StrategyView::Single { path } => Some(path),
            _ => None,
        },
        bg_blue_path: match s.strategy {
            StrategyView::BlueGreen { blue_path, .. } => Some(blue_path),
            _ => None,
        },
        bg_green_path: match s.strategy {
            StrategyView::BlueGreen { green_path, .. } => Some(green_path),
            _ => None,
        },
        bg_active_slot: match s.strategy {
            StrategyView::BlueGreen { active_slot, .. } => Some(spec_slot_of(active_slot)),
            _ => None,
        },
    }
}

/// What is read gives back what was stored: the row of a stored secret is
/// well formed, and reading it yields the same secret.
pub proof fn lemma_stored_secret_reads_back(s: SecretView, cron: Seq<char>)
    ensures
        spec_row_of(s, cron).well_formed(),
        spec_row_of(s, cron).spec_secret() == s,
{
    reveal_strlit("single");
    reveal_strlit("blue_green");
    let a = spec_single_type();
    let b = spec_blue_green_type();
    assert(a.len() != b.len());
    match s.strategy {
        StrategyView::Single { .. } => {},
        StrategyView::BlueGreen { active_slot, .. } => {
            assert(spec_row_of(s, cron).strategy_type != spec_single_type());
            match active_slot {
                ActiveSlot::Blue => {},
                ActiveSlot::Green => {},
            }
        },
    }
}

/// The row that the listing query returns for a newly stored secret: the
/// strategy and provider type columns hold what `secret_insert` writes for the
/// request, the strategy's own columns hold its paths and slot, and the row has
/// the new id and creation time and no update time.
pub open spec fn spec_new_secret_row(request: AddSecretRequest, id: u128, created_at: chrono::NaiveDateTime) -> SecretRowView {
    SecretRowView {
        id,
        cron: request.cron_expression@,
        strategy_type: request.strategy.spec_column_name(),
        provider_type: request.provider.spec_column_name(),
        aws_role_arn: match request.provider {
            ProviderConfig::Aws(aws) => Some(aws.role_arn@),
        },
        created_at,
        updated_at: None,
        single_path: match request.strategy {
            StrategyConfig::Single(s) => Some(s.path@),
            _ => None,
        },
        bg_blue_path: match request.strategy {
            StrategyConfig::BlueGreen(bg) => Some(bg.blue_path@),
            _ => None,
        },
        bg_green_path: match request.strategy {
            StrategyConfig::BlueGreen(bg) => Some(bg.green_path@),
            _ => None,
        },
        bg_active_slot: match request.strategy {
            StrategyConfig::BlueGreen(bg) => Some(spec_slot_of(bg.active_slot)),
            _ => None,
        },
    }
}

/// A new secret reads back as it was saved: the type names written for its
/// strategy and provider are the ones the reader maps back to that strategy
/// and provider, so the stored row is well formed and reads as a secret with
/// the request's strategy (paths and slot) and provider, the new id and
/// creation time, and no update time.
pub proof fn lemma_new_secret_reads_back(request: AddSecretRequest, id: u128, created_at: chrono::NaiveDateTime)
    ensures
        spec_new_secret_row(request, id, created_at).well_formed(),
        spec_new_secret_row(request, id, created_at).spec_secret() == (SecretView {
            id,
            strategy: request.strategy@,
            provider: request.provider@,
            created_at,
            updated_at: None,
        }),
{
    reveal_strlit("single");
    reveal_strlit("blue_green");
    reveal_strlit("aws");
    assert(spec_single_type().len() != spec_blue_green_type().len());
    match request.strategy {
        StrategyConfig::Single(_) => {},
        StrategyConfig::BlueGreen(bg) => {
            match bg.active_slot {
                ActiveSlot::Blue => {},
                ActiveSlot::Green => {},
            }
        },
    }
}

impl SecretRow {
    /// Whether the row names a known strategy and provider and holds their columns.
    pub fn is_well_formed(&self) -> (res: bool)
        ensures
            res == self@.well_formed(),
    {
        let strategy_ok = (text_eq(self.strategy_type.as_str(), "single") && self.single_path.is_some())
            || (text_eq(self.strategy_type.as_str(), "blue_green") && self.bg_blue_path.is_some()
            && self.bg_green_path.is_some() && self.bg_active_slot.is_some());
        let provider_ok = text_eq(self.provider_type.as_str(), "aws") && self.aws_role_arn.is_some();
        strategy_ok && provider_ok
    }
}

impl Secret {
    /// The secret a row holds. A row that does not name a known strategy and
    /// provider, or lacks their columns, is refused: the store's schema rules
    /// such rows out.
    pub fn from(row: SecretRow) -> (res: Secret)
        requires
            row@.well_formed(),
        ensures
            res@ == row@.spec_secret(),
    {
        proof {
            reveal_strlit("single");
            reveal_strlit("blue_green");
            assert(spec_single_type().len() != spec_blue_green_type().len());
        }
        let strategy = if text_eq(row.strategy_type.as_str(), "single") {
            StrategyConfig::Single(SingleStrategyConfig { path: row.single_path.unwrap() })
        } else {
            StrategyConfig::BlueGreen(
                BlueGreenStrategyConfig {
                    blue_path: row.bg_blue_path.unwrap(),
                    green_path: row.bg_green_path.unwrap(),
                    active_slot: ActiveSlot::from(row.bg_active_slot.unwrap()),
                },
            )
        };
        let provider = ProviderConfig::Aws(AwsProviderConfig { role_arn: row.aws_role_arn.unwrap() });
        Secret { id: row.id, strategy, provider, created_at: row.created_at, updated_at: row.updated_at }
    }
}

/// A request to store a new secret.
#[derive(Debug, Clone, PartialEq, Eq)]
pub struct AddSecretRequest {
    pub cron_expression: String,
    pub strategy: StrategyConfig,
    pub provider: ProviderConfig,
}

/// A request to delete a secret.
#[derive(Debug, Clone, Copy, PartialEq, Eq)]
pub struct DeleteSecretRequest {
    pub id: u128,
}

/// A request for one page of secrets, newest first.
#[derive(Debug, Clone, Copy, PartialEq, Eq)]
pub struct ListSecretsRequest {
    pub limit: i64,
    pub offset: i64,
}

/// One page of secrets and the number of all secrets.
#[derive(Debug)]
pub struct SecretsPage {
    pub items: Vec<Secret>,
    pub total: i64,
}

/// The row of the strategy's own table for a new secret.
#[derive(Debug, Clone, PartialEq, Eq)]
pub enum StrategyInsert {
    Single { path: String },
    BlueGreen { blue_path: String, green_path: String },
}

/// The columns written for a new secret.
#[derive(Debug, Clone, PartialEq, Eq)]
pub struct SecretInsert {
    pub cron: String,
    pub strategy_type: &'static str,
    pub provider_type: &'static str,
    pub aws_role_arn: String,
    pub strategy: StrategyInsert,
}

/// The columns written for a new secret: its schedule, the type names of its
/// strategy and provider, its role, and its strategy's paths.
pub fn secret_insert(request: &AddSecretRequest) -> (res: SecretInsert)
    ensures
        res.cron@ == request.cron_expression@,
        res.strategy_type@ == request.strategy.spec_column_name(),
        res.provider_type@ == request.provider.spec_column_name(),
        match request.provider {
            ProviderConfig::Aws(aws) => res.aws_role_arn@ == aws.role_arn@,
        },
        match (request.strategy, res.strategy) {
            (StrategyConfig::Single(s), StrategyInsert::Single { path }) => path@ == s.path@,
            (StrategyConfig::BlueGreen(bg), StrategyInsert::BlueGreen { blue_path, green_path }) =>
                blue_path@ == bg.blue_path@ && green_path@ == bg.green_path@,
            _ => false,
        },
{
    let aws_role_arn = match &request.provider {
        ProviderConfig::Aws(aws) => aws.role_arn.clone(),
    };
    let strategy = match &request.strategy {
        StrategyConfig::Single(s) => StrategyInsert::Single { path: s.path.clone() },
        StrategyConfig::BlueGreen(bg) => StrategyInsert::BlueGreen {
            blue_path: bg.blue_path.clone(),
            green_path: bg.green_path.clone(),
        },
    };
    SecretInsert {
        cron: request.cron_expression.clone(),
        strategy_type: request.strategy.column_name(),
        provider_type: request.provider.column_name(),
        aws_role_arn,
        strategy,
    }
}

/// The secret that saving a request gives back: the request's strategy and
/// provider under the new id and creation time, never updated.
pub fn saved_secret(request: AddSecretRequest, id: u128, created_at: chrono::NaiveDateTime) -> (res: Secret)
    ensures
        res.id == id,
        res.strategy@ == request.strategy@,
        res.provider@ == request.provider@,
        res.created_at == created_at,
        res.updated_at is None,
{
    Secret {
        id,
        strategy: request.strategy,
        provider: request.provider,
        created_at,
        updated_at: None,
    }
}

} // verus!
