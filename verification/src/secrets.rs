//! The secret model shared by all services: a rotation strategy and a provider.
use vstd::prelude::*;

verus! {

/// Where a secret lives and how the rotator reaches it.
#[derive(Debug, Clone, PartialEq, Eq)]
pub enum ProviderConfig {
    Aws(AwsProviderConfig),
}

/// AWS access: the role that the rotator assumes.
#[derive(Debug, Clone, PartialEq, Eq)]
pub struct AwsProviderConfig {
    pub role_arn: String,
}

/// The slot of a blue/green secret that clients currently read.
#[derive(Debug, Clone, Copy, PartialEq, Eq, Structural)]
pub enum ActiveSlot {
    Blue,
    Green,
}

/// A secret rotated in place at one path.
#[derive(Debug, Clone, PartialEq, Eq)]
pub struct SingleStrategyConfig {
    pub path: String,
}

/// A secret kept at two paths, one of which is active.
#[derive(Debug, Clone, PartialEq, Eq)]
pub struct BlueGreenStrategyConfig {
    pub blue_path: String,
    pub green_path: String,
    pub active_slot: ActiveSlot,
}

/// The rotation strategy of a secret.
#[derive(Debug, Clone, PartialEq, Eq)]
pub enum StrategyConfig {
    Single(SingleStrategyConfig),
    BlueGreen(BlueGreenStrategyConfig),
}

/// A secret under rotation.
#[derive(Debug)]
pub struct Secret {
    pub id: u128,
    pub strategy: StrategyConfig,
    pub provider: ProviderConfig,
    pub created_at: chrono::NaiveDateTime,
    pub updated_at: Option<chrono::NaiveDateTime>,
}

/// The content of a strategy.
pub enum StrategyView {
    Single { path: Seq<char> },
    BlueGreen { blue_path: Seq<char>, green_path: Seq<char>, active_slot: ActiveSlot },
}

/// The content of a provider.
pub enum ProviderView {
    Aws { role_arn: Seq<char> },
}

/// The content of a secret.
pub struct SecretView {
    pub id: u128,
    pub strategy: StrategyView,
    pub provider: ProviderView,
    pub created_at: chrono::NaiveDateTime,
    pub updated_at: Option<chrono::NaiveDateTime>,
}

impl View for StrategyConfig {
    type V = StrategyView;

    open spec fn view(&self) -> StrategyView {
        match self {
            StrategyConfig::Single(s) => StrategyView::Single { path: s.path@ },
            StrategyConfig::BlueGreen(bg) => StrategyView::BlueGreen {
                blue_path: bg.blue_path@,
                green_path: bg.green_path@,
                active_slot: bg.active_slot,
            },
        }
    }
}

impl View for ProviderConfig {
    type V = ProviderView;

    open spec fn view(&self) -> ProviderView {
        match self {
            ProviderConfig::Aws(aws) => ProviderView::Aws { role_arn: aws.role_arn@ },
        }
    }
}

impl View for Secret {
    type V = SecretView;

    open spec fn view(&self) -> SecretView {
        SecretView {
            id: self.id,
            strategy: self.strategy@,
            provider: self.provider@,
            created_at: self.created_at,
            updated_at: self.updated_at,
        }
    }
}

impl StrategyConfig {
    /// A copy of the strategy.
    pub fn copy(&self) -> (res: StrategyConfig)
        ensures
            res@ == self@,
    {
        match self {
            StrategyConfig::Single(s) => StrategyConfig::Single(SingleStrategyConfig { path: s.path.clone() }),
            StrategyConfig::BlueGreen(bg) => StrategyConfig::BlueGreen(
                BlueGreenStrategyConfig {
                    blue_path: bg.blue_path.clone(),
                    green_path: bg.green_path.clone(),
                    active_slot: bg.active_slot,
                },
            ),
        }
    }
}

impl ProviderConfig {
    /// A copy of the provider.
    pub fn copy(&self) -> (res: ProviderConfig)
        ensures
            res@ == self@,
    {
        match self {
            ProviderConfig::Aws(aws) => ProviderConfig::Aws(AwsProviderConfig { role_arn: aws.role_arn.clone() }),
        }
    }
}

impl ActiveSlot {
    /// The other slot.
    pub open spec fn spec_flipped(self) -> ActiveSlot {
        match self {
            ActiveSlot::Blue => ActiveSlot::Green,
            ActiveSlot::Green => ActiveSlot::Blue,
        }
    }

    /// The other slot: what the store makes active when a blue/green secret is activated.
    pub fn flipped(&self) -> (res: ActiveSlot)
        ensures
            res == self.spec_flipped(),
    {
        match self {
            ActiveSlot::Blue => ActiveSlot::Green,
            ActiveSlot::Green => ActiveSlot::Blue,
        }
    }

    /// The slot's name on the wire and in replies.
    pub open spec fn spec_name(self) -> Seq<char> {
        match self {
            ActiveSlot::Blue => seq!['b', 'l', 'u', 'e'],
            ActiveSlot::Green => seq!['g', 'r', 'e', 'e', 'n'],
        }
    }

    /// The slot's name: `"blue"` or `"green"`.
    pub fn name(&self) -> (res: String)
        ensures
            res@ == self.spec_name(),
    {
        match self {
            ActiveSlot::Blue => {
                let s = String::from_str("blue");
                proof {
                    reveal_strlit("blue");
                }
                s
            },
            ActiveSlot::Green => {
                let s = String::from_str("green");
                proof {
                    reveal_strlit("green");
                }
                s
            },
        }
    }
}

impl BlueGreenStrategyConfig {
    /// The path of the active slot.
    pub open spec fn spec_active_path(self) -> Seq<char> {
        match self.active_slot {
            ActiveSlot::Blue => self.blue_path@,
            ActiveSlot::Green => self.green_path@,
        }
    }

    /// The path of the slot that is not active.
    pub open spec fn spec_inactive_path(self) -> Seq<char> {
        match self.active_slot {
            ActiveSlot::Blue => self.green_path@,
            ActiveSlot::Green => self.blue_path@,
        }
    }

    /// The path of the active slot.
    pub fn active_path(&self) -> (res: String)
        ensures
            res@ == self.spec_active_path(),
    {
        match self.active_slot {
            ActiveSlot::Blue => self.blue_path.clone(),
            ActiveSlot::Green => self.green_path.clone(),
        }
    }

    /// The same configuration with the other slot active.
    pub open spec fn spec_flipped(self) -> BlueGreenStrategyConfig {
        BlueGreenStrategyConfig { active_slot: self.active_slot.spec_flipped(), ..self }
    }
}

impl StrategyConfig {
    /// The path that a rotation writes to: the inactive slot of a blue/green
    /// secret, none for a single-path secret.
    pub open spec fn spec_inactive_path(self) -> Option<Seq<char>> {
        match self {
            StrategyConfig::BlueGreen(bg) => Some(bg.spec_inactive_path()),
            StrategyConfig::Single(_) => None,
        }
    }

    /// The inactive path of a blue/green secret; `None` for a single-path secret.
    pub fn inactive_path(&self) -> (res: Option<&str>)
        ensures
            res is Some <==> self.spec_inactive_path() is Some,
            res matches Some(p) ==> Some(p@) == self.spec_inactive_path(),
    {
        match self {
            StrategyConfig::BlueGreen(bg) => match bg.active_slot {
                ActiveSlot::Blue => Some(bg.green_path.as_str()),
                ActiveSlot::Green => Some(bg.blue_path.as_str()),
            },
            StrategyConfig::Single(_) => None,
        }
    }
}

/// Activating twice restores the slot that was active.
pub proof fn lemma_flip_twice_restores(slot: ActiveSlot)
    ensures
        slot.spec_flipped().spec_flipped() == slot,
        slot.spec_flipped() != slot,
{
}

/// After a flip, the path written by the last rotation (the inactive one) is
/// the one read, and the path read before becomes the one written next.
pub proof fn lemma_flip_swaps_paths(bg: BlueGreenStrategyConfig)
    ensures
        bg.spec_flipped().spec_active_path() == bg.spec_inactive_path(),
        bg.spec_flipped().spec_inactive_path() == bg.spec_active_path(),
{
}

} // verus!
