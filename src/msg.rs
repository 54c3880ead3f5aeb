use vstd::prelude::*;

use crate::config::PartialConfig;

verus! {

/// The commands of the lifecycle engine.
#[derive(Clone, Debug, PartialEq, Eq)]
pub enum MagotchiExecuteExtension {
    /// Hatch a token; from then on it has to be fed.
    Hatch { token_id: String },
    /// Feed a token, resetting its grace period; the payment comes with the
    /// call.
    Feed { token_id: String },
    /// Hand dead tokens to the graveyard: the listed ones, or every dead one
    /// when no list is given. The batch is refused if any of them lives.
    Reap { tokens: Option<Vec<String>> },
    /// Change the fields of the configuration that the patch holds.
    UpdateConfig { config: PartialConfig },
}

/// The queries of the lifecycle engine.
#[derive(Clone, Debug, PartialEq, Eq)]
pub enum MagotchiQueryExtension {
    /// Days of grace left.
    Health { token_id: String },
    /// Cost of feeding now, in units of the daily rate.
    FeedingCost { token_id: String },
    /// The configuration.
    Config {},
    /// When the token hatched.
    HatchedAt { token_id: String },
    /// When the token dies unless fed.
    DeathTime { token_id: String },
    /// Whether the token has hatched.
    IsHatched { token_id: String },
    /// The whole lifecycle record.
    GotchiState { token_id: String },
}

impl Default for MagotchiQueryExtension {
    fn default() -> (q: MagotchiQueryExtension)
        ensures
            match q {
                MagotchiQueryExtension::Health { token_id } => token_id@ == "0"@,
                _ => false,
            },
    {
        MagotchiQueryExtension::Health { token_id: "0".to_owned() }
    }
}

#[derive(Clone, Copy, Debug, PartialEq, Eq, Structural)]
pub struct HealthResponse {
    pub health: u8,
}

#[derive(Clone, Copy, Debug, PartialEq, Eq, Structural)]
pub struct FeedingCostResponse {
    pub cost: u128,
}

/// One attribute of a token's metadata.
#[derive(Clone, Debug, PartialEq, Eq)]
pub struct Trait {
    pub display_type: Option<String>,
    pub trait_type: String,
    pub value: String,
}

/// Token metadata after the common NFT metadata standard.
#[derive(Clone, Debug, PartialEq, Eq, Default)]
pub struct Metadata {
    pub image: Option<String>,
    pub image_data: Option<String>,
    pub external_url: Option<String>,
    pub description: Option<String>,
    pub name: Option<String>,
    pub attributes: Option<Vec<Trait>>,
    pub background_color: Option<String>,
    pub animation_url: Option<String>,
    pub youtube_url: Option<String>,
}

} // verus!
