use vstd::prelude::*;

use crate::config::Coin;

verus! {

/// Every way a command or query of the lifecycle engine can fail.
#[derive(Clone, Debug, PartialEq, Eq)]
pub enum ContractError {
    /// The record's death time has passed.
    MagotchiDied {},
    /// The record has not been hatched yet.
    MagotchiUnhatched {},
    /// The record has been hatched before.
    MagotchiAlreadyHatched {},
    /// The offered funds are in a denomination that cannot pay for feeding.
    CannotFeedWithDenom { denom: String },
    /// No funds were offered.
    FeedingIsNotFree {},
    /// The offered funds differ from the required cost.
    InvalidFeedingCost { payed: Coin, expected: Coin },
    /// A token of a reap batch is still alive.
    NotAllDead {},
    /// A configuration breaks one of its invariants.
    InvalidConfig {},
    /// No lifecycle record exists for the token.
    RecordNotFound {},
}

impl ContractError {
    pub fn not_found() -> (e: ContractError)
        ensures
            e == (ContractError::RecordNotFound {}),
    {
        ContractError::RecordNotFound {}
    }
}

} // verus!
