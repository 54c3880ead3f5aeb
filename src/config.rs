use vstd::prelude::*;

use crate::economy::{calculate_total_cost, saturated_total_cost};
use crate::error::ContractError;
use crate::gotchi::Gotchi;
use crate::time::Timestamp;

verus! {

/// An amount of one denomination.
#[derive(Clone, Debug, PartialEq, Eq)]
pub struct Coin {
    pub denom: String,
    pub amount: u128,
}

impl Coin {
    pub fn new(amount: u128, denom: &str) -> (c: Coin)
        ensures
            c.amount == amount,
            c.denom@ == denom@,
    {
        Coin { denom: denom.to_owned(), amount }
    }
}

/// `a * b`, clamped to what a `u128` can hold.
pub open spec fn saturating_mul_u128(a: int, b: int) -> int {
    if a * b > u128::MAX {
        u128::MAX as int
    } else {
        a * b
    }
}

/// The daily rate of the first entry of `coins` in `denom`, if any.
pub open spec fn rate_of(coins: Seq<Coin>, denom: Seq<char>) -> Option<u128>
    decreases coins.len(),
{
    if coins.len() == 0 {
        None
    } else if coins[0].denom@ == denom {
        Some(coins[0].amount)
    } else {
        rate_of(coins.drop_first(), denom)
    }
}

/// The economic parameters shared by all tokens.
#[derive(Clone, Debug, PartialEq, Eq)]
pub struct Config {
    /// The cost of feeding per day, one entry per accepted denomination.
    pub daily_feeding_cost: Vec<Coin>,
    /// The grace period in days; also the largest health.
    pub max_unfed_days: u32,
    /// How much each further unfed day adds to the daily cost, in promille.
    pub feeding_cost_multiplier: u64,
    /// The address that receives reaped tokens.
    pub graveyard: String,
}

/// A configuration update: each field that is present replaces the stored
/// one.
#[derive(Clone, Debug, PartialEq, Eq, Default)]
pub struct PartialConfig {
    pub daily_feeding_cost: Option<Vec<Coin>>,
    pub max_unfed_days: Option<u32>,
    pub feeding_cost_multiplier: Option<u64>,
    pub graveyard: Option<String>,
}

impl Config {
    /// At least one rate, none of them zero, a grace period of more than
    /// one day, and a graveyard.
    pub open spec fn spec_valid(self) -> bool {
        &&& self.max_unfed_days > 1
        &&& self.daily_feeding_cost@.len() > 0
        &&& forall|i: int|
            0 <= i < self.daily_feeding_cost@.len() ==> #[trigger] self.daily_feeding_cost@[i].amount
                != 0
        &&& self.graveyard@.len() > 0
    }

    /// The configuration with the fields present in `patch` replaced.
    pub open spec fn spec_patched(self, patch: PartialConfig) -> Config {
        Config {
            daily_feeding_cost: match patch.daily_feeding_cost {
                Some(v) => v,
                None => self.daily_feeding_cost,
            },
            max_unfed_days: match patch.max_unfed_days {
                Some(v) => v,
                None => self.max_unfed_days,
            },
            feeding_cost_multiplier: match patch.feeding_cost_multiplier {
                Some(v) => v,
                None => self.feeding_cost_multiplier,
            },
            graveyard: match patch.graveyard {
                Some(v) => v,
                None => self.graveyard,
            },
        }
    }

    /// Cost in units of the daily rate of feeding `state` at `now`.
    pub open spec fn spec_feeding_cost(self, state: Gotchi, now: Timestamp) -> int {
        saturated_total_cost(
            state.spec_days_unfed(now, self.max_unfed_days as int) as nat,
            self.feeding_cost_multiplier as int,
        )
    }

    /// Amount due in `denom` for feeding `state` at `now`; none if the
    /// denomination has no rate.
    pub open spec fn spec_total_feeding_cost(
        self,
        state: Gotchi,
        now: Timestamp,
        denom: Seq<char>,
    ) -> Option<u128> {
        match rate_of(self.daily_feeding_cost@, denom) {
            Some(rate) => Some(
                saturating_mul_u128(rate as int, self.spec_feeding_cost(state, now)) as u128,
            ),
            None => None,
        }
    }

    pub fn validate(&self) -> (r: Result<(), ContractError>)
        ensures
            r == (if self.spec_valid() {
                Ok::<(), ContractError>(())
            } else {
                Err(ContractError::InvalidConfig {})
            }),
    {
        let n = self.daily_feeding_cost.len();
        let mut i: usize = 0;
        while i < n
            invariant
                n == self.daily_feeding_cost@.len(),
                i <= n,
                forall|j: int| 0 <= j < i ==> #[trigger] self.daily_feeding_cost@[j].amount != 0,
            decreases n - i,
        {
            if self.daily_feeding_cost[i].amount == 0 {
                return Err(ContractError::InvalidConfig {});
            }
            i = i + 1;
        }
        if self.max_unfed_days > 1 && n > 0 && !self.graveyard.as_str().is_empty() {
            Ok(())
        } else {
            Err(ContractError::InvalidConfig {})
        }
    }

    /// Replaces the fields that `patch` holds.
    pub fn apply_patch(&mut self, patch: PartialConfig)
        ensures
            *final(self) == old(self).spec_patched(patch),
    {
        if let Some(v) = patch.daily_feeding_cost {
            self.daily_feeding_cost = v;
        }
        if let Some(v) = patch.max_unfed_days {
            self.max_unfed_days = v;
        }
        if let Some(v) = patch.feeding_cost_multiplier {
            self.feeding_cost_multiplier = v;
        }
        if let Some(v) = patch.graveyard {
            self.graveyard = v;
        }
    }

    /// The daily rate in `denom`, from the first entry in that denomination.
    pub fn rate_for(&self, denom: &String) -> (rate: Option<u128>)
        ensures
            rate == rate_of(self.daily_feeding_cost@, denom@),
    {
        let coins = &self.daily_feeding_cost;
        let n = coins.len();
        let mut i: usize = 0;
        assert(coins@.subrange(0, n as int) =~= coins@);
        while i < n
            invariant
                coins@ == self.daily_feeding_cost@,
                n == coins@.len(),
                i <= n,
                rate_of(coins@, denom@) == rate_of(coins@.subrange(i as int, n as int), denom@),
            decreases n - i,
        {
            let ghost rest = coins@.subrange(i as int, n as int);
            assert(rest[0] == coins@[i as int]);
            if coins[i].denom == *denom {
                assert(rate_of(rest, denom@) == Some(coins@[i as int].amount));
                return Some(coins[i].amount);
            }
            assert(rest.drop_first() =~= coins@.subrange(i + 1, n as int));
            i = i + 1;
        }
        None
    }

    /// Cost in units of the daily rate of feeding `state` at `now`.
    pub fn get_feeding_cost(&self, state: &Gotchi, now: Timestamp) -> (cost: u64)
        ensures
            cost == self.spec_feeding_cost(*state, now),
    {
        let days_unfed = state.days_unfed(now, self.max_unfed_days as u64);
        calculate_total_cost(days_unfed, self.feeding_cost_multiplier)
    }

    /// Amount due in `denom` for feeding `state` at `now`: the daily rate in
    /// that denomination times the cost, saturating.
    pub fn get_total_feeding_cost(&self, state: &Gotchi, now: Timestamp, denom: &str) -> (r: Result<Coin, ContractError>)
        ensures
            match self.spec_total_feeding_cost(*state, now, denom@) {
                Some(amount) => r is Ok && r->Ok_0.denom@ == denom@ && r->Ok_0.amount == amount,
                None => match r {
                    Err(ContractError::CannotFeedWithDenom { denom: d }) => d@ == denom@,
                    _ => false,
                },
            },
    {
        let cost = self.get_feeding_cost(state, now);
        let wanted: String = denom.to_owned();
        match self.rate_for(&wanted) {
            Some(rate) => {
                let amount = match rate.checked_mul(cost as u128) {
                    Some(a) => a,
                    None => u128::MAX,
                };
                Ok(Coin { denom: wanted, amount })
            },
            None => Err(ContractError::CannotFeedWithDenom { denom: wanted }),
        }
    }
}

} // verus!
