use vstd::prelude::*;

use crate::config::Config;
use crate::error::ContractError;
use crate::gotchi::Gotchi;
use crate::msg::HealthResponse;
use crate::time::Timestamp;

verus! {

/// Days of grace left for `state` at `now`, capped at what a `u8` holds.
pub fn query_health(state: &Gotchi, config: &Config, now: Timestamp) -> (r: HealthResponse)
    ensures
        r.health == (if state.spec_health(now, config.max_unfed_days as int) > u8::MAX {
            u8::MAX as int
        } else {
            state.spec_health(now, config.max_unfed_days as int)
        }),
{
    let health = state.health(now, config.max_unfed_days as u64);
    if health > u8::MAX as u32 {
        HealthResponse { health: u8::MAX }
    } else {
        HealthResponse { health: health as u8 }
    }
}

/// When `state` hatched; an error while it has not.
pub fn query_hatched_at(state: &Gotchi) -> (r: Result<Timestamp, ContractError>)
    ensures
        r == (match state.hatched_at {
            Some(t) => Ok(t),
            None => Err(ContractError::MagotchiUnhatched {}),
        }),
{
    match state.hatched_at() {
        Some(t) => Ok(t),
        None => Err(ContractError::MagotchiUnhatched {}),
    }
}

pub fn query_death_time(state: &Gotchi) -> (t: Timestamp)
    ensures
        t == state.death_time,
{
    state.death_time()
}

pub fn query_is_hatched(state: &Gotchi) -> (hatched: bool)
    ensures
        hatched == state.spec_is_hatched(),
{
    state.is_hatched()
}

pub fn query_is_alive(state: &Gotchi, now: Timestamp) -> (alive: bool)
    ensures
        alive == !state.spec_is_dead(now),
{
    !state.is_dead(now)
}

/// Cost of feeding `state` at `now`, in units of the daily rate.
pub fn query_feeding_cost(state: &Gotchi, config: &Config, now: Timestamp) -> (cost: u128)
    ensures
        cost == config.spec_feeding_cost(*state, now),
{
    config.get_feeding_cost(state, now) as u128
}

} // verus!
