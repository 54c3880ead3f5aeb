use vstd::prelude::*;

use crate::error::ContractError;
use crate::time::{
    plus_days_of, saturating_sub, seconds_of, Timestamp, NANOS_PER_DAY, NANOS_PER_SECOND,
    SECONDS_PER_DAY,
};

verus! {

/// The lifecycle record of one token.
///
/// `hatched_at` is unset until the token hatches and never changes
/// afterwards; `death_time` holds the sentinel "never" (`u64::MAX`
/// nanoseconds) until then, and from then on the moment the token dies
/// unless it is fed.
#[derive(Clone, Copy, Debug, PartialEq, Eq, Structural)]
pub struct Gotchi {
    pub hatched_at: Option<Timestamp>,
    pub death_time: Timestamp,
}

/// The largest timestamp, which stands for "never".
pub open spec fn never() -> Timestamp {
    Timestamp { nanos: u64::MAX }
}

impl Gotchi {
    /// An unhatched record always carries the sentinel death time.
    pub open spec fn wf(self) -> bool {
        self.hatched_at is None ==> self.death_time == never()
    }

    pub open spec fn spec_is_hatched(self) -> bool {
        self.hatched_at is Some
    }

    /// Dead from the death time on, the boundary included.
    pub open spec fn spec_is_dead(self, now: Timestamp) -> bool {
        now.nanos >= self.death_time.nanos
    }

    /// Whole days left until the death time, counted in whole seconds and
    /// rounded down; zero once it has passed.
    pub open spec fn spec_days_until_dead(self, now: Timestamp) -> int {
        saturating_sub(seconds_of(self.death_time), seconds_of(now)) / SECONDS_PER_DAY as int
    }

    /// Days since the last feed or hatch: zero while unhatched, the whole
    /// grace period once dead, and otherwise the grace period less the days
    /// left less one, clamped at zero.
    pub open spec fn spec_days_unfed(self, now: Timestamp, max_unfed_days: int) -> int {
        if !self.spec_is_hatched() {
            0
        } else if self.spec_is_dead(now) {
            max_unfed_days
        } else {
            saturating_sub(saturating_sub(max_unfed_days, self.spec_days_until_dead(now)), 1)
        }
    }

    /// Days of the grace period that remain.
    pub open spec fn spec_health(self, now: Timestamp, max_unfed_days: int) -> int {
        max_unfed_days - self.spec_days_unfed(now, max_unfed_days)
    }

    /// Hatching sets the birth time and a death time one day later; a
    /// record hatches only once.
    pub open spec fn spec_hatch(self, now: Timestamp) -> Result<Gotchi, ContractError> {
        if self.spec_is_hatched() {
            Err(ContractError::MagotchiAlreadyHatched {})
        } else {
            Ok(Gotchi { hatched_at: Some(now), death_time: plus_days_of(now, 1) })
        }
    }

    /// Feeding a living hatched record resets its death time to
    /// `max_unfed_days` days from now.
    pub open spec fn spec_feed(self, now: Timestamp, max_unfed_days: int) -> Result<Gotchi, ContractError> {
        if !self.spec_is_hatched() {
            Err(ContractError::MagotchiUnhatched {})
        } else if self.spec_is_dead(now) {
            Err(ContractError::MagotchiDied {})
        } else {
            Ok(Gotchi { hatched_at: self.hatched_at, death_time: plus_days_of(now, max_unfed_days) })
        }
    }

    /// A fresh, unhatched record.
    pub fn new() -> (g: Gotchi)
        ensures
            g == (Gotchi { hatched_at: None, death_time: never() }),
            g.wf(),
    {
        Gotchi { hatched_at: None, death_time: Timestamp::from_nanos(u64::MAX) }
    }

    pub fn is_dead(&self, now: Timestamp) -> (dead: bool)
        ensures
            dead == self.spec_is_dead(now),
    {
        now.nanos >= self.death_time.nanos
    }

    pub fn is_hatched(&self) -> (hatched: bool)
        ensures
            hatched == self.spec_is_hatched(),
    {
        self.hatched_at.is_some()
    }

    /// Hatches the record at `now`; on success also returns the new record.
    pub fn hatch(&mut self, now: Timestamp) -> (r: Result<Gotchi, ContractError>)
        ensures
            r == old(self).spec_hatch(now),
            *final(self) == (match r {
                Ok(g) => g,
                Err(_) => *old(self),
            }),
            old(self).wf() ==> final(self).wf(),
    {
        if self.is_hatched() {
            return Err(ContractError::MagotchiAlreadyHatched {});
        }
        self.hatched_at = Some(now);
        self.death_time = now.plus_days(1);
        Ok(*self)
    }

    /// Feeds the record at `now`; on success also returns the new record.
    pub fn feed(&mut self, now: Timestamp, max_unfed_days: u64) -> (r: Result<Gotchi, ContractError>)
        ensures
            r == old(self).spec_feed(now, max_unfed_days as int),
            *final(self) == (match r {
                Ok(g) => g,
                Err(_) => *old(self),
            }),
            old(self).wf() ==> final(self).wf(),
    {
        if !self.is_hatched() {
            return Err(ContractError::MagotchiUnhatched {});
        }
        if self.is_dead(now) {
            return Err(ContractError::MagotchiDied {});
        }
        self.death_time = now.plus_days(max_unfed_days);
        Ok(*self)
    }

    pub fn hatched_at(&self) -> (t: Option<Timestamp>)
        ensures
            t == self.hatched_at,
    {
        self.hatched_at
    }

    pub fn death_time(&self) -> (t: Timestamp)
        ensures
            t == self.death_time,
    {
        self.death_time
    }

    pub fn days_until_dead(&self, now: Timestamp) -> (days: u64)
        ensures
            days == self.spec_days_until_dead(now),
    {
        self.death_time.seconds().saturating_sub(now.seconds()) / SECONDS_PER_DAY
    }

    pub fn days_unfed(&self, now: Timestamp, max_unfed_days: u64) -> (days: u64)
        ensures
            days == self.spec_days_unfed(now, max_unfed_days as int),
            days <= max_unfed_days,
    {
        if !self.is_hatched() {
            return 0;
        }
        if self.is_dead(now) {
            return max_unfed_days;
        }
        let days_until_dead = self.days_until_dead(now);
        max_unfed_days.saturating_sub(days_until_dead).saturating_sub(1)
    }

    pub fn health(&self, now: Timestamp, max_unfed_days: u64) -> (health: u32)
        requires
            max_unfed_days <= u32::MAX,
        ensures
            health == self.spec_health(now, max_unfed_days as int),
            health <= max_unfed_days,
    {
        let days_unfed = self.days_unfed(now, max_unfed_days);
        (max_unfed_days - days_unfed) as u32
    }

    /// A record hatched `days_since_epoch` days after the epoch and never
    /// fed.
    pub fn with_hatched_at(days_since_epoch: u64) -> (g: Gotchi)
        ensures
            g.hatched_at == Some(plus_days_of(Timestamp { nanos: 0 }, days_since_epoch as int)),
            g.death_time == plus_days_of(Timestamp { nanos: 0 }, days_since_epoch + 1),
    {
        let epoch = Timestamp::from_nanos(0);
        Gotchi {
            hatched_at: Some(epoch.plus_days(days_since_epoch)),
            death_time: epoch.plus_days(days_since_epoch).plus_days(1),
        }
    }

    /// A hatched record with birth and death on whole days after the epoch.
    pub fn custom(hatched_at_days_from_epoch: u64, death_time_days_from_epoch: u64) -> (g: Gotchi)
        ensures
            g.hatched_at == Some(
                plus_days_of(Timestamp { nanos: 0 }, hatched_at_days_from_epoch as int),
            ),
            g.death_time == plus_days_of(Timestamp { nanos: 0 }, death_time_days_from_epoch as int),
    {
        let epoch = Timestamp::from_nanos(0);
        Gotchi {
            hatched_at: Some(epoch.plus_days(hatched_at_days_from_epoch)),
            death_time: epoch.plus_days(death_time_days_from_epoch),
        }
    }

    /// Like `custom`, with the death time one second before the given day.
    pub fn custom_min_1sec(
        hatched_at_days_from_epoch: u64,
        death_time_days_from_epoch: u64,
    ) -> (g: Gotchi)
        ensures
            g.hatched_at == Some(
                plus_days_of(Timestamp { nanos: 0 }, hatched_at_days_from_epoch as int),
            ),
            g.death_time.nanos == saturating_sub(
                plus_days_of(Timestamp { nanos: 0 }, death_time_days_from_epoch as int).nanos as int,
                NANOS_PER_SECOND as int,
            ),
    {
        let epoch = Timestamp::from_nanos(0);
        Gotchi {
            hatched_at: Some(epoch.plus_days(hatched_at_days_from_epoch)),
            death_time: epoch.plus_days(death_time_days_from_epoch).minus_seconds(1),
        }
    }
}

/// A record that has never hatched is not dead and has no unfed days, at
/// any time before the sentinel "never".
pub proof fn lemma_unhatched_never_dead(g: Gotchi, now: Timestamp, max_unfed_days: int)
    requires
        g.wf(),
        !g.spec_is_hatched(),
        now.nanos < u64::MAX,
    ensures
        !g.spec_is_dead(now),
        g.spec_days_unfed(now, max_unfed_days) == 0,
{
}

/// Hatching the same record a second time fails with `MagotchiAlreadyHatched`,
/// whatever the two times.
pub proof fn lemma_hatch_twice_fails(g: Gotchi, first: Timestamp, second: Timestamp)
    ensures
        match g.spec_hatch(first) {
            Ok(hatched) => hatched.spec_hatch(second) == Err::<Gotchi, ContractError>(
                ContractError::MagotchiAlreadyHatched {},
            ),
            Err(_) => g.spec_hatch(second) == Err::<Gotchi, ContractError>(
                ContractError::MagotchiAlreadyHatched {},
            ),
        },
{
}

/// A freshly hatched record is alive strictly before one day after its
/// birth and dead from then on.
pub proof fn lemma_fresh_hatch_lives_one_day(g: Gotchi, hatched_at: Timestamp, now: Timestamp)
    requires
        hatched_at.nanos + NANOS_PER_DAY <= u64::MAX,
    ensures
        g.spec_hatch(hatched_at) is Ok ==> (g.spec_hatch(hatched_at)->Ok_0.spec_is_dead(now)
            <==> now.nanos >= hatched_at.nanos + NANOS_PER_DAY),
{
}

/// Feeding fails with `MagotchiDied` once the death time has come, and with
/// `MagotchiUnhatched` before the record has hatched.
pub proof fn lemma_feed_fails_when_dead_or_unhatched(
    g: Gotchi,
    now: Timestamp,
    max_unfed_days: int,
)
    ensures
        g.spec_is_hatched() && now.nanos >= g.death_time.nanos ==> g.spec_feed(now, max_unfed_days)
            == Err::<Gotchi, ContractError>(ContractError::MagotchiDied {}),
        !g.spec_is_hatched() ==> g.spec_feed(now, max_unfed_days) == Err::<Gotchi, ContractError>(
            ContractError::MagotchiUnhatched {},
        ),
{
}

impl Default for Gotchi {
    fn default() -> (g: Gotchi)
        ensures
            g == (Gotchi { hatched_at: None, death_time: never() }),
    {
        Gotchi::new()
    }
}

} // verus!
