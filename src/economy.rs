use vstd::prelude::*;

verus! {

/// Cost of a single unfed day: a base of 1000 plus the multiplier (in
/// promille of that base) times the index of the day, i.e.
/// `1000 + floor(1000 * multiplier * day / 1000)`.
pub open spec fn day_cost(multiplier: int, day: int) -> int {
    1000 + multiplier * day
}

/// Sum of `day_cost(multiplier, day)` over `day` in `[0, days)`.
pub open spec fn total_cost(days: nat, multiplier: int) -> int
    decreases days,
{
    if days == 0 {
        0
    } else {
        total_cost((days - 1) as nat, multiplier) + day_cost(multiplier, days - 1)
    }
}

/// The total cost clamped to what a `u64` can hold.
pub open spec fn saturated_total_cost(days: nat, multiplier: int) -> int {
    if total_cost(days, multiplier) > u64::MAX {
        u64::MAX as int
    } else {
        total_cost(days, multiplier)
    }
}

/// The total cost of zero unfed days is zero, and of one unfed day exactly
/// the base cost, whatever the multiplier.
pub proof fn lemma_total_cost_first_days(multiplier: int)
    ensures
        total_cost(0, multiplier) == 0,
        total_cost(1, multiplier) == 1000,
{
    assert(total_cost(1, multiplier) == total_cost(0, multiplier) + day_cost(multiplier, 0));
}

/// For a fixed non-negative multiplier the total cost never decreases when
/// the number of unfed days grows.
pub proof fn lemma_total_cost_monotonic(a: nat, b: nat, multiplier: int)
    requires
        a <= b,
        multiplier >= 0,
    ensures
        total_cost(a, multiplier) <= total_cost(b, multiplier),
    decreases b,
{
    if a < b {
        lemma_total_cost_monotonic(a, (b - 1) as nat, multiplier);
        assert(multiplier * (b - 1) >= 0) by (nonlinear_arith)
            requires
                multiplier >= 0,
                b >= 1,
        ;
    }
}

/// Cumulative feeding cost of `days_unfed` unfed days, saturating at
/// `u64::MAX`.
pub fn calculate_total_cost(days_unfed: u64, feeding_cost_multiplier: u64) -> (total: u64)
    ensures
        total == saturated_total_cost(days_unfed as nat, feeding_cost_multiplier as int),
{
    let mut total: u64 = 0;
    let mut day: u64 = 0;
    while day < days_unfed
        invariant
            day <= days_unfed,
            total == total_cost(day as nat, feeding_cost_multiplier as int),
        decreases days_unfed - day,
    {
        assert((feeding_cost_multiplier as int) * (day as int) <= (u64::MAX as int) * (u64::MAX as int))
            by (nonlinear_arith)
            requires
                feeding_cost_multiplier <= u64::MAX,
                day <= u64::MAX,
        ;
        let cost: u128 = 1000u128 + (feeding_cost_multiplier as u128) * (day as u128);
        if cost > (u64::MAX - total) as u128 {
            proof {
                lemma_total_cost_monotonic(
                    (day + 1) as nat,
                    days_unfed as nat,
                    feeding_cost_multiplier as int,
                );
            }
            return u64::MAX;
        }
        total = total + cost as u64;
        day = day + 1;
    }
    total
}

} // verus!
