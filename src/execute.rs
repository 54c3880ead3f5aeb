use vstd::prelude::*;

use crate::config::{Coin, Config, PartialConfig};
use crate::error::ContractError;
use crate::gotchi::Gotchi;
use crate::time::Timestamp;

verus! {

/// The views of a sequence of token ids.
pub open spec fn id_views(ids: Seq<String>) -> Seq<Seq<char>> {
    ids.map_values(|id: String| id@)
}

/// The record stored under `token_id`: the first entry of `records` with
/// that id, if any.
pub open spec fn record_of(records: Seq<(String, Gotchi)>, token_id: Seq<char>) -> Option<Gotchi>
    decreases records.len(),
{
    if records.len() == 0 {
        None
    } else if records[0].0@ == token_id {
        Some(records[0].1)
    } else {
        record_of(records.drop_first(), token_id)
    }
}

/// The ids of the records that are dead at `now`, in the order of
/// `records`.
pub open spec fn dead_ids(records: Seq<(String, Gotchi)>, now: Timestamp) -> Seq<Seq<char>>
    decreases records.len(),
{
    if records.len() == 0 {
        Seq::empty()
    } else {
        let earlier = dead_ids(records.drop_last(), now);
        if records.last().1.spec_is_dead(now) {
            earlier.push(records.last().0@)
        } else {
            earlier
        }
    }
}

/// Why a reap of `batch` is refused, if it is: the first token that has no
/// record, or that is still alive, decides.
pub open spec fn reap_failure(
    batch: Seq<Seq<char>>,
    records: Seq<(String, Gotchi)>,
    now: Timestamp,
) -> Option<ContractError>
    decreases batch.len(),
{
    if batch.len() == 0 {
        None
    } else {
        match record_of(records, batch[0]) {
            None => Some(ContractError::RecordNotFound {}),
            Some(g) => if !g.spec_is_dead(now) {
                Some(ContractError::NotAllDead {})
            } else {
                reap_failure(batch.drop_first(), records, now)
            },
        }
    }
}

/// The tokens a reap handles: the given list as it is, or else every token
/// that is dead at `now`.
pub open spec fn reap_batch(
    tokens: Option<Vec<String>>,
    records: Seq<(String, Gotchi)>,
    now: Timestamp,
) -> Seq<Seq<char>> {
    match tokens {
        Some(list) => id_views(list@),
        None => dead_ids(records, now),
    }
}

/// The outcome of hatching the record `record` at `now`.
pub open spec fn hatch_outcome(record: Option<Gotchi>, now: Timestamp) -> Result<Gotchi, ContractError> {
    match record {
        None => Err(ContractError::RecordNotFound {}),
        Some(g) => g.spec_hatch(now),
    }
}

/// The outcome of updating `config` with `patch`: the merged configuration
/// if it is valid.
pub open spec fn update_config_outcome(config: Config, patch: PartialConfig) -> Result<Config, ContractError> {
    let merged = config.spec_patched(patch);
    if merged.spec_valid() {
        Ok(merged)
    } else {
        Err(ContractError::InvalidConfig {})
    }
}

/// The single coin offered for feeding.
pub fn parse_funds(funds: &Vec<Coin>) -> (r: Result<Coin, ContractError>)
    ensures
        funds@.len() == 0 ==> r == Err::<Coin, ContractError>(ContractError::FeedingIsNotFree {}),
        funds@.len() > 1 ==> match r {
            Err(ContractError::CannotFeedWithDenom { denom }) => denom@
                == "multiple denominations"@,
            _ => false,
        },
        funds@.len() == 1 ==> r is Ok && r->Ok_0.denom@ == funds@[0].denom@ && r->Ok_0.amount
            == funds@[0].amount,
{
    if funds.len() == 0 {
        return Err(ContractError::FeedingIsNotFree {});
    }
    if funds.len() > 1 {
        return Err(ContractError::CannotFeedWithDenom { denom: "multiple denominations".to_owned() });
    }
    Ok(Coin { denom: funds[0].denom.clone(), amount: funds[0].amount })
}

/// Hatches the stored record `record` at `now` and returns the record to
/// store.
pub fn execute_hatch(record: Option<Gotchi>, now: Timestamp) -> (r: Result<Gotchi, ContractError>)
    ensures
        r == hatch_outcome(record, now),
{
    match record {
        Some(mut g) => g.hatch(now),
        None => Err(ContractError::not_found()),
    }
}

/// Feeds the stored record `record` at `now`, paid with `funds`, and returns
/// the record to store. The payment must be one coin whose amount is exactly
/// the cost in its denomination.
pub fn execute_feed(
    config: &Config,
    record: Option<Gotchi>,
    now: Timestamp,
    funds: &Vec<Coin>,
) -> (r: Result<Gotchi, ContractError>)
    ensures
        funds@.len() == 0 ==> r == Err::<Gotchi, ContractError>(ContractError::FeedingIsNotFree {}),
        funds@.len() > 1 ==> match r {
            Err(ContractError::CannotFeedWithDenom { denom }) => denom@
                == "multiple denominations"@,
            _ => false,
        },
        funds@.len() == 1 && record is None ==> r == Err::<Gotchi, ContractError>(
            ContractError::RecordNotFound {},
        ),
        funds@.len() == 1 && record is Some ==> match config.spec_total_feeding_cost(
            record->Some_0,
            now,
            funds@[0].denom@,
        ) {
            None => match r {
                Err(ContractError::CannotFeedWithDenom { denom }) => denom@ == funds@[0].denom@,
                _ => false,
            },
            Some(cost) => if funds@[0].amount != cost {
                match r {
                    Err(ContractError::InvalidFeedingCost { payed, expected }) => {
                        &&& payed.denom@ == funds@[0].denom@
                        &&& payed.amount == funds@[0].amount
                        &&& expected.denom@ == funds@[0].denom@
                        &&& expected.amount == cost
                    },
                    _ => false,
                }
            } else {
                r == record->Some_0.spec_feed(now, config.max_unfed_days as int)
            },
        },
{
    let paying = parse_funds(funds)?;
    let mut state = match record {
        Some(g) => g,
        None => {
            return Err(ContractError::not_found());
        },
    };
    let expected = config.get_total_feeding_cost(&state, now, funds[0].denom.as_str())?;
    if paying.amount != expected.amount {
        return Err(ContractError::InvalidFeedingCost { payed: paying, expected });
    }
    state.feed(now, config.max_unfed_days as u64)
}

/// The record stored under `token_id`.
pub fn find_record(records: &Vec<(String, Gotchi)>, token_id: &String) -> (found: Option<Gotchi>)
    ensures
        found == record_of(records@, token_id@),
{
    let n = records.len();
    let mut i: usize = 0;
    assert(records@.subrange(0, n as int) =~= records@);
    while i < n
        invariant
            n == records@.len(),
            i <= n,
            record_of(records@, token_id@) == record_of(
                records@.subrange(i as int, n as int),
                token_id@,
            ),
        decreases n - i,
    {
        let ghost rest = records@.subrange(i as int, n as int);
        assert(rest[0] == records@[i as int]);
        if records[i].0 == *token_id {
            assert(record_of(rest, token_id@) == Some(records@[i as int].1));
            return Some(records[i].1);
        }
        assert(rest.drop_first() =~= records@.subrange(i + 1, n as int));
        i = i + 1;
    }
    None
}

/// The ids of the records that are dead at `now`, in the order of
/// `records`.
pub fn get_all_dead(records: &Vec<(String, Gotchi)>, now: Timestamp) -> (ids: Vec<String>)
    ensures
        id_views(ids@) == dead_ids(records@, now),
{
    let n = records.len();
    let mut ids: Vec<String> = Vec::new();
    let mut i: usize = 0;
    while i < n
        invariant
            n == records@.len(),
            i <= n,
            id_views(ids@) == dead_ids(records@.subrange(0, i as int), now),
        decreases n - i,
    {
        let ghost prefix = records@.subrange(0, i as int + 1);
        assert(prefix.drop_last() =~= records@.subrange(0, i as int));
        assert(prefix.last() == records@[i as int]);
        if records[i].1.is_dead(now) {
            let ghost before = ids@;
            ids.push(records[i].0.clone());
            assert(id_views(ids@) =~= id_views(before).push(records@[i as int].0@));
        }
        i = i + 1;
    }
    assert(records@.subrange(0, n as int) =~= records@);
    ids
}

/// Checks a reap of `tokens`, or of every dead token when none are given,
/// against the stored `records` at `now`, and returns the tokens to hand
/// to the graveyard. The batch is refused as a whole if any of its tokens
/// has no record or is still alive.
pub fn execute_reap(
    tokens: Option<Vec<String>>,
    records: &Vec<(String, Gotchi)>,
    now: Timestamp,
) -> (r: Result<Vec<String>, ContractError>)
    ensures
        match reap_failure(reap_batch(tokens, records@, now), records@, now) {
            Some(e) => r == Err::<Vec<String>, ContractError>(e),
            None => r is Ok && id_views(r->Ok_0@) == reap_batch(tokens, records@, now),
        },
{
    let batch = match tokens {
        Some(list) => list,
        None => get_all_dead(records, now),
    };
    let ghost views = id_views(batch@);
    let n = batch.len();
    let mut i: usize = 0;
    assert(views.subrange(0, n as int) =~= views);
    while i < n
        invariant
            n == batch@.len(),
            views == id_views(batch@),
            views == reap_batch(tokens, records@, now),
            i <= n,
            reap_failure(views, records@, now) == reap_failure(
                views.subrange(i as int, n as int),
                records@,
                now,
            ),
        decreases n - i,
    {
        let ghost rest = views.subrange(i as int, n as int);
        assert(rest[0] == batch@[i as int]@);
        match find_record(records, &batch[i]) {
            None => {
                assert(reap_failure(rest, records@, now) == Some(ContractError::RecordNotFound {}));
                return Err(ContractError::not_found());
            },
            Some(g) => {
                if !g.is_dead(now) {
                    assert(reap_failure(rest, records@, now) == Some(ContractError::NotAllDead {}));
                    return Err(ContractError::NotAllDead {});
                }
            },
        }
        assert(rest.drop_first() =~= views.subrange(i + 1, n as int));
        i = i + 1;
    }
    Ok(batch)
}

/// Merges `patch` into `config` and returns the result if it is valid.
pub fn execute_update_config(config: Config, patch: PartialConfig) -> (r: Result<Config, ContractError>)
    ensures
        r == update_config_outcome(config, patch),
{
    let mut merged = config;
    merged.apply_patch(patch);
    match merged.validate() {
        Ok(()) => Ok(merged),
        Err(e) => Err(e),
    }
}

proof fn lemma_living_member_refuses(
    batch: Seq<Seq<char>>,
    records: Seq<(String, Gotchi)>,
    now: Timestamp,
    living: int,
)
    requires
        0 <= living < batch.len(),
        forall|i: int| 0 <= i < batch.len() ==> (#[trigger] record_of(records, batch[i])) is Some,
        !record_of(records, batch[living])->Some_0.spec_is_dead(now),
    ensures
        reap_failure(batch, records, now) == Some(ContractError::NotAllDead {}),
    decreases batch.len(),
{
    assert(record_of(records, batch[0]) is Some);
    if living > 0 && record_of(records, batch[0])->Some_0.spec_is_dead(now) {
        let rest = batch.drop_first();
        assert forall|i: int| 0 <= i < rest.len() implies (#[trigger] record_of(records, rest[i])) is Some by {
            assert(rest[i] == batch[i + 1]);
        }
        assert(rest[living - 1] == batch[living]);
        lemma_living_member_refuses(rest, records, now, living - 1);
    }
}

/// A reap of an explicit list in which some token is still alive is refused
/// with `NotAllDead` when every listed token has a record, so no token is
/// handed to the graveyard.
pub proof fn lemma_reap_refuses_living_token(
    tokens: Vec<String>,
    records: Seq<(String, Gotchi)>,
    now: Timestamp,
    living: int,
)
    requires
        0 <= living < tokens@.len(),
        forall|i: int|
            0 <= i < tokens@.len() ==> (#[trigger] record_of(records, tokens@[i]@)) is Some,
        !record_of(records, tokens@[living]@)->Some_0.spec_is_dead(now),
    ensures
        reap_failure(reap_batch(Some(tokens), records, now), records, now) == Some(
            ContractError::NotAllDead {},
        ),
{
    let batch = id_views(tokens@);
    assert forall|i: int| 0 <= i < batch.len() implies (#[trigger] record_of(records, batch[i])) is Some by {
        assert(batch[i] == tokens@[i]@);
    }
    assert(batch[living] == tokens@[living]@);
    lemma_living_member_refuses(batch, records, now, living);
}

/// No two records share an id, as in a keyed store.
pub open spec fn unique_ids(records: Seq<(String, Gotchi)>) -> bool {
    forall|i: int, j: int|
        0 <= i < j < records.len() ==> #[trigger] records[i].0@ != #[trigger] records[j].0@
}

proof fn lemma_record_of_unique(records: Seq<(String, Gotchi)>, k: int)
    requires
        unique_ids(records),
        0 <= k < records.len(),
    ensures
        record_of(records, records[k].0@) == Some(records[k].1),
    decreases records.len(),
{
    if k > 0 {
        let rest = records.drop_first();
        assert(records[0].0@ != records[k].0@);
        assert(rest[k - 1] == records[k]);
        assert forall|i: int, j: int| 0 <= i < j < rest.len() implies #[trigger] rest[i].0@
            != #[trigger] rest[j].0@ by {
            assert(rest[i] == records[i + 1]);
            assert(rest[j] == records[j + 1]);
        }
        lemma_record_of_unique(rest, k - 1);
    }
}

proof fn lemma_dead_ids_are_dead_records(records: Seq<(String, Gotchi)>, now: Timestamp, m: int)
    requires
        0 <= m < dead_ids(records, now).len(),
    ensures
        exists|k: int|
            0 <= k < records.len() && records[k].0@ == dead_ids(records, now)[m]
                && #[trigger] records[k].1.spec_is_dead(now),
    decreases records.len(),
{
    let earlier = dead_ids(records.drop_last(), now);
    if m < earlier.len() {
        lemma_dead_ids_are_dead_records(records.drop_last(), now, m);
        let k = choose|k: int|
            0 <= k < records.drop_last().len() && records.drop_last()[k].0@ == earlier[m]
                && #[trigger] records.drop_last()[k].1.spec_is_dead(now);
        assert(records.drop_last()[k] == records[k]);
    } else {
        assert(records[records.len() - 1].1.spec_is_dead(now));
    }
}

proof fn lemma_all_dead_batch_passes(
    batch: Seq<Seq<char>>,
    records: Seq<(String, Gotchi)>,
    now: Timestamp,
)
    requires
        forall|i: int|
            0 <= i < batch.len() ==> (#[trigger] record_of(records, batch[i])) is Some
                && record_of(records, batch[i])->Some_0.spec_is_dead(now),
    ensures
        reap_failure(batch, records, now) is None,
    decreases batch.len(),
{
    if batch.len() > 0 {
        assert(record_of(records, batch[0]) is Some);
        let rest = batch.drop_first();
        assert forall|i: int| 0 <= i < rest.len() implies (#[trigger] record_of(records, rest[i]))
            is Some && record_of(records, rest[i])->Some_0.spec_is_dead(now) by {
            assert(rest[i] == batch[i + 1]);
        }
        lemma_all_dead_batch_passes(rest, records, now);
    }
}

/// A reap without a list is never refused when the records have distinct
/// ids: it hands over exactly the dead tokens, in the order of the records.
pub proof fn lemma_reap_all_dead_succeeds(records: Seq<(String, Gotchi)>, now: Timestamp)
    requires
        unique_ids(records),
    ensures
        reap_failure(reap_batch(None, records, now), records, now) is None,
        reap_batch(None, records, now) == dead_ids(records, now),
{
    let batch = dead_ids(records, now);
    assert forall|i: int| 0 <= i < batch.len() implies (#[trigger] record_of(records, batch[i]))
        is Some && record_of(records, batch[i])->Some_0.spec_is_dead(now) by {
        lemma_dead_ids_are_dead_records(records, now, i);
        let k = choose|k: int|
            0 <= k < records.len() && records[k].0@ == batch[i]
                && #[trigger] records[k].1.spec_is_dead(now);
        lemma_record_of_unique(records, k);
    }
    lemma_all_dead_batch_passes(batch, records, now);
}

/// An update that sets the grace period to one day is always refused with
/// `InvalidConfig`.
pub proof fn lemma_update_config_rejects_one_day_grace(config: Config, patch: PartialConfig)
    requires
        patch.max_unfed_days == Some(1u32),
    ensures
        update_config_outcome(config, patch) == Err::<Config, ContractError>(
            ContractError::InvalidConfig {},
        ),
{
}

} // verus!
