use cw721_gotchi::config::{Coin, Config};
use cw721_gotchi::error::ContractError;
use cw721_gotchi::gotchi::Gotchi;
use cw721_gotchi::msg::{HealthResponse, MagotchiQueryExtension};
use cw721_gotchi::query::{
    query_death_time, query_feeding_cost, query_hatched_at, query_health, query_is_alive,
    query_is_hatched,
};
use cw721_gotchi::time::Timestamp;

const ONE_DAY: u64 = 24 * 60 * 60;

fn config(max_unfed_days: u32) -> Config {
    Config {
        daily_feeding_cost: vec![Coin::new(1_000, "unewt")],
        max_unfed_days,
        feeding_cost_multiplier: 100,
        graveyard: "graveyard".to_string(),
    }
}

fn day(d: u64) -> Timestamp {
    Timestamp::from_seconds(ONE_DAY * d)
}

#[test]
fn health_query_reports_days_left() {
    let state = Gotchi::custom_min_1sec(10, 12);
    assert_eq!(query_health(&state, &config(10), day(10)), HealthResponse { health: 2 });
    assert_eq!(query_health(&Gotchi::new(), &config(10), day(10)), HealthResponse { health: 10 });
}

#[test]
fn health_query_caps_at_u8() {
    assert_eq!(
        query_health(&Gotchi::new(), &config(300), day(1)),
        HealthResponse { health: 255 }
    );
}

#[test]
fn hatched_at_query_needs_a_hatched_record() {
    assert_eq!(
        query_hatched_at(&Gotchi::new()),
        Err(ContractError::MagotchiUnhatched {})
    );
    assert_eq!(query_hatched_at(&Gotchi::custom(3, 4)), Ok(day(3)));
}

#[test]
fn record_field_queries() {
    let state = Gotchi::custom(3, 4);
    assert_eq!(query_death_time(&state), day(4));
    assert!(query_is_hatched(&state));
    assert!(!query_is_hatched(&Gotchi::new()));
    assert!(query_is_alive(&state, day(3)));
    assert!(!query_is_alive(&state, day(4)));
}

#[test]
fn feeding_cost_query_counts_unfed_days() {
    let state = Gotchi::custom_min_1sec(0, 10);
    assert_eq!(query_feeding_cost(&state, &config(10), day(2)), 2100);
}

#[test]
fn default_query_is_health_of_token_zero() {
    assert_eq!(
        MagotchiQueryExtension::default(),
        MagotchiQueryExtension::Health {
            token_id: "0".to_string()
        }
    );
}
