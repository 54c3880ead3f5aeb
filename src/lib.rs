//! Lifecycle engine for hatchable, feedable tokens: the per-token state
//! machine, its time arithmetic, the feeding-cost calculator, the economic
//! configuration and the command handlers that combine them.

pub mod economy;
pub mod time;
pub mod config;
pub mod error;
pub mod gotchi;
pub mod execute;
pub mod msg;
pub mod query;
