//! Swap detection and pricing over token-balance deltas, and a
//! threshold-triggered position monitor.
//!
//! Every quantity is an exact integer. Token amounts are raw on-chain units
//! together with the mint's number of decimals; dollar values are counted in
//! billionths of a dollar.

pub mod balance;
pub mod diffs;
pub mod fanout;
pub mod metrics;
pub mod price;
pub mod process_swap;
pub mod routes;
pub mod seller_laws;
pub mod seller_service;
pub mod swap_laws;
pub mod text;
pub mod tools;
pub mod units;
