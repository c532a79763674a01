//! Market-data consolidation, historical replay, simulated order matching and
//! ledger accounting for back-tested trading strategies.
//!
//! Prices are fixed-point integers (a count of the smallest representable
//! price increment) and instants are nanoseconds since the Unix epoch, so
//! every rule of the pipeline is stated and proved over exact arithmetic.
//!
//! The replay engine steps a cursor through historical time. At each step
//! the primary data of the step updates the market caches and the ledgers,
//! is fed to the consolidators of its symbol, and, with the bars they
//! derive, to the indicators; orders are matched against the market as the
//! step leaves it.

pub mod base_data;
pub mod brokerage;
pub mod consolidators;
pub mod engine;
pub mod historical_engine;
pub mod history_handler;
pub mod indicators;
pub mod ledgers;
pub mod live_order_matching;
pub mod market_cache;
pub mod market_handlers;
pub mod messages;
pub mod order_book;
pub mod orders;
pub mod positions;
pub mod resolution;
pub mod rolling_window;
pub mod strategy_events;
pub mod subscription_handler;
pub mod subscriptions;
pub mod symbol_info;
