//! Aggregators that turn a primary stream into derived bars.

pub mod candlesticks;
pub mod consolidator_enum;
pub mod count;
pub mod heikinashi;
pub mod renko;
