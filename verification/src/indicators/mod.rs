//! Indicators computed from the data of a subscription.

pub mod average_true_range;
pub mod indicator_enum;
pub mod indicator_handler;
pub mod values;
