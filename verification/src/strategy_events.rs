//! The events a strategy receives.

use crate::base_data::BaseDataEnum;
use crate::indicators::values::IndicatorEvents;
use crate::orders::{OrderUpdateEvent, PositionUpdateEvent};
use crate::subscriptions::DataSubscriptionEvent;
use vstd::prelude::*;

verus! {

/// How a strategy runs.
#[derive(Clone, Copy, Debug, PartialEq, Eq, Structural, Hash)]
pub enum StrategyMode {
    Backtest,
    Live,
    LivePaperTrading,
}

/// One event for a strategy.
#[derive(Debug, PartialEq, Eq)]
pub enum StrategyEvent {
    OrderEvents(OrderUpdateEvent),
    PositionEvents(PositionUpdateEvent),
    /// The data of one step of the replay cursor, at the instant of the step.
    TimeSlice(i64, Vec<BaseDataEnum>),
    IndicatorEvent(IndicatorEvents),
    DataSubscriptionEvents(Vec<DataSubscriptionEvent>),
    /// Warm-up is over; what follows is observed by the strategy.
    WarmUpComplete,
    ShutdownEvent(String),
}

/// The events of one instant, in the order they are delivered.
pub type EventTimeSlice = Vec<StrategyEvent>;

} // verus!
