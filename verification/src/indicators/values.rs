//! The values indicators produce and the events that report on indicators.

use crate::base_data::Price;
use crate::subscriptions::DataSubscription;
use vstd::prelude::*;

verus! {

/// One evaluation of an indicator: the value of its plot at an instant.
#[derive(Debug, PartialEq, Eq)]
pub struct IndicatorValues {
    /// The name of the indicator.
    pub name: String,
    pub subscription: DataSubscription,
    pub time: i64,
    pub value: Price,
}

impl Clone for IndicatorValues {
    fn clone(&self) -> (copy: Self)
        ensures
            copy == *self,
    {
        IndicatorValues {
            name: self.name.clone(),
            subscription: self.subscription.clone(),
            time: self.time,
            value: self.value,
        }
    }
}

/// What happened to the indicators of a strategy.
#[derive(Debug, PartialEq, Eq)]
pub enum IndicatorEvents {
    IndicatorAdded(String),
    IndicatorRemoved(String),
    /// The values the indicators produced for the slice of an instant.
    IndicatorTimeSlice(i64, Vec<IndicatorValues>),
    Replaced(String),
}

} // verus!
