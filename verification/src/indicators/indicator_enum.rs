//! The family of indicators behind one interface.

use crate::base_data::BaseDataEnum;
use crate::indicators::average_true_range::{AverageTrueRange, AverageTrueRangeState};
use crate::indicators::values::IndicatorValues;
use crate::rolling_window::RollingWindow;
use crate::subscriptions::DataSubscription;
use vstd::prelude::*;

verus! {

/// The state of any indicator.
pub enum IndicatorModel {
    AverageTrueRange(AverageTrueRangeState),
}

impl IndicatorModel {
    pub open spec fn wf(self) -> bool {
        match self {
            IndicatorModel::AverageTrueRange(s) => s.wf(),
        }
    }

    pub open spec fn name(self) -> String {
        match self {
            IndicatorModel::AverageTrueRange(s) => s.name,
        }
    }

    pub open spec fn subscription(self) -> DataSubscription {
        match self {
            IndicatorModel::AverageTrueRange(s) => s.subscription,
        }
    }

    /// The values produced, newest first.
    pub open spec fn history(self) -> Seq<IndicatorValues> {
        match self {
            IndicatorModel::AverageTrueRange(s) => s.history,
        }
    }

    pub open spec fn capacity(self) -> nat {
        match self {
            IndicatorModel::AverageTrueRange(s) => s.capacity,
        }
    }

    pub open spec fn is_ready(self) -> bool {
        match self {
            IndicatorModel::AverageTrueRange(s) => s.is_ready(),
        }
    }

    /// State and value after a datum.
    pub open spec fn update(self, data: BaseDataEnum) -> (IndicatorModel, Option<IndicatorValues>) {
        match self {
            IndicatorModel::AverageTrueRange(s) => (
                IndicatorModel::AverageTrueRange(s.update(data).0),
                s.update(data).1,
            ),
        }
    }

    /// The state with nothing seen.
    pub open spec fn reset(self) -> IndicatorModel {
        match self {
            IndicatorModel::AverageTrueRange(s) => IndicatorModel::AverageTrueRange(s.reset()),
        }
    }

    /// The state after the data has been fed in order.
    pub open spec fn update_all(self, data: Seq<BaseDataEnum>) -> IndicatorModel
        decreases data.len(),
    {
        if data.len() == 0 {
            self
        } else {
            self.update_all(data.drop_last()).update(data.last()).0
        }
    }
}

/// Any indicator.
pub enum IndicatorEnum {
    AverageTrueRange(AverageTrueRange),
}

impl View for IndicatorEnum {
    type V = IndicatorModel;

    open spec fn view(&self) -> IndicatorModel {
        match self {
            IndicatorEnum::AverageTrueRange(atr) => IndicatorModel::AverageTrueRange(atr@),
        }
    }
}

impl IndicatorEnum {
    /// The invariant of the indicator inside.
    pub open spec fn wf(&self) -> bool {
        match self {
            IndicatorEnum::AverageTrueRange(atr) => atr.wf(),
        }
    }

    /// An indicator is well formed only in well-formed states.
    pub proof fn lemma_wf_view(&self)
        requires
            self.wf(),
        ensures
            self@.wf(),
    {
        match self {
            IndicatorEnum::AverageTrueRange(atr) => atr.lemma_wf_view(),
        }
    }

    pub fn name(&self) -> (name: &String)
        ensures
            *name == self@.name(),
    {
        match self {
            IndicatorEnum::AverageTrueRange(atr) => atr.name(),
        }
    }

    pub fn subscription(&self) -> (subscription: DataSubscription)
        ensures
            subscription == self@.subscription(),
    {
        match self {
            IndicatorEnum::AverageTrueRange(atr) => atr.subscription(),
        }
    }

    /// Feeds one datum. Returns the value it yields, if it yields one.
    pub fn update_base_data(&mut self, base_data: &BaseDataEnum) -> (value: Option<IndicatorValues>)
        requires
            old(self).wf(),
        ensures
            final(self).wf(),
            final(self)@ == old(self)@.update(*base_data).0,
            value == old(self)@.update(*base_data).1,
    {
        match self {
            IndicatorEnum::AverageTrueRange(atr) => atr.update_base_data(base_data),
        }
    }

    /// Forgets everything seen.
    pub fn reset(&mut self)
        requires
            old(self).wf(),
        ensures
            final(self).wf(),
            final(self)@ == old(self)@.reset(),
    {
        match self {
            IndicatorEnum::AverageTrueRange(atr) => atr.reset(),
        }
    }

    /// The value `index` values back; 0 is the most recent.
    pub fn index(&self, index: usize) -> (value: Option<IndicatorValues>)
        ensures
            value == (if index < self@.history().len() {
                Some(self@.history()[index as int])
            } else {
                None
            }),
    {
        match self {
            IndicatorEnum::AverageTrueRange(atr) => atr.index(index),
        }
    }

    /// The most recent value.
    pub fn current(&self) -> (value: Option<IndicatorValues>)
        ensures
            value == (if self@.history().len() > 0 {
                Some(self@.history()[0])
            } else {
                None
            }),
    {
        match self {
            IndicatorEnum::AverageTrueRange(atr) => atr.current(),
        }
    }

    /// The values that are retained, newest first.
    pub fn plots(&self) -> (values: &RollingWindow<IndicatorValues>)
        ensures
            values@ == self@.history(),
            values.capacity() == self@.capacity(),
    {
        match self {
            IndicatorEnum::AverageTrueRange(atr) => atr.plots(),
        }
    }

    /// Whether the indicator has seen enough to produce values.
    pub fn is_ready(&self) -> (ready: bool)
        ensures
            ready == self@.is_ready(),
    {
        match self {
            IndicatorEnum::AverageTrueRange(atr) => atr.is_ready(),
        }
    }
}

} // verus!
