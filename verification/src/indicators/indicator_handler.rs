//! The indicators of a strategy, evaluated slice by slice.
//!
//! Indicators are kept in the order they were added and are evaluated in
//! that order, datum by datum.

use crate::base_data::BaseDataEnum;
use crate::indicators::indicator_enum::{IndicatorEnum, IndicatorModel};
use crate::indicators::values::{IndicatorEvents, IndicatorValues};
use crate::rolling_window::RollingWindow;
use crate::strategy_events::{StrategyEvent, StrategyMode};
use crate::subscriptions::{DataSubscription, DataSubscriptionView};
use vstd::prelude::*;

verus! {

/// The state of the indicators of a strategy.
pub struct Indicators {
    /// The indicators, in the order they were added.
    pub items: Seq<IndicatorModel>,
    pub is_warm_up_complete: bool,
    pub mode: StrategyMode,
    /// The events not yet collected.
    pub events: Seq<StrategyEvent>,
}

/// Index of the first indicator with the name, from `from` on.
pub open spec fn find_indicator(items: Seq<IndicatorModel>, name: Seq<char>, from: int) -> Option<
    int,
>
    decreases items.len() - from,
{
    if from < 0 || from >= items.len() {
        None
    } else if items[from].name()@ == name {
        Some(from)
    } else {
        find_indicator(items, name, from + 1)
    }
}

/// Indicators and values after every indicator has been fed a datum, in
/// order.
pub open spec fn spec_evaluate(items: Seq<IndicatorModel>, data: BaseDataEnum) -> (
    Seq<IndicatorModel>,
    Seq<IndicatorValues>,
)
    decreases items.len(),
{
    if items.len() == 0 {
        (Seq::empty(), Seq::empty())
    } else {
        let (fed, values) = spec_evaluate(items.drop_last(), data);
        let (next, value) = items.last().update(data);
        (
            fed.push(next),
            match value {
                Some(v) => values.push(v),
                None => values,
            },
        )
    }
}

/// Indicators and values after the data of a slice, datum by datum.
pub open spec fn spec_evaluate_all(items: Seq<IndicatorModel>, slice: Seq<BaseDataEnum>) -> (
    Seq<IndicatorModel>,
    Seq<IndicatorValues>,
)
    decreases slice.len(),
{
    if slice.len() == 0 {
        (items, Seq::empty())
    } else {
        let (before, values) = spec_evaluate_all(items, slice.drop_last());
        let (after, more) = spec_evaluate(before, slice.last());
        (after, values + more)
    }
}

impl Indicators {
    /// What every reachable state satisfies.
    pub open spec fn wf(self) -> bool {
        forall|i: int| 0 <= i < self.items.len() ==> (#[trigger] self.items[i]).wf()
    }

    /// The state after an indicator has been added: an indicator with a new
    /// name joins the others, one with a name already in use takes the
    /// place of the indicator that has it.
    pub open spec fn added(self, indicator: IndicatorModel) -> Indicators {
        match find_indicator(self.items, indicator.name()@, 0) {
            Some(at) => Indicators {
                items: self.items.update(at, indicator),
                events: self.events.push(
                    StrategyEvent::IndicatorEvent(IndicatorEvents::Replaced(indicator.name())),
                ),
                ..self
            },
            None => Indicators {
                items: self.items.push(indicator),
                events: self.events.push(
                    StrategyEvent::IndicatorEvent(
                        IndicatorEvents::IndicatorAdded(indicator.name()),
                    ),
                ),
                ..self
            },
        }
    }

    /// The state after the indicator with the name has been removed;
    /// unchanged where there is none.
    pub open spec fn removed(self, name: String) -> Indicators {
        match find_indicator(self.items, name@, 0) {
            Some(at) => Indicators {
                items: self.items.remove(at),
                events: self.events.push(
                    StrategyEvent::IndicatorEvent(IndicatorEvents::IndicatorRemoved(name)),
                ),
                ..self
            },
            None => self,
        }
    }

    /// The state without the indicators of a subscription.
    pub open spec fn without_subscription(self, subscription: DataSubscriptionView) -> Indicators {
        Indicators {
            items: self.items.filter(|m: IndicatorModel| m.subscription()@ != subscription),
            ..self
        }
    }

    pub open spec fn indicator(self, name: Seq<char>) -> Option<IndicatorModel> {
        match find_indicator(self.items, name, 0) {
            Some(at) => Some(self.items[at]),
            None => None,
        }
    }
}

/// The indicators of a strategy.
pub struct IndicatorHandler {
    indicators: Vec<IndicatorEnum>,
    is_warm_up_complete: bool,
    owner_id: String,
    strategy_mode: StrategyMode,
    event_buffer: Vec<StrategyEvent>,
}

impl View for IndicatorHandler {
    type V = Indicators;

    closed spec fn view(&self) -> Indicators {
        Indicators {
            items: self.indicators@.map_values(|i: IndicatorEnum| i@),
            is_warm_up_complete: self.is_warm_up_complete,
            mode: self.strategy_mode,
            events: self.event_buffer@,
        }
    }
}

impl IndicatorHandler {
    /// The invariant of the handler.
    pub closed spec fn wf(&self) -> bool {
        &&& self@.wf()
        &&& forall|i: int| 0 <= i < self.indicators@.len() ==> (#[trigger] self.indicators@[i]).wf()
    }

    pub closed spec fn spec_owner_id(&self) -> String {
        self.owner_id
    }

    /// A handler without indicators.
    pub fn new(owner_id: String, strategy_mode: StrategyMode) -> (handler: Self)
        ensures
            handler.wf(),
            handler.spec_owner_id() == owner_id,
            handler@ == (Indicators {
                items: Seq::empty(),
                is_warm_up_complete: false,
                mode: strategy_mode,
                events: Seq::empty(),
            }),
    {
        let handler = IndicatorHandler {
            indicators: Vec::new(),
            is_warm_up_complete: false,
            owner_id,
            strategy_mode,
            event_buffer: Vec::new(),
        };
        assert(handler@.items =~= Seq::empty());
        handler
    }

    fn restore(&self)
        requires
            forall|i: int|
                0 <= i < self.indicators@.len() ==> (#[trigger] self.indicators@[i]).wf(),
        ensures
            self.wf(),
    {
        proof {
            assert forall|k: int| 0 <= k < self@.items.len() implies (
            #[trigger] self@.items[k]).wf() by {
                self.indicators@[k].lemma_wf_view();
            }
        }
    }

    /// Hands out the events collected since the last call.
    pub fn get_event_buffer(&mut self) -> (events: Vec<StrategyEvent>)
        requires
            old(self).wf(),
        ensures
            final(self).wf(),
            events@ == old(self)@.events,
            final(self)@ == (Indicators { events: Seq::empty(), ..old(self)@ }),
    {
        let mut events = Vec::new();
        events.append(&mut self.event_buffer);
        events
    }

    pub fn set_warmup_complete(&mut self)
        requires
            old(self).wf(),
        ensures
            final(self).wf(),
            final(self)@ == (Indicators { is_warm_up_complete: true, ..old(self)@ }),
    {
        self.is_warm_up_complete = true;
    }

    pub fn is_warm_up_complete(&self) -> (complete: bool)
        ensures
            complete == self@.is_warm_up_complete,
    {
        self.is_warm_up_complete
    }

    fn find(&self, name: &String) -> (at: Option<usize>)
        ensures
            match at {
                Some(i) => find_indicator(self@.items, name@, 0) == Some(i as int) && i
                    < self.indicators@.len(),
                None => find_indicator(self@.items, name@, 0) is None,
            },
    {
        let mut i: usize = 0;
        while i < self.indicators.len()
            invariant
                i <= self.indicators.len(),
                find_indicator(self@.items, name@, 0) == find_indicator(
                    self@.items,
                    name@,
                    i as int,
                ),
            decreases self.indicators.len() - i,
        {
            if *self.indicators[i].name() == *name {
                return Some(i);
            }
            i = i + 1;
        }
        None
    }

    /// Adds an indicator. An indicator with the name of one that is there
    /// replaces it.
    pub fn add_indicator(&mut self, indicator: IndicatorEnum)
        requires
            old(self).wf(),
            indicator.wf(),
        ensures
            final(self).wf(),
            final(self)@ == old(self)@.added(indicator@),
    {
        let name = indicator.name().clone();
        let ghost before = self.indicators@;
        match self.find(&name) {
            Some(at) => {
                self.indicators.set(at, indicator);
                self.event_buffer.push(
                    StrategyEvent::IndicatorEvent(IndicatorEvents::Replaced(name)),
                );
                proof {
                    assert(self@.items =~= old(self)@.items.update(at as int, indicator@));
                    assert forall|k: int| 0 <= k < self.indicators@.len() implies (
                    #[trigger] self.indicators@[k]).wf() by {
                        if k != at {
                            assert(self.indicators@[k] == before[k]);
                        }
                    }
                }
            },
            None => {
                self.indicators.push(indicator);
                self.event_buffer.push(
                    StrategyEvent::IndicatorEvent(IndicatorEvents::IndicatorAdded(name)),
                );
                proof {
                    assert(self@.items =~= old(self)@.items.push(indicator@));
                    assert forall|k: int| 0 <= k < self.indicators@.len() implies (
                    #[trigger] self.indicators@[k]).wf() by {
                        if k < before.len() {
                            assert(self.indicators@[k] == before[k]);
                        }
                    }
                }
            },
        }
        self.restore();
    }

    /// Removes the indicator with the name, if there is one.
    pub fn remove_indicator(&mut self, indicator: &String)
        requires
            old(self).wf(),
        ensures
            final(self).wf(),
            final(self)@ == old(self)@.removed(*indicator),
    {
        let ghost before = self.indicators@;
        match self.find(indicator) {
            Some(at) => {
                self.indicators.remove(at);
                self.event_buffer.push(
                    StrategyEvent::IndicatorEvent(
                        IndicatorEvents::IndicatorRemoved(indicator.clone()),
                    ),
                );
                proof {
                    assert(self@.items =~= old(self)@.items.remove(at as int));
                    assert forall|k: int| 0 <= k < self.indicators@.len() implies (
                    #[trigger] self.indicators@[k]).wf() by {
                        if k < at {
                            assert(self.indicators@[k] == before[k]);
                        } else {
                            assert(self.indicators@[k] == before[k + 1]);
                        }
                    }
                }
                self.restore();
            },
            None => {},
        }
    }

    /// Removes every indicator of a subscription.
    pub fn indicators_unsubscribe_subscription(&mut self, subscription: &DataSubscription)
        requires
            old(self).wf(),
        ensures
            final(self).wf(),
            final(self)@ == old(self)@.without_subscription(subscription@),
    {
        let mut kept: Vec<IndicatorEnum> = Vec::new();
        let ghost keep = |m: IndicatorModel| m.subscription()@ != subscription@;
        let ghost before = self.indicators@;
        let ghost models = self@.items;
        let mut rest: Vec<IndicatorEnum> = Vec::new();
        assert(before.len() == self.indicators.len());
        rest.append(&mut self.indicators);
        assert(rest@ == before);
        let mut i: usize = 0;
        assert(models.take(0) =~= Seq::<IndicatorModel>::empty());
        assert(kept@.map_values(|i: IndicatorEnum| i@) =~= Seq::<IndicatorModel>::empty());
        while rest.len() > 0
            invariant
                i + rest.len() == before.len(),
                before.len() <= usize::MAX,
                rest@ == before.skip(i as int),
                keep == |m: IndicatorModel| m.subscription()@ != subscription@,
                models == before.map_values(|i: IndicatorEnum| i@),
                forall|k: int| 0 <= k < before.len() ==> (#[trigger] before[k]).wf(),
                forall|k: int| 0 <= k < kept@.len() ==> (#[trigger] kept@[k]).wf(),
                kept@.map_values(|i: IndicatorEnum| i@) == models.take(i as int).filter(keep),
            decreases rest.len(),
        {
            let ghost so_far = kept@.map_values(|i: IndicatorEnum| i@);
            assert(i < before.len());
            let indicator = rest.remove(0);
            assert(indicator == before[i as int]);
            proof {
                assert(models.take(i + 1) =~= models.take(i as int).push(models[i as int]));
                models.take(i as int).lemma_filter_push(models[i as int], keep);
                assert(rest@ =~= before.skip(i + 1));
            }
            if !(indicator.subscription() == *subscription) {
                kept.push(indicator);
                assert(kept@.map_values(|i: IndicatorEnum| i@) =~= so_far.push(indicator@));
            }
            i = i + 1;
        }
        assert(models.take(models.len() as int) =~= models);
        self.indicators = kept;
        self.restore();
    }

    /// Evaluates the indicators on a slice. Returns the event that carries
    /// the values they produced, in the order they were produced; `None`
    /// where they produced none.
    pub fn update_time_slice(&mut self, time: i64, time_slice: &Vec<BaseDataEnum>) -> (event: Option<
        StrategyEvent,
    >)
        requires
            old(self).wf(),
        ensures
            final(self).wf(),
            final(self)@ == (Indicators {
                items: spec_evaluate_all(old(self)@.items, time_slice@).0,
                ..old(self)@
            }),
            match event {
                Some(StrategyEvent::IndicatorEvent(IndicatorEvents::IndicatorTimeSlice(at, values))) => at
                    == time && values@ == spec_evaluate_all(old(self)@.items, time_slice@).1
                    && values@.len() > 0,
                Some(_) => false,
                None => spec_evaluate_all(old(self)@.items, time_slice@).1.len() == 0,
            },
    {
        let mut values: Vec<IndicatorValues> = Vec::new();
        let mut i: usize = 0;
        assert(time_slice@.take(0) =~= Seq::<BaseDataEnum>::empty());
        while i < time_slice.len()
            invariant
                i <= time_slice.len(),
                self.wf(),
                self.is_warm_up_complete == old(self).is_warm_up_complete,
                self.strategy_mode == old(self).strategy_mode,
                self.event_buffer == old(self).event_buffer,
                self@.items == spec_evaluate_all(old(self)@.items, time_slice@.take(i as int)).0,
                values@ == spec_evaluate_all(old(self)@.items, time_slice@.take(i as int)).1,
            decreases time_slice.len() - i,
        {
            proof {
                assert(time_slice@.take(i + 1).drop_last() =~= time_slice@.take(i as int));
            }
            let mut more = self.evaluate(&time_slice[i]);
            values.append(&mut more);
            i = i + 1;
        }
        assert(time_slice@.take(time_slice.len() as int) =~= time_slice@);
        if values.len() == 0 {
            None
        } else {
            Some(StrategyEvent::IndicatorEvent(IndicatorEvents::IndicatorTimeSlice(time, values)))
        }
    }

    fn evaluate(&mut self, data: &BaseDataEnum) -> (values: Vec<IndicatorValues>)
        requires
            old(self).wf(),
        ensures
            final(self).wf(),
            final(self).is_warm_up_complete == old(self).is_warm_up_complete,
            final(self).strategy_mode == old(self).strategy_mode,
            final(self).event_buffer == old(self).event_buffer,
            final(self).owner_id == old(self).owner_id,
            final(self)@.items == spec_evaluate(old(self)@.items, *data).0,
            values@ == spec_evaluate(old(self)@.items, *data).1,
    {
        let mut values: Vec<IndicatorValues> = Vec::new();
        let mut i: usize = 0;
        let ghost before = self.indicators@;
        let ghost models = self@.items;
        assert(models.take(0) =~= Seq::<IndicatorModel>::empty());
        assert(self@.items.take(0) =~= Seq::<IndicatorModel>::empty());
        while i < self.indicators.len()
            invariant
                i <= self.indicators.len(),
                self.indicators@.len() == before.len(),
                before == old(self).indicators@,
                models == before.map_values(|i: IndicatorEnum| i@),
                self.is_warm_up_complete == old(self).is_warm_up_complete,
                self.strategy_mode == old(self).strategy_mode,
                self.event_buffer == old(self).event_buffer,
                self.owner_id == old(self).owner_id,
                forall|k: int| 0 <= k < before.len() ==> (#[trigger] before[k]).wf(),
                forall|k: int| i <= k < before.len() ==> (#[trigger] self.indicators@[k]) == before[k],
                forall|k: int| 0 <= k < i ==> (#[trigger] self.indicators@[k]).wf(),
                self@.items.take(i as int) == spec_evaluate(models.take(i as int), *data).0,
                values@ == spec_evaluate(models.take(i as int), *data).1,
            decreases self.indicators.len() - i,
        {
            let ghost done = self@.items.take(i as int);
            let mut indicator = self.indicators.remove(i);
            assert(indicator == before[i as int]);
            match indicator.update_base_data(data) {
                Some(value) => {
                    values.push(value);
                },
                None => {},
            }
            self.indicators.insert(i, indicator);
            proof {
                assert(models.take(i + 1).drop_last() =~= models.take(i as int));
                assert(models.take(i + 1).last() == before[i as int]@);
                assert(self@.items.take(i + 1) =~= done.push(indicator@));
            }
            i = i + 1;
        }
        proof {
            assert(models.take(models.len() as int) =~= models);
            assert(self@.items.take(self@.items.len() as int) =~= self@.items);
        }
        self.restore();
        values
    }

    /// Feeds historical data to the indicator with the name, so that it is
    /// ready when live data arrives. The result says whether there is such
    /// an indicator.
    pub fn warmup(&mut self, name: &String, data: &Vec<BaseDataEnum>) -> (warmed: bool)
        requires
            old(self).wf(),
        ensures
            final(self).wf(),
            warmed == old(self)@.indicator(name@) is Some,
            warmed ==> final(self)@ == (Indicators {
                items: old(self)@.items.update(
                    find_indicator(old(self)@.items, name@, 0)->Some_0,
                    old(self)@.indicator(name@)->Some_0.update_all(data@),
                ),
                ..old(self)@
            }),
            !warmed ==> final(self)@ == old(self)@,
    {
        let at = match self.find(name) {
            Some(at) => at,
            None => {
                return false;
            },
        };
        let ghost before = self.indicators@;
        let mut indicator = self.indicators.remove(at);
        assert(indicator == before[at as int]);
        let mut i: usize = 0;
        assert(data@.take(0) =~= Seq::<BaseDataEnum>::empty());
        while i < data.len()
            invariant
                i <= data.len(),
                indicator.wf(),
                indicator@ == before[at as int]@.update_all(data@.take(i as int)),
            decreases data.len() - i,
        {
            proof {
                assert(data@.take(i + 1).drop_last() =~= data@.take(i as int));
            }
            indicator.update_base_data(&data[i]);
            i = i + 1;
        }
        assert(data@.take(data.len() as int) =~= data@);
        self.indicators.insert(at, indicator);
        proof {
            assert(self@.items =~= old(self)@.items.update(at as int, indicator@));
            assert forall|k: int| 0 <= k < self.indicators@.len() implies (
            #[trigger] self.indicators@[k]).wf() by {
                if k != at {
                    assert(self.indicators@[k] == before[k]);
                }
            }
        }
        self.restore();
        true
    }

    /// The values of an indicator that are retained, newest first; `None`
    /// where there is no such indicator or it has produced no value.
    pub fn history(&self, name: &String) -> (history: Option<&RollingWindow<IndicatorValues>>)
        ensures
            match history {
                Some(window) => self@.indicator(name@) is Some && window@ == self@.indicator(
                    name@,
                )->Some_0.history() && window@.len() > 0,
                None => self@.indicator(name@) is None || self@.indicator(
                    name@,
                )->Some_0.history().len() == 0,
            },
    {
        match self.find(name) {
            Some(at) => {
                let window = self.indicators[at].plots();
                if window.is_empty() {
                    None
                } else {
                    Some(window)
                }
            },
            None => None,
        }
    }

    /// The most recent value of an indicator.
    pub fn current(&self, name: &String) -> (value: Option<IndicatorValues>)
        ensures
            value == (match self@.indicator(name@) {
                Some(model) => if model.history().len() > 0 {
                    Some(model.history()[0])
                } else {
                    None
                },
                None => None,
            }),
    {
        match self.find(name) {
            Some(at) => self.indicators[at].current(),
            None => None,
        }
    }

    /// The value of an indicator `index` values back.
    pub fn index(&self, name: &String, index: usize) -> (value: Option<IndicatorValues>)
        ensures
            value == (match self@.indicator(name@) {
                Some(model) => if index < model.history().len() {
                    Some(model.history()[index as int])
                } else {
                    None
                },
                None => None,
            }),
    {
        match self.find(name) {
            Some(at) => self.indicators[at].index(index),
            None => None,
        }
    }
}

} // verus!
