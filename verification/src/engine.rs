//! The backtest engine: the replay cursor together with the handlers it
//! drives.
//!
//! At each step the driver asks the engine what to do, fetches data if told
//! to, and hands the engine the data of the month to process a step.
//! Within a step the market is updated first, then the consolidators, then
//! the indicators, and the slice for the strategy is made last.

use crate::base_data::BaseDataEnum;
use crate::historical_engine::{
    slice_between, spec_slice_between, HistoricalEngine, ReplayStep,
};
use crate::indicators::indicator_handler::{spec_evaluate_all, IndicatorHandler, Indicators};
use crate::indicators::values::{IndicatorEvents, IndicatorValues};
use crate::market_handlers::{HistoricalMarketHandler, MarketState};
use crate::strategy_events::StrategyEvent;
use crate::subscription_handler::{
    spec_dispatch_all, spec_tick_all, SubscriptionHandler, Subscriptions,
};
use vstd::prelude::*;

verus! {

/// The backtest engine of one strategy.
pub struct Engine {
    pub owner_id: String,
    pub replay: HistoricalEngine,
    pub subscription_handler: SubscriptionHandler,
    pub market_event_handler: HistoricalMarketHandler,
    pub indicator_handler: IndicatorHandler,
}

/// What the consolidators yield in one step: what the data of the slice
/// makes them yield, then what the advance of the clock does.
pub open spec fn spec_consolidated(
    subscriptions: Subscriptions,
    slice: Seq<BaseDataEnum>,
    time: i64,
) -> (Seq<BaseDataEnum>, Seq<BaseDataEnum>) {
    let (fed, by_data) = spec_dispatch_all(subscriptions.symbols, slice);
    (by_data, spec_tick_all(fed, time as int).1)
}

/// The slice the strategy gets for a step: the consolidated data, the
/// primary data, and the data consolidators yield as the clock advances.
pub open spec fn spec_strategy_slice(
    subscriptions: Subscriptions,
    slice: Seq<BaseDataEnum>,
    time: i64,
) -> Seq<BaseDataEnum> {
    let (by_data, by_clock) = spec_consolidated(subscriptions, slice, time);
    by_data + slice + by_clock
}

/// Whether `events` are the events of a step, in order: the events of the
/// market, then, if the step is observable, the values of the indicators
/// if there are any and the slice for the strategy if it is not empty.
pub open spec fn is_step_output(
    events: Seq<StrategyEvent>,
    market_events: Seq<StrategyEvent>,
    values: Seq<IndicatorValues>,
    strategy_slice: Seq<BaseDataEnum>,
    time: i64,
    observable: bool,
) -> bool {
    let with_values = observable && values.len() > 0;
    let with_slice = observable && strategy_slice.len() > 0;
    let at_values = market_events.len() as int;
    let at_slice = at_values + (if with_values {
        1int
    } else {
        0int
    });
    &&& events.len() == at_slice + (if with_slice {
        1int
    } else {
        0int
    })
    &&& events.subrange(0, at_values) == market_events
    &&& (with_values ==> match events[at_values] {
        StrategyEvent::IndicatorEvent(IndicatorEvents::IndicatorTimeSlice(at, produced)) => at
            == time && produced@ == values,
        _ => false,
    })
    &&& (with_slice ==> match events[at_slice] {
        StrategyEvent::TimeSlice(at, data) => at == time && data@ == strategy_slice,
        _ => false,
    })
}

impl Engine {
    /// The invariant of the engine: those of its parts.
    pub open spec fn wf(&self) -> bool {
        &&& self.replay.wf()
        &&& self.subscription_handler.wf()
        &&& self.market_event_handler.wf()
        &&& self.indicator_handler.wf()
    }

    pub fn new(
        owner_id: String,
        replay: HistoricalEngine,
        subscription_handler: SubscriptionHandler,
        market_event_handler: HistoricalMarketHandler,
        indicator_handler: IndicatorHandler,
    ) -> (engine: Self)
        ensures
            engine == (Engine {
                owner_id,
                replay,
                subscription_handler,
                market_event_handler,
                indicator_handler,
            }),
    {
        Engine { owner_id, replay, subscription_handler, market_event_handler, indicator_handler }
    }

    /// Decides the next step of the replay. A change of the subscriptions
    /// since the last step is handed to the cursor as the new primary set
    /// and its flag is cleared. The step that completes the warm-up marks
    /// every handler as warmed up.
    pub fn launch(&mut self) -> (step: ReplayStep)
        requires
            old(self).wf(),
        ensures
            final(self).wf(),
            final(self).owner_id == old(self).owner_id,
            ({
                let update = if old(self).subscription_handler@.updated {
                    Some(old(self).subscription_handler@.primaries())
                } else {
                    None
                };
                &&& step == old(self).replay@.step(update).1
                &&& final(self).replay@ == old(self).replay@.step(update).0
            }),
            ({
                let cleared = Subscriptions { updated: false, ..old(self).subscription_handler@ };
                if step.warm_up_completed {
                    &&& final(self).subscription_handler@ == cleared.warmed_up()
                    &&& final(self).market_event_handler@ == (MarketState {
                        warm_up_complete: true,
                        ..old(self).market_event_handler@
                    })
                    &&& final(self).indicator_handler@ == (Indicators {
                        is_warm_up_complete: true,
                        ..old(self).indicator_handler@
                    })
                } else {
                    &&& final(self).subscription_handler@ == cleared
                    &&& final(self).market_event_handler@ == old(self).market_event_handler@
                    &&& final(self).indicator_handler@ == old(self).indicator_handler@
                }
            }),
    {
        let update = if self.subscription_handler.subscriptions_updated() {
            Some(self.subscription_handler.primary_subscriptions())
        } else {
            None
        };
        self.subscription_handler.set_subscriptions_updated(false);
        let step = self.replay.launch(update);
        if step.warm_up_completed {
            self.market_event_handler.set_warm_up_complete();
            self.subscription_handler.set_warmup_complete();
            self.indicator_handler.set_warmup_complete();
        }
        step
    }

    /// Processes one step of the replay: the data of the month later than
    /// `from` and not later than `time`. `margins[i]` is the margin for the
    /// `i`-th pending order. Returns the events of the step in the order
    /// they are to be delivered. A step that is not observable fills the
    /// histories and readies the indicators without reporting.
    pub fn historical_data_feed(
        &mut self,
        month_data: &Vec<BaseDataEnum>,
        from: i64,
        time: i64,
        observable: bool,
        margins: &Vec<i128>,
    ) -> (events: Vec<StrategyEvent>)
        requires
            old(self).wf(),
        ensures
            final(self).wf(),
            final(self).owner_id == old(self).owner_id,
            final(self).replay == old(self).replay,
            ({
                let slice = spec_slice_between(month_data@, from, time);
                let market = old(self).market_event_handler@;
                let seen = market.after_slice(time, slice);
                let subscriptions = old(self).subscription_handler@;
                let strategy_slice = spec_strategy_slice(subscriptions, slice, time);
                let evaluated = spec_evaluate_all(old(self).indicator_handler@.items, strategy_slice);
                &&& final(self).market_event_handler@ == (if market.warm_up_complete {
                    seen.after_matching(margins@).0
                } else {
                    seen
                })
                &&& final(self).subscription_handler@ == (Subscriptions {
                    symbols: spec_tick_all(
                        spec_dispatch_all(subscriptions.symbols, slice).0,
                        time as int,
                    ).0,
                    ..subscriptions
                })
                &&& final(self).indicator_handler@ == (Indicators {
                    items: evaluated.0,
                    ..old(self).indicator_handler@
                })
                &&& is_step_output(
                    events@,
                    if market.warm_up_complete {
                        seen.after_matching(margins@).1
                    } else {
                        Seq::empty()
                    },
                    evaluated.1,
                    strategy_slice,
                    time,
                    observable,
                )
            }),
    {
        let slice = slice_between(month_data, from, time);
        let mut events = self.market_event_handler.on_data_update(time, &slice, margins);
        let ghost market_events = events@;
        let mut strategy_slice = self.subscription_handler.update_time_slice(&slice);
        let mut primary = slice;
        strategy_slice.append(&mut primary);
        let mut by_clock = self.subscription_handler.update_consolidators_time(time);
        strategy_slice.append(&mut by_clock);
        match self.indicator_handler.update_time_slice(time, &strategy_slice) {
            Some(event) => {
                if observable {
                    events.push(event);
                }
            },
            None => {},
        }
        if observable && strategy_slice.len() > 0 {
            events.push(StrategyEvent::TimeSlice(time, strategy_slice));
        }
        proof {
            assert(events@.subrange(0, market_events.len() as int) =~= market_events);
        }
        events
    }

    /// The event that closes a backtest: the strategy is told that the
    /// replay is over.
    pub fn run_backtest(&self) -> (event: StrategyEvent)
        ensures
            match event {
                StrategyEvent::ShutdownEvent(message) => message@ == "Backtest complete"@,
                _ => false,
            },
    {
        StrategyEvent::ShutdownEvent("Backtest complete".to_owned())
    }
}

} // verus!
