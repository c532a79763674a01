//! Tick-count bars: every `number` trades make one candle.

use crate::base_data::{spec_round_to_tick, BaseDataEnum, Candle, MAX_PRICE};
use crate::base_data::{lemma_round_to_tick_nearest, round_to_tick_size};
use crate::consolidators::candlesticks::{
    bar_candle_type, max_price, min_price, ConsolidatorError,
};
use crate::resolution::Resolution;
use crate::rolling_window::{window_after_add, RollingWindow};
use crate::subscriptions::{BaseDataType, CandleType, DataSubscription};
use vstd::prelude::*;

verus! {

/// The state of a counting consolidator.
pub struct CountBars {
    pub subscription: DataSubscription,
    /// Trades per candle.
    pub number: nat,
    pub tick_size: int,
    /// The candle being filled, if a trade has arrived since the last one
    /// closed.
    pub current: Option<Candle>,
    /// Trades in the candle being filled.
    pub count: nat,
    /// Closed candles, newest first.
    pub history: Seq<BaseDataEnum>,
    pub capacity: nat,
}

/// The candle that holds a single trade.
pub open spec fn spec_first_trade(
    subscription: DataSubscription,
    price: i64,
    volume: u64,
    time: i64,
) -> Candle {
    Candle {
        symbol: subscription.symbol,
        open: price,
        high: price,
        low: price,
        close: price,
        volume,
        range: 0,
        is_closed: false,
        resolution: subscription.resolution,
        candle_type: bar_candle_type(subscription),
        time,
    }
}

/// A candle after one more trade: high is the maximum, low the minimum,
/// close the last price and volume the sum.
pub open spec fn spec_add_trade(candle: Candle, price: i64, volume: u64, tick_size: int) -> Candle {
    let high = max_price(candle.high, price);
    let low = min_price(candle.low, price);
    Candle {
        high,
        low,
        close: price,
        range: spec_round_to_tick(high - low, tick_size) as i64,
        volume: (candle.volume + volume) as u64,
        ..candle
    }
}

impl CountBars {
    /// What every reachable state satisfies.
    pub open spec fn wf(self) -> bool {
        &&& self.number >= 1
        &&& self.subscription.resolution == Resolution::Ticks(self.number as u64)
        &&& self.number <= u64::MAX
        &&& 1 <= self.tick_size <= MAX_PRICE
        &&& self.count < self.number
        &&& (self.current is Some <==> self.count > 0)
        &&& self.history.len() <= self.capacity
        &&& (self.current is Some ==> self.current->Some_0.well_formed()
            && !self.current->Some_0.is_closed)
        &&& forall|i: int|
            0 <= i < self.history.len() ==> (#[trigger] self.history[i]) is Candle
                && self.history[i].spec_is_closed()
    }

    /// Only trades are counted. A trade is dropped when its price is outside
    /// the domain or its volume would take the candle's volume past
    /// `u64::MAX`.
    pub open spec fn accepts(self, data: BaseDataEnum) -> bool {
        &&& data is Tick
        &&& data.well_formed()
        &&& match self.current {
            Some(candle) => candle.volume + data.spec_volume() <= u64::MAX,
            None => true,
        }
    }

    /// The candle being filled once the trade is in it.
    pub open spec fn absorb(self, data: BaseDataEnum) -> Candle {
        let tick = data->Tick_0;
        match self.current {
            Some(candle) => spec_add_trade(candle, tick.price, tick.volume, self.tick_size),
            None => spec_first_trade(self.subscription, tick.price, tick.volume, tick.time),
        }
    }

    /// State and output after a datum arrives. The trade that completes a
    /// candle closes it: the candle is emitted closed and appended to the
    /// history, and the next trade starts a new one. Any earlier trade
    /// yields the candle as it stands.
    pub open spec fn update(self, data: BaseDataEnum) -> (CountBars, Seq<BaseDataEnum>) {
        if !self.accepts(data) {
            (self, Seq::empty())
        } else if self.count + 1 == self.number {
            let closed = BaseDataEnum::Candle(Candle { is_closed: true, ..self.absorb(data) });
            (
                CountBars {
                    current: None,
                    count: 0,
                    history: window_after_add(self.history, self.capacity, closed),
                    ..self
                },
                seq![closed],
            )
        } else {
            (
                CountBars { current: Some(self.absorb(data)), count: self.count + 1, ..self },
                seq![BaseDataEnum::Candle(self.absorb(data))],
            )
        }
    }
}

/// Why no counting consolidator exists for the arguments, if there is a
/// reason.
pub open spec fn count_bars_rejection(
    subscription: DataSubscription,
    tick_size: i64,
) -> Option<ConsolidatorError> {
    if subscription.base_data_type == BaseDataType::Fundamentals {
        Some(ConsolidatorError::Fundamentals)
    } else if !(subscription.resolution is Ticks) || subscription.resolution.number() < 1 {
        Some(ConsolidatorError::WrongResolutionKind)
    } else if !(1 <= tick_size <= MAX_PRICE) {
        Some(ConsolidatorError::InvalidTickSize)
    } else {
        None
    }
}

/// Groups trades into candles of a fixed number of trades.
pub struct CountConsolidator {
    number: u64,
    counter: u64,
    current_data: Option<Candle>,
    subscription: DataSubscription,
    history: RollingWindow<BaseDataEnum>,
    tick_size: i64,
}

impl View for CountConsolidator {
    type V = CountBars;

    closed spec fn view(&self) -> CountBars {
        CountBars {
            subscription: self.subscription,
            number: self.number as nat,
            tick_size: self.tick_size as int,
            current: self.current_data,
            count: self.counter as nat,
            history: self.history@,
            capacity: self.history.capacity(),
        }
    }
}

impl CountConsolidator {
    /// The invariant of the consolidator; `new` establishes it and every
    /// method keeps it.
    pub closed spec fn wf(&self) -> bool {
        self@.wf()
    }

    /// A consolidator is well formed only in well-formed states.
    pub proof fn lemma_wf_view(&self)
        requires
            self.wf(),
        ensures
            self@.wf(),
    {
    }

    /// A consolidator for a subscription at `Ticks(n)`, `n >= 1`.
    pub fn new(subscription: DataSubscription, history_to_retain: usize, tick_size: i64) -> (made:
        Result<Self, ConsolidatorError>)
        ensures
            match made {
                Ok(c) => count_bars_rejection(subscription, tick_size) is None && c.wf() && c@
                    == (CountBars {
                    subscription,
                    number: subscription.resolution.number() as nat,
                    tick_size: tick_size as int,
                    current: None,
                    count: 0,
                    history: Seq::empty(),
                    capacity: history_to_retain as nat,
                }),
                Err(e) => count_bars_rejection(subscription, tick_size) == Some(e),
            },
    {
        if subscription.base_data_type == BaseDataType::Fundamentals {
            return Err(ConsolidatorError::Fundamentals);
        }
        let number = match subscription.resolution {
            Resolution::Ticks(n) => n,
            _ => {
                return Err(ConsolidatorError::WrongResolutionKind);
            },
        };
        if number < 1 {
            return Err(ConsolidatorError::WrongResolutionKind);
        }
        if tick_size < 1 || tick_size > MAX_PRICE {
            return Err(ConsolidatorError::InvalidTickSize);
        }
        Ok(
            CountConsolidator {
                number,
                counter: 0,
                current_data: None,
                subscription,
                history: RollingWindow::new(history_to_retain),
                tick_size,
            },
        )
    }

    /// Feeds one datum of the primary stream.
    pub fn update(&mut self, base_data: &BaseDataEnum) -> (out: Vec<BaseDataEnum>)
        requires
            old(self).wf(),
        ensures
            final(self).wf(),
            final(self)@ == old(self)@.update(*base_data).0,
            out@ == old(self)@.update(*base_data).1,
    {
        let tick = match base_data {
            BaseDataEnum::Tick(tick) => tick,
            _ => {
                return Vec::new();
            },
        };
        if !base_data.is_well_formed() {
            return Vec::new();
        }
        let candle = match &self.current_data {
            Some(candle) => {
                let volume = match candle.volume.checked_add(tick.volume) {
                    Some(v) => v,
                    None => {
                        return Vec::new();
                    },
                };
                let mut next = candle.clone();
                if tick.price > next.high {
                    next.high = tick.price;
                }
                if tick.price < next.low {
                    next.low = tick.price;
                }
                next.close = tick.price;
                proof {
                    lemma_round_to_tick_nearest(next.high - next.low, self.tick_size as int);
                }
                next.range = match round_to_tick_size(next.high - next.low, self.tick_size) {
                    Some(range) => range,
                    None => vstd::pervasive::unreached(),
                };
                next.volume = volume;
                next
            },
            None => {
                let kind = match self.subscription.candle_type {
                    Some(t) => t,
                    None => CandleType::CandleStick,
                };
                Candle::new(
                    self.subscription.symbol.clone(),
                    tick.price,
                    tick.volume,
                    tick.time,
                    self.subscription.resolution,
                    kind,
                )
            },
        };
        assert(candle == self@.absorb(*base_data));
        let mut out = Vec::new();
        if self.counter + 1 == self.number {
            let mut closed = candle;
            closed.is_closed = true;
            let closed = BaseDataEnum::Candle(closed);
            self.history.add(closed.clone());
            self.current_data = None;
            self.counter = 0;
            out.push(closed);
            assert(out@ =~= old(self)@.update(*base_data).1);
            proof {
                let grown = seq![closed] + old(self)@.history;
                assert forall|i: int| 0 <= i < grown.len() implies (#[trigger] grown[i]) is Candle
                    && grown[i].spec_is_closed() by {
                    if i > 0 {
                        assert(grown[i] == old(self)@.history[i - 1]);
                    }
                }
            }
        } else {
            self.current_data = Some(candle.clone());
            self.counter = self.counter + 1;
            out.push(BaseDataEnum::Candle(candle));
            assert(out@ =~= old(self)@.update(*base_data).1);
        }
        out
    }

    /// The clock does not drive counted bars: nothing changes and nothing is
    /// emitted.
    pub fn update_time(&mut self, time: i64) -> (out: Vec<BaseDataEnum>)
        ensures
            *final(self) == *old(self),
            out@ == Seq::<BaseDataEnum>::empty(),
    {
        Vec::new()
    }

    pub fn subscription(&self) -> (subscription: &DataSubscription)
        ensures
            *subscription == self@.subscription,
    {
        &self.subscription
    }

    /// The closed candles that are retained, newest first.
    pub fn history(&self) -> (bars: &RollingWindow<BaseDataEnum>)
        ensures
            bars@ == self@.history,
            bars.capacity() == self@.capacity,
    {
        &self.history
    }

    /// The closed candle `index` candles back; 0 is the most recent.
    pub fn index(&self, index: usize) -> (bar: Option<BaseDataEnum>)
        ensures
            bar == (if index < self@.history.len() {
                Some(self@.history[index as int])
            } else {
                None
            }),
    {
        match self.history.get(index) {
            Some(bar) => Some(bar.clone()),
            None => None,
        }
    }

    /// The candle being filled, if there is one.
    pub fn current(&self) -> (bar: Option<BaseDataEnum>)
        ensures
            bar == (match self@.current {
                Some(candle) => Some(BaseDataEnum::Candle(candle)),
                None => None,
            }),
    {
        match &self.current_data {
            Some(candle) => Some(BaseDataEnum::Candle(candle.clone())),
            None => None,
        }
    }
}

/// Feeding a datum keeps the invariant, and every candle the consolidator
/// emits closed holds exactly `number` trades: it closes on the trade that
/// brings the count to `number`, and never earlier.
pub proof fn lemma_count_update_keeps_wf(state: CountBars, data: BaseDataEnum)
    requires
        state.wf(),
    ensures
        state.update(data).0.wf(),
        state.update(data).1.len() <= 1,
        (state.update(data).1.len() == 1 && state.update(data).1[0].spec_is_closed()) <==> (
        state.accepts(data) && state.count + 1 == state.number),
        state.accepts(data) ==> state.update(data).1.len() == 1 && state.update(
            data,
        ).1[0].spec_volume() == (match state.current {
            Some(candle) => candle.volume as nat,
            None => 0,
        }) + data.spec_volume(),
{
    if state.accepts(data) {
        let tick = data->Tick_0;
        if state.current is Some {
            let candle = state.current->Some_0;
            let high = max_price(candle.high, tick.price);
            let low = min_price(candle.low, tick.price);
            lemma_round_to_tick_nearest(high - low, state.tick_size);
        }
        if state.count + 1 == state.number {
            let closed = state.update(data).1[0];
            let grown = seq![closed] + state.history;
            assert forall|i: int| 0 <= i < grown.len() implies (#[trigger] grown[i]) is Candle
                && grown[i].spec_is_closed() by {
                if i > 0 {
                    assert(grown[i] == state.history[i - 1]);
                }
            }
        }
    }
}

} // verus!
