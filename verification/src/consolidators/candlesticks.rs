//! Time-driven bars: candles from trades, quote bars from quotes.
//!
//! A bar covers the half-open span `[open, open + duration)`, where `open` is
//! a multiple of the duration. A datum is placed by the instant it became
//! known. At most one bar is open; a datum at or past its close closes it
//! and opens the bar that holds the datum.

use crate::base_data::{spec_round_to_tick, BaseDataEnum, Candle, Price, QuoteBar, MAX_PRICE};
use crate::base_data::{lemma_round_to_tick_nearest, round_to_tick_size};
use crate::resolution::{
    align_down, lemma_open_time_bounds, lemma_open_time_of_aligned, spec_bar_nanos,
    spec_open_time,
};
use crate::rolling_window::{window_after_add, RollingWindow};
use crate::subscriptions::{BaseDataType, CandleType, DataSubscription};
use vstd::prelude::*;

verus! {

/// Why a consolidator cannot be built for a subscription.
#[derive(Clone, Copy, Debug, PartialEq, Eq, Structural)]
pub enum ConsolidatorError {
    /// Fundamental data is never consolidated.
    Fundamentals,
    /// A tick resolution was given to a time-driven consolidator, or a
    /// resolution other than ticks to a counting one.
    WrongResolutionKind,
    /// The subscription's data type is not one the consolidator produces.
    WrongBaseDataType,
    /// The resolution spans no time, or more than can be represented.
    UnsupportedResolution,
    /// The tick size or block range is not positive or is outside the price
    /// domain.
    InvalidTickSize,
    /// The candle type of the subscription belongs to another consolidator.
    WrongCandleType,
}

/// The state of a time-driven consolidator.
pub struct TimeBars {
    pub subscription: DataSubscription,
    /// Length of a bar in nanoseconds.
    pub duration: int,
    pub tick_size: int,
    /// The open bar, if any.
    pub current: Option<BaseDataEnum>,
    /// Close of the most recently closed bar. Earlier data is stale.
    pub floor: Option<int>,
    /// Closed bars, newest first.
    pub history: Seq<BaseDataEnum>,
    pub capacity: nat,
}

/// Whether a datum of this shape feeds bars of the given type: trades,
/// prices and candles feed candles; quotes and quote bars feed quote bars.
pub open spec fn feeds(kind: BaseDataType, data: BaseDataEnum) -> bool {
    match kind {
        BaseDataType::Candles => data is Tick || data is Candle || data is Price,
        BaseDataType::QuoteBars => data is Quote || data is QuoteBar,
        _ => false,
    }
}

pub open spec fn bar_candle_type(subscription: DataSubscription) -> CandleType {
    match subscription.candle_type {
        Some(t) => t,
        None => CandleType::CandleStick,
    }
}

/// The bar that a datum opens at instant `open`.
pub open spec fn spec_new_bar(
    subscription: DataSubscription,
    tick_size: int,
    data: BaseDataEnum,
    open: int,
) -> BaseDataEnum {
    let kind = bar_candle_type(subscription);
    match data {
        BaseDataEnum::Tick(x) => BaseDataEnum::Candle(
            Candle {
                symbol: subscription.symbol,
                open: x.price,
                high: x.price,
                low: x.price,
                close: x.price,
                volume: x.volume,
                range: 0,
                is_closed: false,
                resolution: subscription.resolution,
                candle_type: kind,
                time: open as i64,
            },
        ),
        BaseDataEnum::Price(x) => BaseDataEnum::Candle(
            Candle {
                symbol: subscription.symbol,
                open: x.price,
                high: x.price,
                low: x.price,
                close: x.price,
                volume: 0,
                range: 0,
                is_closed: false,
                resolution: subscription.resolution,
                candle_type: kind,
                time: open as i64,
            },
        ),
        BaseDataEnum::Candle(x) => BaseDataEnum::Candle(
            Candle {
                symbol: subscription.symbol,
                open: x.open,
                high: x.high,
                low: x.low,
                close: x.close,
                volume: x.volume,
                range: spec_round_to_tick(x.high - x.low, tick_size) as i64,
                is_closed: false,
                resolution: subscription.resolution,
                candle_type: kind,
                time: open as i64,
            },
        ),
        BaseDataEnum::Quote(x) => BaseDataEnum::QuoteBar(
            QuoteBar {
                symbol: subscription.symbol,
                bid_open: x.bid,
                bid_high: x.bid,
                bid_low: x.bid,
                bid_close: x.bid,
                ask_open: x.ask,
                ask_high: x.ask,
                ask_low: x.ask,
                ask_close: x.ask,
                volume: 0,
                range: spec_round_to_tick(x.ask - x.bid, tick_size) as i64,
                is_closed: false,
                resolution: subscription.resolution,
                candle_type: kind,
                time: open as i64,
            },
        ),
        BaseDataEnum::QuoteBar(x) => BaseDataEnum::QuoteBar(
            QuoteBar {
                symbol: subscription.symbol,
                bid_open: x.bid_open,
                bid_high: x.bid_high,
                bid_low: x.bid_low,
                bid_close: x.bid_close,
                ask_open: x.ask_open,
                ask_high: x.ask_high,
                ask_low: x.ask_low,
                ask_close: x.ask_close,
                volume: x.volume,
                range: spec_round_to_tick(x.ask_high - x.bid_low, tick_size) as i64,
                is_closed: false,
                resolution: subscription.resolution,
                candle_type: kind,
                time: open as i64,
            },
        ),
        BaseDataEnum::Fundamental(_) => data,
    }
}

pub open spec fn max_price(a: Price, b: Price) -> Price {
    if a >= b {
        a
    } else {
        b
    }
}

pub open spec fn min_price(a: Price, b: Price) -> Price {
    if a <= b {
        a
    } else {
        b
    }
}

/// The open bar after it has absorbed a datum: high is the maximum, low the
/// minimum, close the last price, volume the sum, and range the rounded
/// distance from low to high (for quote bars, from lowest bid to highest
/// ask).
pub open spec fn spec_merge(bar: BaseDataEnum, data: BaseDataEnum, tick_size: int) -> BaseDataEnum {
    match (bar, data) {
        (BaseDataEnum::Candle(c), BaseDataEnum::Tick(x)) => {
            let high = max_price(c.high, x.price);
            let low = min_price(c.low, x.price);
            BaseDataEnum::Candle(
                Candle {
                    high,
                    low,
                    close: x.price,
                    range: spec_round_to_tick(high - low, tick_size) as i64,
                    volume: (c.volume + x.volume) as u64,
                    ..c
                },
            )
        },
        (BaseDataEnum::Candle(c), BaseDataEnum::Price(x)) => {
            let high = max_price(c.high, x.price);
            let low = min_price(c.low, x.price);
            BaseDataEnum::Candle(
                Candle {
                    high,
                    low,
                    close: x.price,
                    range: spec_round_to_tick(high - low, tick_size) as i64,
                    ..c
                },
            )
        },
        (BaseDataEnum::Candle(c), BaseDataEnum::Candle(x)) => {
            let high = max_price(c.high, x.high);
            let low = min_price(c.low, x.low);
            BaseDataEnum::Candle(
                Candle {
                    high,
                    low,
                    close: x.close,
                    range: spec_round_to_tick(high - low, tick_size) as i64,
                    volume: (c.volume + x.volume) as u64,
                    ..c
                },
            )
        },
        (BaseDataEnum::QuoteBar(b), BaseDataEnum::Quote(x)) => {
            let ask_high = max_price(b.ask_high, x.ask);
            let bid_low = min_price(b.bid_low, x.bid);
            BaseDataEnum::QuoteBar(
                QuoteBar {
                    ask_high,
                    ask_low: min_price(b.ask_low, x.ask),
                    bid_high: max_price(b.bid_high, x.bid),
                    bid_low,
                    ask_close: x.ask,
                    bid_close: x.bid,
                    range: spec_round_to_tick(ask_high - bid_low, tick_size) as i64,
                    ..b
                },
            )
        },
        (BaseDataEnum::QuoteBar(b), BaseDataEnum::QuoteBar(x)) => {
            let ask_high = max_price(b.ask_high, x.ask_high);
            let bid_low = min_price(b.bid_low, x.bid_low);
            BaseDataEnum::QuoteBar(
                QuoteBar {
                    ask_high,
                    ask_low: min_price(b.ask_low, x.ask_low),
                    bid_high: max_price(b.bid_high, x.bid_high),
                    bid_low,
                    ask_close: x.ask_close,
                    bid_close: x.bid_close,
                    range: spec_round_to_tick(ask_high - bid_low, tick_size) as i64,
                    volume: (b.volume + x.volume) as u64,
                    ..b
                },
            )
        },
        _ => bar,
    }
}

impl TimeBars {
    /// What every reachable state satisfies.
    pub open spec fn wf(self) -> bool {
        &&& spec_bar_nanos(self.subscription.resolution) is Some
        &&& self.duration == self.subscription.resolution.spec_duration()
        &&& self.duration > 0
        &&& 1 <= self.tick_size <= MAX_PRICE
        &&& (self.subscription.base_data_type == BaseDataType::Candles
            || self.subscription.base_data_type == BaseDataType::QuoteBars)
        &&& self.history.len() <= self.capacity
        &&& forall|i: int| 0 <= i < self.history.len() ==> self.is_bar(#[trigger] self.history[i], true)
        &&& match self.current {
            Some(bar) => self.is_bar(bar, false) && match self.floor {
                Some(floor) => floor <= bar.spec_time(),
                None => true,
            },
            None => true,
        }
        &&& match self.floor {
            Some(floor) => floor % self.duration == 0 && floor > i64::MIN,
            None => true,
        }
    }

    /// `bar` is a bar of this consolidator: of the subscription's shape and
    /// resolution, aligned to the bar grid, well formed, and closed or open
    /// as asked.
    pub open spec fn is_bar(self, bar: BaseDataEnum, closed: bool) -> bool {
        &&& (self.subscription.base_data_type == BaseDataType::Candles ==> bar is Candle)
        &&& (self.subscription.base_data_type == BaseDataType::QuoteBars ==> bar is QuoteBar)
        &&& bar.spec_resolution() == self.subscription.resolution
        &&& bar.spec_is_closed() == closed
        &&& bar.spec_time() as int % self.duration == 0
        &&& bar.well_formed()
    }

    /// Whether the consolidator takes the datum in. A datum is dropped when
    /// its shape does not feed the subscription, when a price is outside
    /// the domain, when it is older than the open bar (or, with no bar open,
    /// than the last close), when its bar cannot be represented, or when its
    /// volume would take the bar's volume past `u64::MAX`.
    pub open spec fn accepts(self, data: BaseDataEnum) -> bool {
        let t = data.spec_time_created();
        &&& data.well_formed()
        &&& feeds(self.subscription.base_data_type, data)
        &&& t <= i64::MAX
        &&& spec_open_time(t, self.duration) >= i64::MIN
        &&& match self.current {
            Some(bar) => {
                &&& bar.spec_time() <= t
                &&& (t < bar.spec_time() + self.duration ==> bar.spec_volume()
                    + data.spec_volume() <= u64::MAX)
            },
            None => match self.floor {
                Some(floor) => floor <= t,
                None => true,
            },
        }
    }

    /// Whether the datum lands at or past the close of the open bar.
    pub open spec fn rolls_over(self, data: BaseDataEnum) -> bool {
        match self.current {
            Some(bar) => data.spec_time_created() >= bar.spec_time() + self.duration,
            None => false,
        }
    }

    pub open spec fn push_closed(self, bar: BaseDataEnum) -> Seq<BaseDataEnum> {
        window_after_add(self.history, self.capacity, bar.spec_closed())
    }

    /// State and output after a datum arrives. An accepted datum yields the
    /// open bar as it now stands, preceded by the bar it closed, if it closed
    /// one. A dropped datum changes nothing and yields nothing.
    pub open spec fn update(self, data: BaseDataEnum) -> (TimeBars, Seq<BaseDataEnum>) {
        let t = data.spec_time_created();
        let fresh = spec_new_bar(
            self.subscription,
            self.tick_size,
            data,
            spec_open_time(t, self.duration),
        );
        if !self.accepts(data) {
            (self, Seq::empty())
        } else if self.rolls_over(data) {
            let bar = self.current->Some_0;
            (
                TimeBars {
                    current: Some(fresh),
                    floor: Some(bar.spec_time() + self.duration),
                    history: self.push_closed(bar),
                    ..self
                },
                seq![bar.spec_closed(), fresh],
            )
        } else if self.current is Some {
            let merged = spec_merge(self.current->Some_0, data, self.tick_size);
            (TimeBars { current: Some(merged), ..self }, seq![merged])
        } else {
            (TimeBars { current: Some(fresh), ..self }, seq![fresh])
        }
    }

    /// State and output after the clock reaches `time`: an open bar whose
    /// close has been reached is emitted closed, and no bar is opened.
    pub open spec fn update_time(self, time: int) -> (TimeBars, Seq<BaseDataEnum>) {
        match self.current {
            Some(bar) => if time >= bar.spec_time() + self.duration {
                (
                    TimeBars {
                        current: None,
                        floor: Some(bar.spec_time() + self.duration),
                        history: self.push_closed(bar),
                        ..self
                    },
                    seq![bar.spec_closed()],
                )
            } else {
                (self, Seq::empty())
            },
            None => (self, Seq::empty()),
        }
    }
}

impl TimeBars {
    /// Whether a whole bar has gone by since the last close without any
    /// datum: no bar is open, and the clock has reached the close of the bar
    /// that would have followed the last closed one.
    pub open spec fn bar_elapsed_empty(self, time: int) -> bool {
        &&& self.current is None
        &&& self.floor is Some
        &&& self.floor->Some_0 <= i64::MAX
        &&& time >= self.floor->Some_0 + self.duration
    }

    /// The state after an empty bar has been passed over: data older than its
    /// close is now stale.
    pub open spec fn skip_bar(self) -> TimeBars {
        TimeBars { floor: Some(self.floor->Some_0 + self.duration), ..self }
    }
}

/// Why no time-driven consolidator exists for the arguments, if there is a
/// reason.
pub open spec fn time_bars_rejection(
    subscription: DataSubscription,
    tick_size: i64,
) -> Option<ConsolidatorError> {
    if subscription.base_data_type == BaseDataType::Fundamentals {
        Some(ConsolidatorError::Fundamentals)
    } else if subscription.resolution is Ticks {
        Some(ConsolidatorError::WrongResolutionKind)
    } else if subscription.base_data_type != BaseDataType::Candles && subscription.base_data_type
        != BaseDataType::QuoteBars {
        Some(ConsolidatorError::WrongBaseDataType)
    } else if spec_bar_nanos(subscription.resolution) is None {
        Some(ConsolidatorError::UnsupportedResolution)
    } else if !(1 <= tick_size <= MAX_PRICE) {
        Some(ConsolidatorError::InvalidTickSize)
    } else {
        None
    }
}

/// The state of a consolidator that has seen nothing.
pub open spec fn time_bars_initial(
    subscription: DataSubscription,
    capacity: usize,
    tick_size: i64,
) -> TimeBars {
    TimeBars {
        subscription,
        duration: spec_bar_nanos(subscription.resolution)->Some_0 as int,
        tick_size: tick_size as int,
        current: None,
        floor: None,
        history: Seq::empty(),
        capacity: capacity as nat,
    }
}

/// Builds candles, or quote bars, of one resolution from a primary stream.
pub struct CandleStickConsolidator {
    current_data: Option<BaseDataEnum>,
    subscription: DataSubscription,
    history: RollingWindow<BaseDataEnum>,
    tick_size: i64,
    duration: i64,
    floor: Option<i128>,
}

impl View for CandleStickConsolidator {
    type V = TimeBars;

    closed spec fn view(&self) -> TimeBars {
        TimeBars {
            subscription: self.subscription,
            duration: self.duration as int,
            tick_size: self.tick_size as int,
            current: self.current_data,
            floor: match self.floor {
                Some(f) => Some(f as int),
                None => None,
            },
            history: self.history@,
            capacity: self.history.capacity(),
        }
    }
}

fn rounded_span(high: Price, low: Price, tick_size: i64) -> (range: Price)
    requires
        -MAX_PRICE <= low <= MAX_PRICE,
        -MAX_PRICE <= high <= MAX_PRICE,
        1 <= tick_size <= MAX_PRICE,
    ensures
        range == spec_round_to_tick(high - low, tick_size as int),
{
    proof {
        lemma_round_to_tick_nearest(high - low, tick_size as int);
    }
    match round_to_tick_size(high - low, tick_size) {
        Some(range) => range,
        None => vstd::pervasive::unreached(),
    }
}

fn larger(a: Price, b: Price) -> (m: Price)
    ensures
        m == max_price(a, b),
{
    if a >= b {
        a
    } else {
        b
    }
}

fn smaller(a: Price, b: Price) -> (m: Price)
    ensures
        m == min_price(a, b),
{
    if a <= b {
        a
    } else {
        b
    }
}

impl CandleStickConsolidator {
    /// The invariant of the consolidator; `new` establishes it and every
    /// method keeps it.
    pub closed spec fn wf(&self) -> bool {
        &&& self@.wf()
        &&& self.floor is Some ==> -1 - i64::MAX <= self.floor->Some_0 <= 2 * i64::MAX
    }

    /// A consolidator is well formed only in well-formed states.
    pub proof fn lemma_wf_view(&self)
        requires
            self.wf(),
        ensures
            self@.wf(),
    {
    }

    /// A consolidator for `subscription` that retains `history_to_retain`
    /// closed bars and rounds ranges to `tick_size`.
    pub fn new(subscription: DataSubscription, history_to_retain: usize, tick_size: i64) -> (made:
        Result<Self, ConsolidatorError>)
        ensures
            match made {
                Ok(c) => time_bars_rejection(subscription, tick_size) is None && c.wf() && c@
                    == time_bars_initial(subscription, history_to_retain, tick_size),
                Err(e) => time_bars_rejection(subscription, tick_size) == Some(e),
            },
    {
        if subscription.base_data_type == BaseDataType::Fundamentals {
            return Err(ConsolidatorError::Fundamentals);
        }
        if subscription.resolution.is_ticks() {
            return Err(ConsolidatorError::WrongResolutionKind);
        }
        if subscription.base_data_type != BaseDataType::Candles && subscription.base_data_type
            != BaseDataType::QuoteBars {
            return Err(ConsolidatorError::WrongBaseDataType);
        }
        let duration = match subscription.resolution.bar_nanos() {
            Some(d) => d,
            None => {
                return Err(ConsolidatorError::UnsupportedResolution);
            },
        };
        if tick_size < 1 || tick_size > MAX_PRICE {
            return Err(ConsolidatorError::InvalidTickSize);
        }
        Ok(
            CandleStickConsolidator {
                current_data: None,
                subscription,
                history: RollingWindow::new(history_to_retain),
                tick_size,
                duration,
                floor: None,
            },
        )
    }

    fn accepts_shape(&self, data: &BaseDataEnum) -> (ok: bool)
        ensures
            ok == feeds(self.subscription.base_data_type, *data),
    {
        match self.subscription.base_data_type {
            BaseDataType::Candles => match data {
                BaseDataEnum::Tick(_) => true,
                BaseDataEnum::Candle(_) => true,
                BaseDataEnum::Price(_) => true,
                _ => false,
            },
            BaseDataType::QuoteBars => match data {
                BaseDataEnum::Quote(_) => true,
                BaseDataEnum::QuoteBar(_) => true,
                _ => false,
            },
            _ => false,
        }
    }

    fn new_bar(&self, data: &BaseDataEnum, open: i64) -> (bar: BaseDataEnum)
        requires
            self.wf(),
            data.well_formed(),
        ensures
            bar == spec_new_bar(self.subscription, self.tick_size as int, *data, open as int),
    {
        let kind = match self.subscription.candle_type {
            Some(t) => t,
            None => CandleType::CandleStick,
        };
        match data {
            BaseDataEnum::Tick(x) => BaseDataEnum::Candle(
                Candle::new(
                    self.subscription.symbol.clone(),
                    x.price,
                    x.volume,
                    open,
                    self.subscription.resolution,
                    kind,
                ),
            ),
            BaseDataEnum::Price(x) => BaseDataEnum::Candle(
                Candle::new(
                    self.subscription.symbol.clone(),
                    x.price,
                    0,
                    open,
                    self.subscription.resolution,
                    kind,
                ),
            ),
            BaseDataEnum::Candle(x) => BaseDataEnum::Candle(
                Candle {
                    symbol: self.subscription.symbol.clone(),
                    open: x.open,
                    high: x.high,
                    low: x.low,
                    close: x.close,
                    volume: x.volume,
                    range: rounded_span(x.high, x.low, self.tick_size),
                    is_closed: false,
                    resolution: self.subscription.resolution,
                    candle_type: kind,
                    time: open,
                },
            ),
            BaseDataEnum::Quote(x) => BaseDataEnum::QuoteBar(
                QuoteBar::new(
                    self.subscription.symbol.clone(),
                    x.bid,
                    x.ask,
                    0,
                    rounded_span(x.ask, x.bid, self.tick_size),
                    open,
                    self.subscription.resolution,
                    kind,
                ),
            ),
            BaseDataEnum::QuoteBar(x) => BaseDataEnum::QuoteBar(
                QuoteBar {
                    symbol: self.subscription.symbol.clone(),
                    bid_open: x.bid_open,
                    bid_high: x.bid_high,
                    bid_low: x.bid_low,
                    bid_close: x.bid_close,
                    ask_open: x.ask_open,
                    ask_high: x.ask_high,
                    ask_low: x.ask_low,
                    ask_close: x.ask_close,
                    volume: x.volume,
                    range: rounded_span(x.ask_high, x.bid_low, self.tick_size),
                    is_closed: false,
                    resolution: self.subscription.resolution,
                    candle_type: kind,
                    time: open,
                },
            ),
            BaseDataEnum::Fundamental(x) => BaseDataEnum::Fundamental(x.clone()),
        }
    }

    /// The open bar after absorbing `data`; `None` where the volume would
    /// overflow.
    fn merge(&self, bar: &BaseDataEnum, data: &BaseDataEnum) -> (merged: Option<BaseDataEnum>)
        requires
            self.wf(),
            data.well_formed(),
            bar.well_formed(),
            feeds(self.subscription.base_data_type, *data),
            self@.is_bar(*bar, false),
        ensures
            merged == (if bar.spec_volume() + data.spec_volume() <= u64::MAX {
                Some(spec_merge(*bar, *data, self.tick_size as int))
            } else {
                None
            }),
    {
        match (bar, data) {
            (BaseDataEnum::Candle(c), BaseDataEnum::Tick(x)) => {
                let volume = match c.volume.checked_add(x.volume) {
                    Some(v) => v,
                    None => {
                        return None;
                    },
                };
                let mut next = c.clone();
                next.high = larger(c.high, x.price);
                next.low = smaller(c.low, x.price);
                next.close = x.price;
                next.range = rounded_span(next.high, next.low, self.tick_size);
                next.volume = volume;
                Some(BaseDataEnum::Candle(next))
            },
            (BaseDataEnum::Candle(c), BaseDataEnum::Price(x)) => {
                let mut next = c.clone();
                next.high = larger(c.high, x.price);
                next.low = smaller(c.low, x.price);
                next.close = x.price;
                next.range = rounded_span(next.high, next.low, self.tick_size);
                Some(BaseDataEnum::Candle(next))
            },
            (BaseDataEnum::Candle(c), BaseDataEnum::Candle(x)) => {
                let volume = match c.volume.checked_add(x.volume) {
                    Some(v) => v,
                    None => {
                        return None;
                    },
                };
                let mut next = c.clone();
                next.high = larger(c.high, x.high);
                next.low = smaller(c.low, x.low);
                next.close = x.close;
                next.range = rounded_span(next.high, next.low, self.tick_size);
                next.volume = volume;
                Some(BaseDataEnum::Candle(next))
            },
            (BaseDataEnum::QuoteBar(b), BaseDataEnum::Quote(x)) => {
                let mut next = b.clone();
                next.ask_high = larger(b.ask_high, x.ask);
                next.ask_low = smaller(b.ask_low, x.ask);
                next.bid_high = larger(b.bid_high, x.bid);
                next.bid_low = smaller(b.bid_low, x.bid);
                next.ask_close = x.ask;
                next.bid_close = x.bid;
                next.range = rounded_span(next.ask_high, next.bid_low, self.tick_size);
                Some(BaseDataEnum::QuoteBar(next))
            },
            (BaseDataEnum::QuoteBar(b), BaseDataEnum::QuoteBar(x)) => {
                let volume = match b.volume.checked_add(x.volume) {
                    Some(v) => v,
                    None => {
                        return None;
                    },
                };
                let mut next = b.clone();
                next.ask_high = larger(b.ask_high, x.ask_high);
                next.ask_low = smaller(b.ask_low, x.ask_low);
                next.bid_high = larger(b.bid_high, x.bid_high);
                next.bid_low = smaller(b.bid_low, x.bid_low);
                next.ask_close = x.ask_close;
                next.bid_close = x.bid_close;
                next.range = rounded_span(next.ask_high, next.bid_low, self.tick_size);
                next.volume = volume;
                Some(BaseDataEnum::QuoteBar(next))
            },
            _ => Some(bar.clone()),
        }
    }

    /// Feeds one datum of the primary stream.
    pub fn update(&mut self, base_data: &BaseDataEnum) -> (out: Vec<BaseDataEnum>)
        requires
            old(self).wf(),
        ensures
            final(self).wf(),
            final(self)@ == old(self)@.update(*base_data).0,
            out@ == old(self)@.update(*base_data).1,
    {
        proof {
            lemma_update_keeps_wf(self@, *base_data);
        }
        if !base_data.is_well_formed() || !self.accepts_shape(base_data) {
            return Vec::new();
        }
        let created = base_data.time_created_utc();
        if created > i64::MAX as i128 {
            return Vec::new();
        }
        let t = created as i64;
        let open = match align_down(t, self.duration) {
            Some(open) => open,
            None => {
                return Vec::new();
            },
        };
        let current = match &self.current_data {
            Some(bar) => bar.clone(),
            None => {
                match self.floor {
                    Some(floor) => {
                        if created < floor {
                            return Vec::new();
                        }
                    },
                    None => {},
                }
                let fresh = self.new_bar(base_data, open);
                self.current_data = Some(fresh.clone());
                let mut out = Vec::new();
                out.push(fresh);
                assert(out@ =~= old(self)@.update(*base_data).1);
                return out;
            },
        };
        let bar_open = current.time_utc();
        if t < bar_open {
            return Vec::new();
        }
        let close: i128 = bar_open as i128 + self.duration as i128;
        if created >= close {
            let fresh = self.new_bar(base_data, open);
            let closed = current.into_closed();
            self.history.add(closed.clone());
            self.floor = Some(close);
            self.current_data = Some(fresh.clone());
            let mut out = Vec::new();
            out.push(closed);
            out.push(fresh);
            assert(out@ =~= old(self)@.update(*base_data).1);
            out
        } else {
            match self.merge(&current, base_data) {
                Some(merged) => {
                    self.current_data = Some(merged.clone());
                    let mut out = Vec::new();
                    out.push(merged);
                    assert(out@ =~= old(self)@.update(*base_data).1);
                    out
                },
                None => Vec::new(),
            }
        }
    }

    /// Advances the clock to `time`.
    pub fn update_time(&mut self, time: i64) -> (out: Vec<BaseDataEnum>)
        requires
            old(self).wf(),
        ensures
            final(self).wf(),
            final(self)@ == old(self)@.update_time(time as int).0,
            out@ == old(self)@.update_time(time as int).1,
    {
        proof {
            lemma_update_time_keeps_wf(self@, time as int);
        }
        let current = match &self.current_data {
            Some(bar) => bar.clone(),
            None => {
                return Vec::new();
            },
        };
        let close: i128 = current.time_utc() as i128 + self.duration as i128;
        if time as i128 >= close {
            let closed = current.into_closed();
            self.history.add(closed.clone());
            self.floor = Some(close);
            self.current_data = None;
            let mut out = Vec::new();
            out.push(closed);
            assert(out@ =~= old(self)@.update_time(time as int).1);
            out
        } else {
            Vec::new()
        }
    }

    /// The open of the bar that went by empty, if one did by `time`; the
    /// consolidator then moves past it.
    pub fn skip_empty_bar(&mut self, time: i64) -> (skipped: Option<i64>)
        requires
            old(self).wf(),
        ensures
            final(self).wf(),
            old(self)@.bar_elapsed_empty(time as int) ==> skipped == Some(
                old(self)@.floor->Some_0 as i64,
            ) && final(self)@ == old(self)@.skip_bar(),
            !old(self)@.bar_elapsed_empty(time as int) ==> skipped is None && final(self)@
                == old(self)@,
    {
        if self.current_data.is_some() {
            return None;
        }
        match self.floor {
            Some(floor) => {
                if floor <= i64::MAX as i128 && time as i128 >= floor + self.duration as i128 {
                    proof {
                        vstd::arithmetic::div_mod::lemma_mod_add_multiples_vanish(
                            floor as int,
                            self.duration as int,
                        );
                    }
                    self.floor = Some(floor + self.duration as i128);
                    Some(floor as i64)
                } else {
                    None
                }
            },
            None => None,
        }
    }

    pub fn subscription(&self) -> (subscription: &DataSubscription)
        ensures
            *subscription == self@.subscription,
    {
        &self.subscription
    }

    /// The tick size that ranges are rounded to.
    pub fn tick_size(&self) -> (tick_size: i64)
        ensures
            tick_size == self@.tick_size,
    {
        self.tick_size
    }

    /// The closed bars that are retained, newest first.
    pub fn history(&self) -> (bars: &RollingWindow<BaseDataEnum>)
        ensures
            bars@ == self@.history,
            bars.capacity() == self@.capacity,
    {
        &self.history
    }

    /// The closed bar `index` bars back; 0 is the most recent.
    pub fn index(&self, index: usize) -> (bar: Option<BaseDataEnum>)
        ensures
            bar == (if index < self@.history.len() {
                Some(self@.history[index as int])
            } else {
                None
            }),
    {
        match self.history.get(index) {
            Some(bar) => Some(bar.clone()),
            None => None,
        }
    }

    /// The open bar, if there is one.
    pub fn current(&self) -> (bar: Option<BaseDataEnum>)
        ensures
            bar == self@.current,
    {
        match &self.current_data {
            Some(bar) => Some(bar.clone()),
            None => None,
        }
    }
}

/// A fresh bar is a bar of the consolidator, open, and holds the datum that
/// opened it.
pub proof fn lemma_new_bar_is_bar(state: TimeBars, data: BaseDataEnum)
    requires
        state.wf(),
        data.well_formed(),
        feeds(state.subscription.base_data_type, data),
        data.spec_time_created() <= i64::MAX,
        spec_open_time(data.spec_time_created(), state.duration) >= i64::MIN,
    ensures
        ({
            let open = spec_open_time(data.spec_time_created(), state.duration);
            let bar = spec_new_bar(state.subscription, state.tick_size, data, open);
            &&& state.is_bar(bar, false)
            &&& bar.spec_time() == open
            &&& bar.spec_volume() == data.spec_volume()
            &&& open <= data.spec_time_created() < open + state.duration
        }),
{
    lemma_open_time_bounds(data.spec_time_created(), state.duration);
}

/// The merged bar is still a bar of the consolidator, opens when it did,
/// and its volume has grown by the volume of the datum.
pub proof fn lemma_merge_is_bar(state: TimeBars, bar: BaseDataEnum, data: BaseDataEnum)
    requires
        state.wf(),
        state.is_bar(bar, false),
        data.well_formed(),
        feeds(state.subscription.base_data_type, data),
        bar.spec_volume() + data.spec_volume() <= u64::MAX,
    ensures
        state.is_bar(spec_merge(bar, data, state.tick_size), false),
        spec_merge(bar, data, state.tick_size).spec_time() == bar.spec_time(),
        spec_merge(bar, data, state.tick_size).spec_volume() == bar.spec_volume()
            + data.spec_volume(),
{
}

/// What a datum yields: nothing, the open bar, or a closed bar followed by
/// the open bar. Each is a bar of the consolidator.
pub proof fn lemma_update_output_shape(state: TimeBars, data: BaseDataEnum)
    requires
        state.wf(),
    ensures
        ({
            let (after, out) = state.update(data);
            &&& out.len() <= 2
            &&& (out.len() == 0 <==> !state.accepts(data))
            &&& (out.len() == 0 ==> after == state)
            &&& (out.len() == 1 ==> state.is_bar(out[0], false) && after.current == Some(out[0]))
            &&& (out.len() == 2 ==> state.is_bar(out[0], true) && state.is_bar(out[1], false)
                && after.current == Some(out[1]) && state.current is Some && out[0]
                == state.current->Some_0.spec_closed())
            &&& after.subscription == state.subscription
            &&& after.duration == state.duration
            &&& after.tick_size == state.tick_size
        }),
{
    if state.accepts(data) {
        lemma_new_bar_is_bar(state, data);
        if !state.rolls_over(data) && state.current is Some {
            lemma_merge_is_bar(state, state.current->Some_0, data);
        }
    }
}

/// What a clock advance yields: nothing, or the bar it closed.
pub proof fn lemma_update_time_output_shape(state: TimeBars, time: int)
    requires
        state.wf(),
    ensures
        ({
            let (after, out) = state.update_time(time);
            &&& out.len() <= 1
            &&& (out.len() == 0 ==> after == state)
            &&& (out.len() == 1 ==> state.is_bar(out[0], true) && after.current is None)
            &&& after.subscription == state.subscription
            &&& after.duration == state.duration
            &&& after.tick_size == state.tick_size
        }),
{
}

/// Feeding a datum keeps the invariant.
pub proof fn lemma_update_keeps_wf(state: TimeBars, data: BaseDataEnum)
    requires
        state.wf(),
    ensures
        state.update(data).0.wf(),
{
    if state.accepts(data) {
        let t = data.spec_time_created();
        lemma_new_bar_is_bar(state, data);
        let after = state.update(data).0;
        if state.rolls_over(data) {
            let bar = state.current->Some_0;
            lemma_push_closed_keeps_bars(state, bar);
            vstd::arithmetic::div_mod::lemma_mod_add_multiples_vanish(
                bar.spec_time() as int,
                state.duration,
            );
            lemma_aligned_floor_below_open(bar.spec_time() + state.duration, t, state.duration);
        } else if state.current is Some {
            lemma_merge_is_bar(state, state.current->Some_0, data);
        } else {
            if state.floor is Some {
                lemma_aligned_floor_below_open(state.floor->Some_0, t, state.duration);
            }
        }
    }
}

/// Advancing the clock keeps the invariant.
pub proof fn lemma_update_time_keeps_wf(state: TimeBars, time: int)
    requires
        state.wf(),
    ensures
        state.update_time(time).0.wf(),
{
    if state.current is Some {
        let bar = state.current->Some_0;
        if time >= bar.spec_time() + state.duration {
            lemma_push_closed_keeps_bars(state, bar);
            vstd::arithmetic::div_mod::lemma_mod_add_multiples_vanish(
                bar.spec_time() as int,
                state.duration,
            );
        }
    }
}

proof fn lemma_push_closed_keeps_bars(state: TimeBars, bar: BaseDataEnum)
    requires
        state.wf(),
        state.is_bar(bar, false),
    ensures
        state.push_closed(bar).len() <= state.capacity,
        forall|i: int|
            0 <= i < state.push_closed(bar).len() ==> state.is_bar(
                #[trigger] state.push_closed(bar)[i],
                true,
            ),
{
    let grown = seq![bar.spec_closed()] + state.history;
    assert(state.is_bar(bar.spec_closed(), true));
    assert forall|i: int| 0 <= i < grown.len() implies state.is_bar(#[trigger] grown[i], true) by {
        if i > 0 {
            assert(grown[i] == state.history[i - 1]);
        }
    }
}

/// A multiple of the bar length that is not after `t` is not after the open
/// of the bar that holds `t`.
proof fn lemma_aligned_floor_below_open(floor: int, t: int, duration: int)
    requires
        duration > 0,
        floor % duration == 0,
        floor <= t,
    ensures
        floor <= spec_open_time(t, duration),
{
    lemma_open_time_bounds(t, duration);
    let open = spec_open_time(t, duration);
    if open < floor {
        vstd::arithmetic::div_mod::lemma_fundamental_div_mod(floor, duration);
        vstd::arithmetic::div_mod::lemma_fundamental_div_mod(open, duration);
        let a = floor / duration;
        let b = open / duration;
        assert(a > b) by (nonlinear_arith)
            requires
                duration * a > duration * b,
                duration > 0,
        ;
        assert(duration * a >= duration * b + duration) by (nonlinear_arith)
            requires
                a >= b + 1,
                duration > 0,
        ;
    }
}

/// One event in the life of a consolidator: a datum arrives, or the clock
/// advances.
pub enum ConsolidatorInput {
    Data(BaseDataEnum),
    Time(i64),
}

/// The volume carried by the closed bars among `items`.
pub open spec fn closed_volume(items: Seq<BaseDataEnum>) -> nat
    decreases items.len(),
{
    if items.len() == 0 {
        0
    } else {
        let last = items.last();
        closed_volume(items.drop_last()) + (if (last is Candle || last is QuoteBar)
            && last.spec_is_closed() {
            last.spec_volume()
        } else {
            0
        })
    }
}

impl TimeBars {
    pub open spec fn step(self, input: ConsolidatorInput) -> (TimeBars, Seq<BaseDataEnum>) {
        match input {
            ConsolidatorInput::Data(data) => self.update(data),
            ConsolidatorInput::Time(time) => self.update_time(time as int),
        }
    }

    /// The state after a sequence of events.
    pub open spec fn run(self, inputs: Seq<ConsolidatorInput>) -> TimeBars
        decreases inputs.len(),
    {
        if inputs.len() == 0 {
            self
        } else {
            self.run(inputs.drop_last()).step(inputs.last()).0
        }
    }

    /// Volume of all bars emitted closed over a sequence of events.
    pub open spec fn run_closed_volume(self, inputs: Seq<ConsolidatorInput>) -> nat
        decreases inputs.len(),
    {
        if inputs.len() == 0 {
            0
        } else {
            self.run_closed_volume(inputs.drop_last()) + closed_volume(
                self.run(inputs.drop_last()).step(inputs.last()).1,
            )
        }
    }

    /// Volume of all data taken in over a sequence of events.
    pub open spec fn run_accepted_volume(self, inputs: Seq<ConsolidatorInput>) -> nat
        decreases inputs.len(),
    {
        if inputs.len() == 0 {
            0
        } else {
            let before = self.run(inputs.drop_last());
            self.run_accepted_volume(inputs.drop_last()) + (match inputs.last() {
                ConsolidatorInput::Data(data) => if before.accepts(data) {
                    data.spec_volume()
                } else {
                    0
                },
                ConsolidatorInput::Time(_) => 0,
            })
        }
    }

    /// Volume held by the open bar; 0 when no bar is open.
    pub open spec fn open_volume(self) -> nat {
        match self.current {
            Some(bar) => bar.spec_volume(),
            None => 0,
        }
    }
}

/// Whatever the events, every bar in the history is closed, starts on the
/// bar grid and ends exactly one bar length after it starts; the bar in
/// progress, if any, is open.
pub proof fn lemma_history_holds_whole_closed_bars(
    state: TimeBars,
    inputs: Seq<ConsolidatorInput>,
    i: int,
)
    requires
        state.wf(),
        0 <= i < state.run(inputs).history.len(),
    ensures
        state.run(inputs).wf(),
        state.run(inputs).history[i].spec_is_closed(),
        state.run(inputs).history[i].spec_time_created() - state.run(inputs).history[i].spec_time()
            == state.duration,
        state.run(inputs).history[i].spec_time() as int % state.duration == 0,
        state.run(inputs).current is Some ==> !state.run(inputs).current->Some_0.spec_is_closed(),
{
    lemma_run_keeps_wf(state, inputs);
    let after = state.run(inputs);
    assert(after.is_bar(after.history[i], true));
}

/// A sequence of events keeps the invariant, the subscription and the bar
/// length.
pub proof fn lemma_run_keeps_wf(state: TimeBars, inputs: Seq<ConsolidatorInput>)
    requires
        state.wf(),
    ensures
        state.run(inputs).wf(),
        state.run(inputs).duration == state.duration,
        state.run(inputs).subscription == state.subscription,
    decreases inputs.len(),
{
    if inputs.len() > 0 {
        lemma_run_keeps_wf(state, inputs.drop_last());
        let before = state.run(inputs.drop_last());
        match inputs.last() {
            ConsolidatorInput::Data(data) => lemma_update_keeps_wf(before, data),
            ConsolidatorInput::Time(time) => lemma_update_time_keeps_wf(before, time as int),
        }
    }
}

/// After a datum is taken in, a bar is open and the datum's instant lies in
/// it: at or after its open and before its close.
pub proof fn lemma_current_bar_holds_latest_datum(state: TimeBars, data: BaseDataEnum)
    requires
        state.wf(),
        state.accepts(data),
    ensures
        state.update(data).0.current is Some,
        state.update(data).0.current->Some_0.spec_time() <= data.spec_time_created(),
        data.spec_time_created() < state.update(data).0.current->Some_0.spec_time()
            + state.duration,
        state.update(data).1.len() > 0,
        state.update(data).1.last() == state.update(data).0.current->Some_0,
{
    lemma_new_bar_is_bar(state, data);
    if !state.rolls_over(data) && state.current is Some {
        lemma_merge_is_bar(state, state.current->Some_0, data);
    }
}

/// After the clock has advanced to `time`, a bar that is still open closes
/// after `time`.
pub proof fn lemma_open_bar_outlives_clock(state: TimeBars, time: int)
    requires
        state.wf(),
    ensures
        state.update_time(time).0.current is Some ==> time < state.update_time(
            time,
        ).0.current->Some_0.spec_time() + state.duration,
{
}

/// A datum that arrives exactly when the open bar closes does not join it:
/// the bar is emitted closed, unchanged, and the datum opens the next bar,
/// which starts at that instant.
pub proof fn lemma_datum_at_close_opens_next_bar(state: TimeBars, data: BaseDataEnum)
    requires
        state.wf(),
        state.current is Some,
        state.accepts(data),
        data.spec_time_created() == state.current->Some_0.spec_time() + state.duration,
    ensures
        state.update(data).1.len() == 2,
        state.update(data).1[0] == state.current->Some_0.spec_closed(),
        state.update(data).1[1] == state.update(data).0.current->Some_0,
        state.update(data).1[1].spec_time() == data.spec_time_created(),
        state.update(data).1[1].spec_volume() == data.spec_volume(),
{
    let bar = state.current->Some_0;
    let t = data.spec_time_created();
    vstd::arithmetic::div_mod::lemma_mod_add_multiples_vanish(bar.spec_time() as int, state.duration);
    lemma_open_time_of_aligned(t, state.duration);
    lemma_new_bar_is_bar(state, data);
}

/// One datum moves exactly its own volume into the bars: what the open bar
/// holds afterwards, plus what was emitted closed, is what the open bar held
/// before plus the volume of the datum if it was taken in.
pub proof fn lemma_update_conserves_volume(state: TimeBars, data: BaseDataEnum)
    requires
        state.wf(),
    ensures
        state.update(data).0.open_volume() + closed_volume(state.update(data).1)
            == state.open_volume() + (if state.accepts(data) {
            data.spec_volume()
        } else {
            0
        }),
{
    let out = state.update(data).1;
    if state.accepts(data) {
        lemma_new_bar_is_bar(state, data);
        if state.rolls_over(data) {
            let bar = state.current->Some_0;
            assert(out.drop_last() =~= seq![bar.spec_closed()]);
            assert(out.drop_last().drop_last() =~= Seq::<BaseDataEnum>::empty());
            assert(closed_volume(out.drop_last().drop_last()) == 0);
            assert(closed_volume(out.drop_last()) == bar.spec_volume());
        } else {
            if state.current is Some {
                lemma_merge_is_bar(state, state.current->Some_0, data);
            }
            assert(out.drop_last() =~= Seq::<BaseDataEnum>::empty());
            assert(closed_volume(out.drop_last()) == 0);
        }
    } else {
        assert(closed_volume(out) == 0);
    }
}

/// Advancing the clock creates and loses no volume.
pub proof fn lemma_update_time_conserves_volume(state: TimeBars, time: int)
    requires
        state.wf(),
    ensures
        state.update_time(time).0.open_volume() + closed_volume(state.update_time(time).1)
            == state.open_volume(),
{
    let out = state.update_time(time).1;
    if out.len() > 0 {
        assert(out.drop_last() =~= Seq::<BaseDataEnum>::empty());
        assert(closed_volume(out.drop_last()) == 0);
    } else {
        assert(closed_volume(out) == 0);
    }
}

/// Over any sequence of events, the volume of the bars emitted closed plus
/// the volume of the bar still open equals the volume of the data taken in
/// plus what the bar open at the start already held.
pub proof fn lemma_volume_is_conserved(state: TimeBars, inputs: Seq<ConsolidatorInput>)
    requires
        state.wf(),
    ensures
        state.run_closed_volume(inputs) + state.run(inputs).open_volume() == state.open_volume()
            + state.run_accepted_volume(inputs),
    decreases inputs.len(),
{
    if inputs.len() > 0 {
        lemma_volume_is_conserved(state, inputs.drop_last());
        lemma_run_keeps_wf(state, inputs.drop_last());
        let before = state.run(inputs.drop_last());
        match inputs.last() {
            ConsolidatorInput::Data(data) => lemma_update_conserves_volume(before, data),
            ConsolidatorInput::Time(time) => lemma_update_time_conserves_volume(before, time as int),
        }
    }
}

} // verus!
