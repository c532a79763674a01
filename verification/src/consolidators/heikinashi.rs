//! Heikin-Ashi candles: time-driven bars whose prices are smoothed with the
//! bar that closed before them.
//!
//! Averages are rounded down to a whole price point.

use crate::base_data::{lemma_round_to_tick_nearest, round_to_tick_size};
use crate::base_data::{price_in_range, spec_round_to_tick, BaseDataEnum, Candle, Price, MAX_PRICE};
use crate::consolidators::candlesticks::{
    lemma_update_keeps_wf, lemma_update_output_shape, lemma_update_time_keeps_wf,
    lemma_update_time_output_shape, max_price, min_price, time_bars_initial, time_bars_rejection,
    CandleStickConsolidator, ConsolidatorError, TimeBars,
};
use crate::rolling_window::{window_after_add, RollingWindow};
use crate::subscriptions::{BaseDataType, CandleType, DataSubscription};
use vstd::pervasive::unreached;
use vstd::prelude::*;

verus! {

/// The state of a Heikin-Ashi consolidator.
pub struct HeikinAshiBars {
    /// The plain bars the candles are derived from.
    pub raw: TimeBars,
    /// Open and close of the Heikin-Ashi candle that closed last.
    pub previous: Option<(Price, Price)>,
    /// Whether a bar that goes by without data yields a flat candle.
    pub fill_forward: bool,
    /// Closed Heikin-Ashi candles, newest first.
    pub history: Seq<BaseDataEnum>,
    pub capacity: nat,
}

/// The Heikin-Ashi candle of a plain bar. Its close is the mean of the four
/// prices of the bar; its open is the mean of the open and close of the
/// Heikin-Ashi candle before it, or of the bar's own open and close when
/// there is none; its high and low extend the bar's to cover both.
pub open spec fn spec_heikin_ashi(
    bar: Candle,
    previous: Option<(Price, Price)>,
    tick_size: int,
) -> Candle {
    let close = ((bar.open + bar.high + bar.low + bar.close) / 4) as i64;
    let open = (match previous {
        Some((open, close)) => (open + close) / 2,
        None => (bar.open + bar.close) / 2,
    }) as i64;
    let high = max_price(bar.high, max_price(open, close));
    let low = min_price(bar.low, min_price(open, close));
    Candle {
        open,
        high,
        low,
        close,
        range: spec_round_to_tick(high - low, tick_size) as i64,
        candle_type: CandleType::HeikinAshi,
        ..bar
    }
}

/// The flat candle that stands for a bar without data.
pub open spec fn spec_flat_candle(subscription: DataSubscription, price: Price, time: i64) -> Candle {
    Candle {
        symbol: subscription.symbol,
        open: price,
        high: price,
        low: price,
        close: price,
        volume: 0,
        range: 0,
        is_closed: true,
        resolution: subscription.resolution,
        candle_type: CandleType::HeikinAshi,
        time,
    }
}

pub open spec fn prices_in_range(previous: Option<(Price, Price)>) -> bool {
    match previous {
        Some((open, close)) => price_in_range(open as int) && price_in_range(close as int),
        None => true,
    }
}

impl HeikinAshiBars {
    /// What every reachable state satisfies.
    pub open spec fn wf(self) -> bool {
        &&& self.raw.wf()
        &&& self.raw.subscription.base_data_type == BaseDataType::Candles
        &&& prices_in_range(self.previous)
        &&& self.history.len() <= self.capacity
        &&& forall|i: int|
            0 <= i < self.history.len() ==> self.raw.is_bar(#[trigger] self.history[i], true)
    }

    pub open spec fn smooth(self, bar: BaseDataEnum, previous: Option<(Price, Price)>) -> Candle {
        spec_heikin_ashi(bar->Candle_0, previous, self.raw.tick_size)
    }

    /// State and output after a datum arrives: the plain bars take the datum
    /// in, and what they yield is emitted smoothed. A candle that closes
    /// becomes the one the next candle is smoothed with.
    pub open spec fn update(self, data: BaseDataEnum) -> (HeikinAshiBars, Seq<BaseDataEnum>) {
        let (raw, bars) = self.raw.update(data);
        if bars.len() == 2 {
            let closed = self.smooth(bars[0], self.previous);
            let previous = Some((closed.open, closed.close));
            (
                HeikinAshiBars {
                    raw,
                    previous,
                    history: window_after_add(
                        self.history,
                        self.capacity,
                        BaseDataEnum::Candle(closed),
                    ),
                    ..self
                },
                seq![
                    BaseDataEnum::Candle(closed),
                    BaseDataEnum::Candle(self.smooth(bars[1], previous)),
                ],
            )
        } else if bars.len() == 1 {
            (
                HeikinAshiBars { raw, ..self },
                seq![BaseDataEnum::Candle(self.smooth(bars[0], self.previous))],
            )
        } else {
            (self, Seq::empty())
        }
    }

    /// Whether advancing the clock to `time` yields a flat candle: fill
    /// forward is on, a candle has closed before, and a whole bar has gone by
    /// since without data.
    pub open spec fn fills(self, time: int) -> bool {
        self.fill_forward && self.previous is Some && self.raw.bar_elapsed_empty(time)
    }

    /// State and output after the clock reaches `time`. An open candle whose
    /// close has been reached is emitted closed. Otherwise, where `fills`
    /// holds, one flat candle at the previous close is emitted for the bar
    /// that went by.
    pub open spec fn update_time(self, time: int) -> (HeikinAshiBars, Seq<BaseDataEnum>) {
        let (raw, bars) = self.raw.update_time(time);
        if bars.len() == 1 {
            let closed = self.smooth(bars[0], self.previous);
            (
                HeikinAshiBars {
                    raw,
                    previous: Some((closed.open, closed.close)),
                    history: window_after_add(
                        self.history,
                        self.capacity,
                        BaseDataEnum::Candle(closed),
                    ),
                    ..self
                },
                seq![BaseDataEnum::Candle(closed)],
            )
        } else if self.fills(time) {
            let price = self.previous->Some_0.1;
            let flat = spec_flat_candle(
                self.raw.subscription,
                price,
                self.raw.floor->Some_0 as i64,
            );
            (
                HeikinAshiBars {
                    raw: self.raw.skip_bar(),
                    previous: Some((price, price)),
                    history: window_after_add(
                        self.history,
                        self.capacity,
                        BaseDataEnum::Candle(flat),
                    ),
                    ..self
                },
                seq![BaseDataEnum::Candle(flat)],
            )
        } else {
            (self, Seq::empty())
        }
    }
}

/// Why no Heikin-Ashi consolidator exists for the arguments, if there is a
/// reason.
pub open spec fn heikin_ashi_rejection(subscription: DataSubscription, tick_size: i64) -> Option<
    ConsolidatorError,
> {
    if subscription.base_data_type == BaseDataType::Fundamentals {
        Some(ConsolidatorError::Fundamentals)
    } else if subscription.resolution is Ticks {
        Some(ConsolidatorError::WrongResolutionKind)
    } else if subscription.base_data_type != BaseDataType::Candles {
        Some(ConsolidatorError::WrongBaseDataType)
    } else if subscription.candle_type != Some(CandleType::HeikinAshi) {
        Some(ConsolidatorError::WrongCandleType)
    } else {
        time_bars_rejection(subscription, tick_size)
    }
}

/// Builds Heikin-Ashi candles of one resolution from a primary stream.
pub struct HeikinAshiConsolidator {
    raw: CandleStickConsolidator,
    previous: Option<(Price, Price)>,
    fill_forward: bool,
    history: RollingWindow<BaseDataEnum>,
}

impl View for HeikinAshiConsolidator {
    type V = HeikinAshiBars;

    closed spec fn view(&self) -> HeikinAshiBars {
        HeikinAshiBars {
            raw: self.raw@,
            previous: self.previous,
            fill_forward: self.fill_forward,
            history: self.history@,
            capacity: self.history.capacity(),
        }
    }
}

fn floor_mean(sum: i64, parts: i64) -> (mean: i64)
    requires
        parts == 2 || parts == 4,
        -parts * MAX_PRICE <= sum <= parts * MAX_PRICE,
    ensures
        mean == sum as int / parts as int,
        price_in_range(mean as int),
{
    match sum.checked_div_euclid(parts) {
        Some(mean) => mean,
        None => unreached(),
    }
}

fn heikin_ashi(bar: &Candle, previous: Option<(Price, Price)>, tick_size: i64) -> (smoothed: Candle)
    requires
        bar.well_formed(),
        prices_in_range(previous),
        1 <= tick_size <= MAX_PRICE,
    ensures
        smoothed == spec_heikin_ashi(*bar, previous, tick_size as int),
        smoothed.well_formed(),
{
    let close = floor_mean(bar.open + bar.high + bar.low + bar.close, 4);
    let open = match previous {
        Some((open, close)) => floor_mean(open + close, 2),
        None => floor_mean(bar.open + bar.close, 2),
    };
    let mut high = bar.high;
    if open > high {
        high = open;
    }
    if close > high {
        high = close;
    }
    let mut low = bar.low;
    if open < low {
        low = open;
    }
    if close < low {
        low = close;
    }
    proof {
        lemma_round_to_tick_nearest(high - low, tick_size as int);
    }
    let range = match round_to_tick_size(high - low, tick_size) {
        Some(range) => range,
        None => unreached(),
    };
    let mut smoothed = bar.clone();
    smoothed.open = open;
    smoothed.high = high;
    smoothed.low = low;
    smoothed.close = close;
    smoothed.range = range;
    smoothed.candle_type = CandleType::HeikinAshi;
    smoothed
}

impl HeikinAshiConsolidator {
    /// The invariant of the consolidator; `new` establishes it and every
    /// method keeps it.
    pub closed spec fn wf(&self) -> bool {
        self@.wf() && self.raw.wf()
    }

    /// A consolidator is well formed only in well-formed states.
    pub proof fn lemma_wf_view(&self)
        requires
            self.wf(),
        ensures
            self@.wf(),
    {
    }

    /// A consolidator for a Heikin-Ashi candle subscription.
    pub fn new(
        subscription: DataSubscription,
        history_to_retain: usize,
        tick_size: i64,
        fill_forward: bool,
    ) -> (made: Result<Self, ConsolidatorError>)
        ensures
            match made {
                Ok(c) => heikin_ashi_rejection(subscription, tick_size) is None && c.wf() && c@
                    == (HeikinAshiBars {
                    raw: time_bars_initial(subscription, 0, tick_size),
                    previous: None,
                    fill_forward,
                    history: Seq::empty(),
                    capacity: history_to_retain as nat,
                }),
                Err(e) => heikin_ashi_rejection(subscription, tick_size) == Some(e),
            },
    {
        if subscription.base_data_type == BaseDataType::Fundamentals {
            return Err(ConsolidatorError::Fundamentals);
        }
        if subscription.resolution.is_ticks() {
            return Err(ConsolidatorError::WrongResolutionKind);
        }
        if subscription.base_data_type != BaseDataType::Candles {
            return Err(ConsolidatorError::WrongBaseDataType);
        }
        match subscription.candle_type {
            Some(CandleType::HeikinAshi) => {},
            _ => {
                return Err(ConsolidatorError::WrongCandleType);
            },
        }
        let raw = match CandleStickConsolidator::new(subscription, 0, tick_size) {
            Ok(raw) => raw,
            Err(e) => {
                return Err(e);
            },
        };
        proof {
            raw.lemma_wf_view();
        }
        Ok(
            HeikinAshiConsolidator {
                raw,
                previous: None,
                fill_forward,
                history: RollingWindow::new(history_to_retain),
            },
        )
    }

    fn smooth(&self, bar: &BaseDataEnum, previous: Option<(Price, Price)>) -> (smoothed: Candle)
        requires
            self.wf(),
            bar is Candle,
            bar.well_formed(),
            prices_in_range(previous),
        ensures
            smoothed == self@.smooth(*bar, previous),
            smoothed.well_formed(),
    {
        proof {
            self.raw.lemma_wf_view();
        }
        match bar {
            BaseDataEnum::Candle(candle) => heikin_ashi(candle, previous, self.raw.tick_size()),
            _ => unreached(),
        }
    }

    fn close_candle(&mut self, closed: &Candle)
        requires
            old(self).history@.len() <= old(self).history.capacity(),
        ensures
            final(self).raw == old(self).raw,
            final(self).fill_forward == old(self).fill_forward,
            final(self).previous == Some((closed.open, closed.close)),
            final(self).history@ == window_after_add(
                old(self).history@,
                old(self).history.capacity(),
                BaseDataEnum::Candle(*closed),
            ),
            final(self).history.capacity() == old(self).history.capacity(),
    {
        self.previous = Some((closed.open, closed.close));
        self.history.add(BaseDataEnum::Candle(closed.clone()));
    }

    /// Feeds one datum of the primary stream.
    pub fn update(&mut self, base_data: &BaseDataEnum) -> (out: Vec<BaseDataEnum>)
        requires
            old(self).wf(),
        ensures
            final(self).wf(),
            final(self)@ == old(self)@.update(*base_data).0,
            out@ == old(self)@.update(*base_data).1,
    {
        proof {
            self.raw.lemma_wf_view();
            lemma_update_output_shape(self.raw@, *base_data);
            lemma_update_keeps_wf(self.raw@, *base_data);
            lemma_heikin_ashi_update_keeps_wf(self@, *base_data);
        }
        let bars = self.raw.update(base_data);
        let mut out = Vec::new();
        if bars.len() == 2 {
            let closed = self.smooth(&bars[0], self.previous);
            self.close_candle(&closed);
            let open = self.smooth(&bars[1], self.previous);
            out.push(BaseDataEnum::Candle(closed));
            out.push(BaseDataEnum::Candle(open));
            assert(out@ =~= old(self)@.update(*base_data).1);
        } else if bars.len() == 1 {
            let open = self.smooth(&bars[0], self.previous);
            out.push(BaseDataEnum::Candle(open));
            assert(out@ =~= old(self)@.update(*base_data).1);
        }
        out
    }

    /// Advances the clock to `time`.
    pub fn update_time(&mut self, time: i64) -> (out: Vec<BaseDataEnum>)
        requires
            old(self).wf(),
        ensures
            final(self).wf(),
            final(self)@ == old(self)@.update_time(time as int).0,
            out@ == old(self)@.update_time(time as int).1,
    {
        proof {
            self.raw.lemma_wf_view();
            lemma_update_time_output_shape(self.raw@, time as int);
            lemma_update_time_keeps_wf(self.raw@, time as int);
            lemma_heikin_ashi_update_time_keeps_wf(self@, time as int);
        }
        let bars = self.raw.update_time(time);
        let mut out = Vec::new();
        if bars.len() == 1 {
            let closed = self.smooth(&bars[0], self.previous);
            self.close_candle(&closed);
            out.push(BaseDataEnum::Candle(closed));
            assert(out@ =~= old(self)@.update_time(time as int).1);
            return out;
        }
        if !self.fill_forward {
            return out;
        }
        let price = match self.previous {
            Some((_, close)) => close,
            None => {
                return out;
            },
        };
        match self.raw.skip_empty_bar(time) {
            Some(open) => {
                let flat = Candle {
                    symbol: self.raw.subscription().symbol.clone(),
                    open: price,
                    high: price,
                    low: price,
                    close: price,
                    volume: 0,
                    range: 0,
                    is_closed: true,
                    resolution: self.raw.subscription().resolution,
                    candle_type: CandleType::HeikinAshi,
                    time: open,
                };
                self.close_candle(&flat);
                out.push(BaseDataEnum::Candle(flat));
                assert(out@ =~= old(self)@.update_time(time as int).1);
            },
            None => {},
        }
        out
    }

    pub fn subscription(&self) -> (subscription: &DataSubscription)
        ensures
            *subscription == self@.raw.subscription,
    {
        self.raw.subscription()
    }

    /// The closed candles that are retained, newest first.
    pub fn history(&self) -> (bars: &RollingWindow<BaseDataEnum>)
        ensures
            bars@ == self@.history,
            bars.capacity() == self@.capacity,
    {
        &self.history
    }

    /// The closed candle `index` candles back; 0 is the most recent.
    pub fn index(&self, index: usize) -> (bar: Option<BaseDataEnum>)
        ensures
            bar == (if index < self@.history.len() {
                Some(self@.history[index as int])
            } else {
                None
            }),
    {
        match self.history.get(index) {
            Some(bar) => Some(bar.clone()),
            None => None,
        }
    }

    /// The candle in progress, smoothed as it would be if it closed now.
    pub fn current(&self) -> (bar: Option<BaseDataEnum>)
        requires
            self.wf(),
        ensures
            bar == (match self@.raw.current {
                Some(raw) => Some(BaseDataEnum::Candle(self@.smooth(raw, self@.previous))),
                None => None,
            }),
    {
        proof {
            self.raw.lemma_wf_view();
        }
        match self.raw.current() {
            Some(raw) => Some(BaseDataEnum::Candle(self.smooth(&raw, self.previous))),
            None => None,
        }
    }
}

/// A smoothed candle is a well-formed candle of the same bar: same span,
/// same volume, same closed flag, with every price in the domain.
pub proof fn lemma_heikin_ashi_is_bar(
    state: TimeBars,
    bar: BaseDataEnum,
    previous: Option<(Price, Price)>,
    closed: bool,
)
    requires
        state.wf(),
        state.subscription.base_data_type == BaseDataType::Candles,
        state.is_bar(bar, closed),
        prices_in_range(previous),
    ensures
        ({
            let smoothed = spec_heikin_ashi(bar->Candle_0, previous, state.tick_size);
            &&& state.is_bar(BaseDataEnum::Candle(smoothed), closed)
            &&& smoothed.time == bar.spec_time()
            &&& smoothed.volume == bar.spec_volume()
            &&& price_in_range(smoothed.open as int)
            &&& price_in_range(smoothed.close as int)
            &&& smoothed.high >= smoothed.open && smoothed.high >= smoothed.close && smoothed.high
                >= bar->Candle_0.high
            &&& smoothed.low <= smoothed.open && smoothed.low <= smoothed.close && smoothed.low
                <= bar->Candle_0.low
        }),
{
}

proof fn lemma_push_keeps_bars(state: HeikinAshiBars, raw: TimeBars, bar: BaseDataEnum)
    requires
        state.wf(),
        state.raw.is_bar(bar, true),
        raw.subscription == state.raw.subscription,
        raw.duration == state.raw.duration,
    ensures
        window_after_add(state.history, state.capacity, bar).len() <= state.capacity,
        forall|i: int|
            0 <= i < window_after_add(state.history, state.capacity, bar).len() ==> raw.is_bar(
                #[trigger] window_after_add(state.history, state.capacity, bar)[i],
                true,
            ),
{
    let grown = seq![bar] + state.history;
    assert forall|i: int| 0 <= i < grown.len() implies raw.is_bar(#[trigger] grown[i], true) by {
        if i > 0 {
            assert(grown[i] == state.history[i - 1]);
            assert(state.raw.is_bar(state.history[i - 1], true));
        }
    }
}

/// Feeding a datum keeps the invariant.
pub proof fn lemma_heikin_ashi_update_keeps_wf(state: HeikinAshiBars, data: BaseDataEnum)
    requires
        state.wf(),
    ensures
        state.update(data).0.wf(),
{
    lemma_update_output_shape(state.raw, data);
    lemma_update_keeps_wf(state.raw, data);
    let (raw, bars) = state.raw.update(data);
    if bars.len() == 2 {
        lemma_heikin_ashi_is_bar(state.raw, bars[0], state.previous, true);
        let closed = state.smooth(bars[0], state.previous);
        lemma_push_keeps_bars(state, raw, BaseDataEnum::Candle(closed));
    } else if bars.len() == 1 {
        assert forall|i: int| 0 <= i < state.history.len() implies raw.is_bar(
            #[trigger] state.history[i],
            true,
        ) by {
            assert(state.raw.is_bar(state.history[i], true));
        }
    }
}

/// Advancing the clock keeps the invariant.
pub proof fn lemma_heikin_ashi_update_time_keeps_wf(state: HeikinAshiBars, time: int)
    requires
        state.wf(),
    ensures
        state.update_time(time).0.wf(),
{
    lemma_update_time_output_shape(state.raw, time);
    lemma_update_time_keeps_wf(state.raw, time);
    let (raw, bars) = state.raw.update_time(time);
    if bars.len() == 1 {
        lemma_heikin_ashi_is_bar(state.raw, bars[0], state.previous, true);
        let closed = state.smooth(bars[0], state.previous);
        lemma_push_keeps_bars(state, raw, BaseDataEnum::Candle(closed));
    } else if state.fills(time) {
        let price = state.previous->Some_0.1;
        let flat = spec_flat_candle(state.raw.subscription, price, state.raw.floor->Some_0 as i64);
        let skipped = state.raw.skip_bar();
        vstd::arithmetic::div_mod::lemma_mod_add_multiples_vanish(
            state.raw.floor->Some_0,
            state.raw.duration,
        );
        assert(skipped.wf()) by {
            assert forall|i: int| 0 <= i < skipped.history.len() implies skipped.is_bar(
                #[trigger] skipped.history[i],
                true,
            ) by {
                assert(state.raw.is_bar(state.raw.history[i], true));
            }
        }
        assert(state.raw.is_bar(BaseDataEnum::Candle(flat), true));
        lemma_push_keeps_bars(state, skipped, BaseDataEnum::Candle(flat));
    }
}

/// Whatever has happened, every candle in the history is closed, starts on
/// the bar grid and ends exactly one bar length after it starts.
pub proof fn lemma_heikin_ashi_history_whole_and_closed(state: HeikinAshiBars, i: int)
    requires
        state.wf(),
        0 <= i < state.history.len(),
    ensures
        state.history[i].spec_is_closed(),
        state.history[i].spec_time_created() - state.history[i].spec_time() == state.raw.duration,
        state.history[i].spec_time() as int % state.raw.duration == 0,
{
    assert(state.raw.is_bar(state.history[i], true));
}

} // verus!
