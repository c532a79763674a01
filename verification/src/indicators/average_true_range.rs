//! The average true range of the last bars of a subscription.
//!
//! The true range of a bar is the largest of its own range and the
//! distances of its high and its low from the close of the bar before it.
//! The indicator is the mean of the true ranges of the last `period` bars,
//! rounded down to a whole price point; the oldest of them has no bar
//! before it and counts with its own range.

use crate::base_data::{BaseDataEnum, Price, MAX_PRICE};
use crate::indicators::values::IndicatorValues;
use crate::rolling_window::{window_after_add, RollingWindow};
use crate::subscriptions::DataSubscription;
use vstd::prelude::*;

verus! {

/// High, low and close of a bar; for a quote bar, those of the bid.
pub open spec fn spec_range_prices(bar: BaseDataEnum) -> Option<(Price, Price, Price)> {
    match bar {
        BaseDataEnum::Candle(c) => Some((c.high, c.low, c.close)),
        BaseDataEnum::QuoteBar(b) => Some((b.bid_high, b.bid_low, b.bid_close)),
        _ => None,
    }
}

pub open spec fn spec_max(a: int, b: int) -> int {
    if a >= b {
        a
    } else {
        b
    }
}

pub open spec fn spec_abs(a: int) -> int {
    if a >= 0 {
        a
    } else {
        -a
    }
}

/// The true range of a bar given the close of the bar before it.
pub open spec fn spec_true_range(bar: BaseDataEnum, previous_close: Option<Price>) -> int {
    let (high, low, _) = spec_range_prices(bar)->Some_0;
    match previous_close {
        Some(close) => spec_max(
            high - low,
            spec_max(spec_abs(high - close), spec_abs(low - close)),
        ),
        None => high - low,
    }
}

/// The sum of the true ranges of bars given newest first.
pub open spec fn spec_sum_true_ranges(bars: Seq<BaseDataEnum>) -> int
    decreases bars.len(),
{
    if bars.len() == 0 {
        0
    } else if bars.len() == 1 {
        spec_true_range(bars[0], None)
    } else {
        spec_true_range(bars[0], Some(spec_range_prices(bars[1])->Some_0.2))
            + spec_sum_true_ranges(bars.drop_first())
    }
}

/// The average true range of bars given newest first.
pub open spec fn spec_average_true_range(bars: Seq<BaseDataEnum>) -> int {
    spec_sum_true_ranges(bars) / (bars.len() as int)
}

/// The state of the indicator.
pub struct AverageTrueRangeState {
    pub name: String,
    pub subscription: DataSubscription,
    /// The number of bars averaged over.
    pub period: nat,
    /// The last bars, newest first; at most `period` of them.
    pub bars: Seq<BaseDataEnum>,
    /// The values produced, newest first.
    pub history: Seq<IndicatorValues>,
    pub capacity: nat,
}

impl AverageTrueRangeState {
    /// What every reachable state satisfies.
    pub open spec fn wf(self) -> bool {
        &&& self.period >= 1
        &&& self.bars.len() <= self.period
        &&& self.history.len() <= self.capacity
        &&& forall|i: int|
            0 <= i < self.bars.len() ==> spec_range_prices(#[trigger] self.bars[i]) is Some
                && self.bars[i].well_formed()
    }

    /// Whether the indicator takes the datum in: a closed, well-formed bar
    /// of its own subscription.
    pub open spec fn accepts(self, data: BaseDataEnum) -> bool {
        &&& spec_range_prices(data) is Some
        &&& data.spec_is_closed()
        &&& data.well_formed()
        &&& data.spec_subscription()@ == self.subscription@
    }

    pub open spec fn is_ready(self) -> bool {
        self.bars.len() == self.period
    }

    /// State and value after a datum. A bar that is taken in joins the last
    /// bars; once `period` bars are there, each bar yields a value.
    pub open spec fn update(self, data: BaseDataEnum) -> (
        AverageTrueRangeState,
        Option<IndicatorValues>,
    ) {
        if !self.accepts(data) {
            (self, None)
        } else {
            let bars = window_after_add(self.bars, self.period, data);
            if bars.len() == self.period {
                let value = IndicatorValues {
                    name: self.name,
                    subscription: self.subscription,
                    time: data.spec_time(),
                    value: spec_average_true_range(bars) as i64,
                };
                (
                    AverageTrueRangeState {
                        bars,
                        history: window_after_add(self.history, self.capacity, value),
                        ..self
                    },
                    Some(value),
                )
            } else {
                (AverageTrueRangeState { bars, ..self }, None)
            }
        }
    }

    /// The state with nothing seen.
    pub open spec fn reset(self) -> AverageTrueRangeState {
        AverageTrueRangeState { bars: Seq::empty(), history: Seq::empty(), ..self }
    }
}

/// The average true range indicator.
pub struct AverageTrueRange {
    name: String,
    subscription: DataSubscription,
    history: RollingWindow<IndicatorValues>,
    base_data_history: RollingWindow<BaseDataEnum>,
}

impl View for AverageTrueRange {
    type V = AverageTrueRangeState;

    closed spec fn view(&self) -> AverageTrueRangeState {
        AverageTrueRangeState {
            name: self.name,
            subscription: self.subscription,
            period: self.base_data_history.capacity(),
            bars: self.base_data_history@,
            history: self.history@,
            capacity: self.history.capacity(),
        }
    }
}

fn range_prices(bar: &BaseDataEnum) -> (prices: Option<(Price, Price, Price)>)
    ensures
        prices == spec_range_prices(*bar),
{
    match bar {
        BaseDataEnum::Candle(c) => Some((c.high, c.low, c.close)),
        BaseDataEnum::QuoteBar(b) => Some((b.bid_high, b.bid_low, b.bid_close)),
        _ => None,
    }
}

fn true_range(bar: &BaseDataEnum, previous_close: Option<Price>) -> (range: i128)
    requires
        spec_range_prices(*bar) is Some,
        bar.well_formed(),
        previous_close is Some ==> -MAX_PRICE <= previous_close->Some_0 <= MAX_PRICE,
    ensures
        range == spec_true_range(*bar, previous_close),
        0 <= range <= 2 * MAX_PRICE,
{
    let (high, low) = match bar {
        BaseDataEnum::Candle(c) => (c.high as i128, c.low as i128),
        BaseDataEnum::QuoteBar(b) => (b.bid_high as i128, b.bid_low as i128),
        _ => vstd::pervasive::unreached(),
    };
    let own = high - low;
    match previous_close {
        Some(close) => {
            let up = if high >= close as i128 {
                high - close as i128
            } else {
                close as i128 - high
            };
            let down = if low >= close as i128 {
                low - close as i128
            } else {
                close as i128 - low
            };
            let gap = if up >= down {
                up
            } else {
                down
            };
            if own >= gap {
                own
            } else {
                gap
            }
        },
        None => own,
    }
}

impl AverageTrueRange {
    /// The invariant of the indicator.
    pub closed spec fn wf(&self) -> bool {
        self@.wf()
    }

    /// The indicator is well formed only in well-formed states.
    pub proof fn lemma_wf_view(&self)
        requires
            self.wf(),
        ensures
            self@.wf(),
    {
    }

    /// An indicator over the last `period` bars of `subscription` that
    /// retains `history_to_retain` values. `None` where the period is 0.
    pub fn new(
        name: String,
        subscription: DataSubscription,
        history_to_retain: usize,
        period: usize,
    ) -> (made: Option<Self>)
        ensures
            made is Some <==> period >= 1,
            made is Some ==> made->Some_0.wf() && made->Some_0@ == (AverageTrueRangeState {
                name,
                subscription,
                period: period as nat,
                bars: Seq::empty(),
                history: Seq::empty(),
                capacity: history_to_retain as nat,
            }),
    {
        if period == 0 {
            return None;
        }
        Some(
            AverageTrueRange {
                name,
                subscription,
                history: RollingWindow::new(history_to_retain),
                base_data_history: RollingWindow::new(period),
            },
        )
    }

    fn average(&self) -> (value: Price)
        requires
            self.wf(),
            self@.bars.len() >= 1,
        ensures
            value == spec_average_true_range(self@.bars),
    {
        let count = self.base_data_history.len();
        let mut sum: i128 = 0;
        let mut i: usize = count;
        let ghost bars = self.base_data_history@;
        assert(bars.skip(count as int) =~= Seq::<BaseDataEnum>::empty());
        while i > 0
            invariant
                i <= count,
                count == bars.len(),
                bars == self.base_data_history@,
                self@.wf(),
                sum == spec_sum_true_ranges(bars.skip(i as int)),
                0 <= sum <= (count - i) * (2 * MAX_PRICE),
            decreases i,
        {
            i = i - 1;
            let bar = match self.base_data_history.get(i) {
                Some(bar) => bar,
                None => vstd::pervasive::unreached(),
            };
            let previous = if i + 1 < count {
                match self.base_data_history.get(i + 1) {
                    Some(older) => {
                        assert(bars[i + 1].well_formed());
                        match range_prices(older) {
                            Some((_, _, close)) => Some(close),
                            None => vstd::pervasive::unreached(),
                        }
                    },
                    None => vstd::pervasive::unreached(),
                }
            } else {
                None
            };
            assert(bars[i as int].well_formed());
            proof {
                let rest = bars.skip(i as int);
                assert(rest.drop_first() =~= bars.skip(i + 1));
                assert(rest[0] == bars[i as int]);
                if i + 1 < count {
                    assert(rest[1] == bars[i + 1]);
                }
                assert((count - i) * (2 * MAX_PRICE) == (count - (i + 1)) * (2 * MAX_PRICE) + 2
                    * MAX_PRICE) by (nonlinear_arith);
                assert((count - i) * (2 * MAX_PRICE) <= usize::MAX * (2 * MAX_PRICE))
                    by (nonlinear_arith)
                    requires
                        0 <= count - i <= usize::MAX,
                ;
            }
            sum = sum + true_range(bar, previous);
        }
        assert(bars.skip(0) =~= bars);
        proof {
            let total = sum as int;
            let n = count as int;
            vstd::arithmetic::div_mod::lemma_fundamental_div_mod(total, n);
            vstd::arithmetic::div_mod::lemma_mod_bound(total, n);
            vstd::arithmetic::div_mod::lemma_div_pos_is_pos(total, n);
            let q = total / n;
            let r = total % n;
            assert(q <= 2 * MAX_PRICE) by (nonlinear_arith)
                requires
                    total == n * q + r,
                    0 <= r,
                    total <= n * (2 * MAX_PRICE),
                    n >= 1,
                    q >= 0,
            ;
        }
        (sum / (count as i128)) as i64
    }

    fn accepts(&self, data: &BaseDataEnum) -> (ok: bool)
        ensures
            ok == self@.accepts(*data),
    {
        range_prices(data).is_some() && data.is_closed() && data.is_well_formed()
            && data.subscription() == self.subscription
    }

    /// Feeds one datum. Returns the value it yields, if it yields one.
    pub fn update_base_data(&mut self, base_data: &BaseDataEnum) -> (value: Option<IndicatorValues>)
        requires
            old(self).wf(),
        ensures
            final(self).wf(),
            final(self)@ == old(self)@.update(*base_data).0,
            value == old(self)@.update(*base_data).1,
    {
        if !self.accepts(base_data) {
            return None;
        }
        self.base_data_history.add(base_data.clone());
        proof {
            let grown = seq![*base_data] + old(self)@.bars;
            assert forall|i: int| 0 <= i < self@.bars.len() implies spec_range_prices(
                #[trigger] self@.bars[i],
            ) is Some && self@.bars[i].well_formed() by {
                assert(self@.bars[i] == grown[i]);
                if i > 0 {
                    assert(grown[i] == old(self)@.bars[i - 1]);
                }
            }
        }
        if !self.base_data_history.is_full() {
            return None;
        }
        let value = IndicatorValues {
            name: self.name.clone(),
            subscription: self.subscription.clone(),
            time: base_data.time_utc(),
            value: self.average(),
        };
        self.history.add(value.clone());
        Some(value)
    }

    /// Forgets everything seen.
    pub fn reset(&mut self)
        requires
            old(self).wf(),
        ensures
            final(self).wf(),
            final(self)@ == old(self)@.reset(),
    {
        self.history.clear();
        self.base_data_history.clear();
    }

    pub fn name(&self) -> (name: &String)
        ensures
            *name == self@.name,
    {
        &self.name
    }

    pub fn subscription(&self) -> (subscription: DataSubscription)
        ensures
            subscription == self@.subscription,
    {
        self.subscription.clone()
    }

    /// The value `index` values back; 0 is the most recent.
    pub fn index(&self, index: usize) -> (value: Option<IndicatorValues>)
        ensures
            value == (if index < self@.history.len() {
                Some(self@.history[index as int])
            } else {
                None
            }),
    {
        match self.history.get(index) {
            Some(value) => Some(value.clone()),
            None => None,
        }
    }

    /// The most recent value.
    pub fn current(&self) -> (value: Option<IndicatorValues>)
        ensures
            value == (if self@.history.len() > 0 {
                Some(self@.history[0])
            } else {
                None
            }),
    {
        match self.history.last() {
            Some(value) => Some(value.clone()),
            None => None,
        }
    }

    /// The values that are retained, newest first.
    pub fn plots(&self) -> (values: &RollingWindow<IndicatorValues>)
        ensures
            values@ == self@.history,
            values.capacity() == self@.capacity,
    {
        &self.history
    }

    /// Whether enough bars have been seen for a value.
    pub fn is_ready(&self) -> (ready: bool)
        ensures
            ready == self@.is_ready(),
    {
        self.base_data_history.is_full()
    }
}

/// The average true range is never negative and never more than the width
/// of the price domain.
pub proof fn lemma_average_true_range_bounds(bars: Seq<BaseDataEnum>)
    requires
        bars.len() >= 1,
        forall|i: int|
            0 <= i < bars.len() ==> spec_range_prices(#[trigger] bars[i]) is Some
                && bars[i].well_formed(),
    ensures
        0 <= spec_average_true_range(bars) <= 2 * MAX_PRICE,
{
    lemma_sum_bounds(bars);
    let sum = spec_sum_true_ranges(bars);
    let count = bars.len() as int;
    vstd::arithmetic::div_mod::lemma_fundamental_div_mod(sum, count);
    vstd::arithmetic::div_mod::lemma_mod_bound(sum, count);
    vstd::arithmetic::div_mod::lemma_div_pos_is_pos(sum, count);
    let q = sum / count;
    assert(q <= 2 * MAX_PRICE) by (nonlinear_arith)
        requires
            sum == count * q + sum % count,
            0 <= sum % count,
            sum <= count * (2 * MAX_PRICE),
            count >= 1,
            q >= 0,
    ;
}

proof fn lemma_sum_bounds(bars: Seq<BaseDataEnum>)
    requires
        forall|i: int|
            0 <= i < bars.len() ==> spec_range_prices(#[trigger] bars[i]) is Some
                && bars[i].well_formed(),
    ensures
        0 <= spec_sum_true_ranges(bars) <= bars.len() * (2 * MAX_PRICE),
    decreases bars.len(),
{
    if bars.len() >= 1 {
        assert(bars[0].well_formed());
        if bars.len() >= 2 {
            assert(bars[1].well_formed());
            let rest = bars.drop_first();
            assert forall|i: int| 0 <= i < rest.len() implies spec_range_prices(
                #[trigger] rest[i],
            ) is Some && rest[i].well_formed() by {
                assert(rest[i] == bars[i + 1]);
            }
            lemma_sum_bounds(rest);
        }
        assert(bars.len() * (2 * MAX_PRICE) == (bars.len() - 1) * (2 * MAX_PRICE) + 2 * MAX_PRICE)
            by (nonlinear_arith);
    }
}

} // verus!
