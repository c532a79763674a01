//! The family of consolidators behind one interface.

use crate::base_data::BaseDataEnum;
use crate::consolidators::candlesticks::{
    time_bars_initial, time_bars_rejection, CandleStickConsolidator, ConsolidatorError, TimeBars,
};
use crate::consolidators::candlesticks::{lemma_update_keeps_wf, lemma_update_time_keeps_wf};
use crate::consolidators::count::{
    count_bars_rejection, lemma_count_update_keeps_wf, CountBars, CountConsolidator,
};
use crate::consolidators::heikinashi::{
    heikin_ashi_rejection, lemma_heikin_ashi_update_keeps_wf,
    lemma_heikin_ashi_update_time_keeps_wf, HeikinAshiBars, HeikinAshiConsolidator,
};
use crate::consolidators::renko::{renko_rejection, RenkoBlocks, RenkoConsolidator};
use crate::resolution::{Resolution, NANOS_PER_DAY, NANOS_PER_SECOND};
use crate::rolling_window::RollingWindow;
use crate::subscriptions::{CandleType, DataSubscription};
use vstd::prelude::*;

verus! {

/// What one update of a bar yields: the bar as it now stands, and the bar
/// that was closed to make room for it, if any.
#[derive(Debug, PartialEq, Eq)]
pub struct ConsolidatedData {
    pub open_data: BaseDataEnum,
    pub closed_data: Option<BaseDataEnum>,
}

impl ConsolidatedData {
    pub fn with_closed(open_data: BaseDataEnum, closed_data: BaseDataEnum) -> (data: Self)
        ensures
            data == (ConsolidatedData { open_data, closed_data: Some(closed_data) }),
    {
        Self { open_data, closed_data: Some(closed_data) }
    }

    pub fn with_open(open_data: BaseDataEnum) -> (data: Self)
        ensures
            data == (ConsolidatedData { open_data, closed_data: None }),
    {
        Self { open_data, closed_data: None }
    }

    /// The bars in the order they are reported: the closed bar first, then
    /// the open one.
    pub open spec fn spec_batch(self) -> Seq<BaseDataEnum> {
        match self.closed_data {
            Some(closed) => seq![closed, self.open_data],
            None => seq![self.open_data],
        }
    }

    pub fn into_batch(self) -> (batch: Vec<BaseDataEnum>)
        ensures
            batch@ == self.spec_batch(),
    {
        let mut batch = Vec::new();
        match self.closed_data {
            Some(closed) => {
                batch.push(closed);
            },
            None => {},
        }
        batch.push(self.open_data);
        assert(batch@ =~= self.spec_batch());
        batch
    }
}

/// What a consolidator needs to know about the instrument and the wishes of
/// its owner.
#[derive(Clone, Copy, Debug, PartialEq, Eq, Structural)]
pub struct ConsolidationSettings {
    /// The tick size of the symbol, as its vendor reports it.
    pub tick_size: i64,
    /// The size of a Renko block.
    pub block_range: i64,
    /// Whether Heikin-Ashi bars fill spans without data.
    pub fill_forward: bool,
}

/// The state of any consolidator.
pub enum ConsolidatorModel {
    Count(CountBars),
    Time(TimeBars),
    HeikinAshi(HeikinAshiBars),
    Renko(RenkoBlocks),
}

impl ConsolidatorModel {
    pub open spec fn wf(self) -> bool {
        match self {
            ConsolidatorModel::Count(s) => s.wf(),
            ConsolidatorModel::Time(s) => s.wf(),
            ConsolidatorModel::HeikinAshi(s) => s.wf(),
            ConsolidatorModel::Renko(s) => s.wf(),
        }
    }

    pub open spec fn subscription(self) -> DataSubscription {
        match self {
            ConsolidatorModel::Count(s) => s.subscription,
            ConsolidatorModel::Time(s) => s.subscription,
            ConsolidatorModel::HeikinAshi(s) => s.raw.subscription,
            ConsolidatorModel::Renko(s) => s.subscription,
        }
    }

    pub open spec fn history(self) -> Seq<BaseDataEnum> {
        match self {
            ConsolidatorModel::Count(s) => s.history,
            ConsolidatorModel::Time(s) => s.history,
            ConsolidatorModel::HeikinAshi(s) => s.history,
            ConsolidatorModel::Renko(s) => s.history,
        }
    }

    pub open spec fn capacity(self) -> nat {
        match self {
            ConsolidatorModel::Count(s) => s.capacity,
            ConsolidatorModel::Time(s) => s.capacity,
            ConsolidatorModel::HeikinAshi(s) => s.capacity,
            ConsolidatorModel::Renko(s) => s.capacity,
        }
    }

    /// The bar in progress, as the consolidator reports it.
    pub open spec fn current(self) -> Option<BaseDataEnum> {
        match self {
            ConsolidatorModel::Count(s) => match s.current {
                Some(c) => Some(BaseDataEnum::Candle(c)),
                None => None,
            },
            ConsolidatorModel::Time(s) => s.current,
            ConsolidatorModel::HeikinAshi(s) => match s.raw.current {
                Some(raw) => Some(BaseDataEnum::Candle(s.smooth(raw, s.previous))),
                None => None,
            },
            ConsolidatorModel::Renko(s) => match s.current {
                Some(c) => Some(BaseDataEnum::Candle(c)),
                None => None,
            },
        }
    }

    /// State and output after a datum arrives.
    pub open spec fn update(self, data: BaseDataEnum) -> (ConsolidatorModel, Seq<BaseDataEnum>) {
        match self {
            ConsolidatorModel::Count(s) => (
                ConsolidatorModel::Count(s.update(data).0),
                s.update(data).1,
            ),
            ConsolidatorModel::Time(s) => (
                ConsolidatorModel::Time(s.update(data).0),
                s.update(data).1,
            ),
            ConsolidatorModel::HeikinAshi(s) => (
                ConsolidatorModel::HeikinAshi(s.update(data).0),
                s.update(data).1,
            ),
            ConsolidatorModel::Renko(s) => (
                ConsolidatorModel::Renko(s.update(data).0),
                s.update(data).1,
            ),
        }
    }

    /// State and output after the clock reaches `time`. Only time-driven
    /// consolidators react to the clock.
    pub open spec fn update_time(self, time: int) -> (ConsolidatorModel, Seq<BaseDataEnum>) {
        match self {
            ConsolidatorModel::Time(s) => (
                ConsolidatorModel::Time(s.update_time(time).0),
                s.update_time(time).1,
            ),
            ConsolidatorModel::HeikinAshi(s) => (
                ConsolidatorModel::HeikinAshi(s.update_time(time).0),
                s.update_time(time).1,
            ),
            _ => (self, Seq::empty()),
        }
    }

    /// The state after the data from position `from` on that is not later
    /// than `time` has been fed, each datum followed by a clock advance to
    /// `time`; and the position of the first datum not fed.
    pub open spec fn consume(self, data: Seq<BaseDataEnum>, from: int, time: int) -> (
        ConsolidatorModel,
        int,
    )
        decreases data.len() - from,
    {
        if 0 <= from < data.len() && data[from].spec_time() <= time {
            self.update(data[from]).0.update_time(time).0.consume(data, from + 1, time)
        } else {
            (self, from)
        }
    }

    /// The state after a warm-up over the span from `last` to `to`: the
    /// clock advances in steps of one second, the last step ending at `to`;
    /// at each step the data that has become due is fed, then the clock is
    /// advanced.
    pub open spec fn warm_up(
        self,
        data: Seq<BaseDataEnum>,
        from: int,
        last: int,
        to: int,
    ) -> ConsolidatorModel
        decreases to - last,
    {
        if last >= to {
            self
        } else {
            let time = next_second(last, to);
            let (fed, next) = self.consume(data, from, time);
            fed.update_time(time).0.warm_up(data, next, time, to)
        }
    }
}

/// The instant one second after `last`, or `to` if that comes first.
pub open spec fn next_second(last: int, to: int) -> int {
    if to - last >= NANOS_PER_SECOND {
        last + NANOS_PER_SECOND
    } else {
        to
    }
}

/// The consolidator that serves a subscription, or the reason there is
/// none. Tick resolutions are counted; otherwise the candle type decides,
/// plain candlesticks being the default.
pub open spec fn spec_create(
    subscription: DataSubscription,
    capacity: usize,
    settings: ConsolidationSettings,
) -> Result<ConsolidatorModel, ConsolidatorError> {
    if subscription.resolution is Ticks {
        match count_bars_rejection(subscription, settings.tick_size) {
            Some(e) => Err(e),
            None => Ok(
                ConsolidatorModel::Count(
                    CountBars {
                        subscription,
                        number: subscription.resolution.number() as nat,
                        tick_size: settings.tick_size as int,
                        current: None,
                        count: 0,
                        history: Seq::empty(),
                        capacity: capacity as nat,
                    },
                ),
            ),
        }
    } else {
        match subscription.candle_type {
            Some(CandleType::Renko) => match renko_rejection(subscription, settings.block_range) {
                Some(e) => Err(e),
                None => Ok(
                    ConsolidatorModel::Renko(
                        RenkoBlocks {
                            subscription,
                            range: settings.block_range as int,
                            anchor: None,
                            current: None,
                            history: Seq::empty(),
                            capacity: capacity as nat,
                        },
                    ),
                ),
            },
            Some(CandleType::HeikinAshi) => match heikin_ashi_rejection(
                subscription,
                settings.tick_size,
            ) {
                Some(e) => Err(e),
                None => Ok(
                    ConsolidatorModel::HeikinAshi(
                        HeikinAshiBars {
                            raw: time_bars_initial(subscription, 0, settings.tick_size),
                            previous: None,
                            fill_forward: settings.fill_forward,
                            history: Seq::empty(),
                            capacity: capacity as nat,
                        },
                    ),
                ),
            },
            _ => match time_bars_rejection(subscription, settings.tick_size) {
                Some(e) => Err(e),
                None => Ok(
                    ConsolidatorModel::Time(
                        time_bars_initial(subscription, capacity, settings.tick_size),
                    ),
                ),
            },
        }
    }
}

/// Any consolidator.
pub enum ConsolidatorEnum {
    Count(CountConsolidator),
    CandleStickConsolidator(CandleStickConsolidator),
    HeikinAshi(HeikinAshiConsolidator),
    Renko(RenkoConsolidator),
}

impl View for ConsolidatorEnum {
    type V = ConsolidatorModel;

    open spec fn view(&self) -> ConsolidatorModel {
        match self {
            ConsolidatorEnum::Count(c) => ConsolidatorModel::Count(c@),
            ConsolidatorEnum::CandleStickConsolidator(c) => ConsolidatorModel::Time(c@),
            ConsolidatorEnum::HeikinAshi(c) => ConsolidatorModel::HeikinAshi(c@),
            ConsolidatorEnum::Renko(c) => ConsolidatorModel::Renko(c@),
        }
    }
}

impl ConsolidatorEnum {
    /// The invariant of the consolidator inside.
    pub open spec fn wf(&self) -> bool {
        match self {
            ConsolidatorEnum::Count(c) => c.wf(),
            ConsolidatorEnum::CandleStickConsolidator(c) => c.wf(),
            ConsolidatorEnum::HeikinAshi(c) => c.wf(),
            ConsolidatorEnum::Renko(c) => c.wf(),
        }
    }

    /// A consolidator is well formed only in well-formed states.
    pub proof fn lemma_wf_view(&self)
        requires
            self.wf(),
        ensures
            self@.wf(),
    {
        match self {
            ConsolidatorEnum::Count(c) => c.lemma_wf_view(),
            ConsolidatorEnum::CandleStickConsolidator(c) => c.lemma_wf_view(),
            ConsolidatorEnum::HeikinAshi(c) => c.lemma_wf_view(),
            ConsolidatorEnum::Renko(c) => c.lemma_wf_view(),
        }
    }

    /// Builds the consolidator that serves `subscription`.
    pub fn create_consolidator(
        subscription: DataSubscription,
        history_to_retain: usize,
        settings: ConsolidationSettings,
    ) -> (made: Result<ConsolidatorEnum, ConsolidatorError>)
        ensures
            match made {
                Ok(c) => c.wf() && spec_create(subscription, history_to_retain, settings) == Ok::<
                    ConsolidatorModel,
                    ConsolidatorError,
                >(c@) && c@.subscription() == subscription,
                Err(e) => spec_create(subscription, history_to_retain, settings) == Err::<
                    ConsolidatorModel,
                    ConsolidatorError,
                >(e),
            },
    {
        if subscription.resolution.is_ticks() {
            return match CountConsolidator::new(
                subscription,
                history_to_retain,
                settings.tick_size,
            ) {
                Ok(c) => Ok(ConsolidatorEnum::Count(c)),
                Err(e) => Err(e),
            };
        }
        match subscription.candle_type {
            Some(CandleType::Renko) => match RenkoConsolidator::new(
                subscription,
                history_to_retain,
                settings.block_range,
            ) {
                Ok(c) => Ok(ConsolidatorEnum::Renko(c)),
                Err(e) => Err(e),
            },
            Some(CandleType::HeikinAshi) => match HeikinAshiConsolidator::new(
                subscription,
                history_to_retain,
                settings.tick_size,
                settings.fill_forward,
            ) {
                Ok(c) => Ok(ConsolidatorEnum::HeikinAshi(c)),
                Err(e) => Err(e),
            },
            _ => match CandleStickConsolidator::new(
                subscription,
                history_to_retain,
                settings.tick_size,
            ) {
                Ok(c) => Ok(ConsolidatorEnum::CandleStickConsolidator(c)),
                Err(e) => Err(e),
            },
        }
    }

    /// Feeds one datum of the primary stream.
    pub fn update(&mut self, base_data: &BaseDataEnum) -> (out: Vec<BaseDataEnum>)
        requires
            old(self).wf(),
        ensures
            final(self).wf(),
            final(self)@ == old(self)@.update(*base_data).0,
            out@ == old(self)@.update(*base_data).1,
    {
        match self {
            ConsolidatorEnum::Count(c) => c.update(base_data),
            ConsolidatorEnum::CandleStickConsolidator(c) => c.update(base_data),
            ConsolidatorEnum::HeikinAshi(c) => c.update(base_data),
            ConsolidatorEnum::Renko(c) => c.update(base_data),
        }
    }

    /// Advances the clock to `time`.
    pub fn update_time(&mut self, time: i64) -> (out: Vec<BaseDataEnum>)
        requires
            old(self).wf(),
        ensures
            final(self).wf(),
            final(self)@ == old(self)@.update_time(time as int).0,
            out@ == old(self)@.update_time(time as int).1,
    {
        match self {
            ConsolidatorEnum::Count(c) => c.update_time(time),
            ConsolidatorEnum::CandleStickConsolidator(c) => c.update_time(time),
            ConsolidatorEnum::HeikinAshi(c) => c.update_time(time),
            ConsolidatorEnum::Renko(c) => c.update_time(time),
        }
    }

    pub fn subscription(&self) -> (subscription: &DataSubscription)
        ensures
            *subscription == self@.subscription(),
    {
        match self {
            ConsolidatorEnum::Count(c) => c.subscription(),
            ConsolidatorEnum::CandleStickConsolidator(c) => c.subscription(),
            ConsolidatorEnum::HeikinAshi(c) => c.subscription(),
            ConsolidatorEnum::Renko(c) => c.subscription(),
        }
    }

    pub fn resolution(&self) -> (resolution: Resolution)
        ensures
            resolution == self@.subscription().resolution,
    {
        self.subscription().resolution
    }

    /// The closed bars that are retained, newest first.
    pub fn history(&self) -> (bars: &RollingWindow<BaseDataEnum>)
        ensures
            bars@ == self@.history(),
            bars.capacity() == self@.capacity(),
    {
        match self {
            ConsolidatorEnum::Count(c) => c.history(),
            ConsolidatorEnum::CandleStickConsolidator(c) => c.history(),
            ConsolidatorEnum::HeikinAshi(c) => c.history(),
            ConsolidatorEnum::Renko(c) => c.history(),
        }
    }

    /// The closed bar `index` bars back; 0 is the most recent.
    pub fn index(&self, index: usize) -> (bar: Option<BaseDataEnum>)
        ensures
            bar == (if index < self@.history().len() {
                Some(self@.history()[index as int])
            } else {
                None
            }),
    {
        match self {
            ConsolidatorEnum::Count(c) => c.index(index),
            ConsolidatorEnum::CandleStickConsolidator(c) => c.index(index),
            ConsolidatorEnum::HeikinAshi(c) => c.index(index),
            ConsolidatorEnum::Renko(c) => c.index(index),
        }
    }

    /// The bar in progress, if there is one.
    pub fn current(&self) -> (bar: Option<BaseDataEnum>)
        requires
            self.wf(),
        ensures
            bar == self@.current(),
    {
        match self {
            ConsolidatorEnum::Count(c) => c.current(),
            ConsolidatorEnum::CandleStickConsolidator(c) => c.current(),
            ConsolidatorEnum::HeikinAshi(c) => c.current(),
            ConsolidatorEnum::Renko(c) => c.current(),
        }
    }

    /// Replays historical primary data through the consolidator so that its
    /// history is filled by the instant `to_time`. `data` is consumed in the
    /// order given; the clock runs from `from_time` in steps of one second.
    pub fn warmup(&mut self, data: &Vec<BaseDataEnum>, from_time: i64, to_time: i64)
        requires
            old(self).wf(),
        ensures
            final(self).wf(),
            final(self)@ == old(self)@.warm_up(data@, 0, from_time as int, to_time as int),
    {
        let mut last = from_time;
        let mut next: usize = 0;
        while last < to_time
            invariant
                self.wf(),
                next <= data.len(),
                old(self)@.warm_up(data@, 0, from_time as int, to_time as int) == self@.warm_up(
                    data@,
                    next as int,
                    last as int,
                    to_time as int,
                ),
            decreases to_time - last,
        {
            let time = if to_time as i128 - last as i128 >= NANOS_PER_SECOND as i128 {
                last + NANOS_PER_SECOND
            } else {
                to_time
            };
            let ghost start = self@;
            let ghost first = next;
            while next < data.len() && data[next].time_utc() <= time
                invariant
                    self.wf(),
                    next <= data.len(),
                    start.consume(data@, first as int, time as int) == self@.consume(
                        data@,
                        next as int,
                        time as int,
                    ),
                decreases data.len() - next,
            {
                self.update(&data[next]);
                self.update_time(time);
                next = next + 1;
            }
            self.update_time(time);
            last = time;
        }
    }
}

/// The length of the warm-up span for `history_len` bars of `resolution`:
/// that many bars, and four days more to bridge weekends and holidays.
pub open spec fn spec_warmup_margin(resolution: Resolution, history_len: u64) -> int {
    history_len * resolution.spec_duration() + 4 * NANOS_PER_DAY
}

/// The instant at which a warm-up that ends at `to_time` starts. `None`
/// where that instant cannot be represented.
pub fn warmup_start(to_time: i64, resolution: &Resolution, history_len: u64) -> (from: Option<i64>)
    ensures
        from == (if to_time - spec_warmup_margin(*resolution, history_len) >= i64::MIN {
            Some((to_time - spec_warmup_margin(*resolution, history_len)) as i64)
        } else {
            None
        }),
{
    let duration = resolution.duration_nanos();
    proof {
        vstd::arithmetic::mul::lemma_mul_nonnegative(
            history_len as int,
            resolution.spec_duration(),
        );
    }
    let span = match (history_len as i128).checked_mul(duration) {
        Some(span) => span,
        None => {
            assert(history_len * resolution.spec_duration() > i128::MAX);
            return None;
        },
    };
    let margin = match span.checked_add(4 * NANOS_PER_DAY as i128) {
        Some(margin) => margin,
        None => {
            return None;
        },
    };
    match (to_time as i128).checked_sub(margin) {
        Some(from) => if from >= i64::MIN as i128 {
            Some(from as i64)
        } else {
            None
        },
        None => None,
    }
}

/// Creation yields a consolidator in a well-formed state.
pub proof fn lemma_created_is_wf(
    subscription: DataSubscription,
    capacity: usize,
    settings: ConsolidationSettings,
)
    requires
        spec_create(subscription, capacity, settings) is Ok,
    ensures
        spec_create(subscription, capacity, settings)->Ok_0.wf(),
        spec_create(subscription, capacity, settings)->Ok_0.subscription() == subscription,
        spec_create(subscription, capacity, settings)->Ok_0.history().len() == 0,
        spec_create(subscription, capacity, settings)->Ok_0.current() is None,
{
}

/// Feeding a datum or advancing the clock keeps any consolidator well
/// formed and on its subscription.
pub proof fn lemma_model_step_keeps_wf(state: ConsolidatorModel, data: BaseDataEnum, time: int)
    requires
        state.wf(),
    ensures
        state.update(data).0.wf(),
        state.update_time(time).0.wf(),
        state.update(data).0.subscription() == state.subscription(),
        state.update_time(time).0.subscription() == state.subscription(),
{
    match state {
        ConsolidatorModel::Count(s) => {
            lemma_count_update_keeps_wf(s, data);
        },
        ConsolidatorModel::Time(s) => {
            lemma_update_keeps_wf(s, data);
            lemma_update_time_keeps_wf(s, time);
        },
        ConsolidatorModel::HeikinAshi(s) => {
            lemma_heikin_ashi_update_keeps_wf(s, data);
            lemma_heikin_ashi_update_time_keeps_wf(s, time);
            crate::consolidators::candlesticks::lemma_update_output_shape(s.raw, data);
            crate::consolidators::candlesticks::lemma_update_time_output_shape(s.raw, time);
        },
        ConsolidatorModel::Renko(s) => {
            crate::consolidators::renko::lemma_update_keeps_wf(s, data);
        },
    }
}

} // verus!
