//! The market-data items that flow through the pipeline.
//!
//! A price is a whole number of price points, the smallest increment the
//! feed can express; a volume is a whole number of units traded.

use crate::resolution::Resolution;
use crate::subscriptions::{BaseDataType, CandleType, DataSubscription, Symbol};
use vstd::prelude::*;

verus! {

pub type Price = i64;

pub type Volume = u64;

/// Prices of larger magnitude are outside the domain of the pipeline.
pub const MAX_PRICE: i64 = 1_000_000_000_000_000;

pub open spec fn price_in_range(p: int) -> bool {
    -MAX_PRICE <= p <= MAX_PRICE
}

pub fn check_price(p: Price) -> (ok: bool)
    ensures
        ok == price_in_range(p as int),
{
    -MAX_PRICE <= p && p <= MAX_PRICE
}

/// The side of an order or of an aggressing trade.
#[derive(Clone, Copy, Debug, PartialEq, Eq, Structural, Hash)]
pub enum OrderSide {
    Buy,
    Sell,
}

/// A single trade.
#[derive(Debug, PartialEq, Eq)]
pub struct Tick {
    pub symbol: Symbol,
    pub price: Price,
    pub volume: Volume,
    pub side: Option<OrderSide>,
    pub time: i64,
}

impl Tick {
    pub fn new(
        symbol: Symbol,
        price: Price,
        time: i64,
        volume: Volume,
        side: Option<OrderSide>,
    ) -> (tick: Self)
        ensures
            tick == (Tick { symbol, price, volume, side, time }),
    {
        Tick { symbol, price, volume, side, time }
    }
}

impl Clone for Tick {
    fn clone(&self) -> (copy: Self)
        ensures
            copy == *self,
    {
        Tick {
            symbol: self.symbol.clone(),
            price: self.price,
            volume: self.volume,
            side: self.side,
            time: self.time,
        }
    }
}

/// A snapshot of the bid and ask at one level of the book.
#[derive(Debug, PartialEq, Eq)]
pub struct Quote {
    pub symbol: Symbol,
    pub ask: Price,
    pub bid: Price,
    pub ask_volume: Volume,
    pub bid_volume: Volume,
    pub book_level: u8,
    pub time: i64,
}

impl Quote {
    pub fn new(
        symbol: Symbol,
        ask: Price,
        bid: Price,
        ask_volume: Volume,
        bid_volume: Volume,
        book_level: u8,
        time: i64,
    ) -> (quote: Self)
        ensures
            quote == (Quote { symbol, ask, bid, ask_volume, bid_volume, book_level, time }),
    {
        Quote { symbol, ask, bid, ask_volume, bid_volume, book_level, time }
    }

    /// Quotes are not bars: their resolution is `Instant`.
    pub fn resolution(&self) -> (resolution: Resolution)
        ensures
            resolution == Resolution::Instant,
    {
        Resolution::Instant
    }

    pub open spec fn spec_subscription(self) -> DataSubscription {
        DataSubscription {
            symbol: self.symbol,
            resolution: Resolution::Instant,
            base_data_type: BaseDataType::Quotes,
            market_type: self.symbol.market_type,
            candle_type: None,
        }
    }

    pub fn subscription(&self) -> (subscription: DataSubscription)
        ensures
            subscription == self.spec_subscription(),
    {
        DataSubscription::from_base_data(
            self.symbol.clone(),
            Resolution::Instant,
            BaseDataType::Quotes,
            None,
        )
    }

    pub fn time_utc(&self) -> (time: i64)
        ensures
            time == self.time,
    {
        self.time
    }
}

impl Clone for Quote {
    fn clone(&self) -> (copy: Self)
        ensures
            copy == *self,
    {
        Quote {
            symbol: self.symbol.clone(),
            ask: self.ask,
            bid: self.bid,
            ask_volume: self.ask_volume,
            bid_volume: self.bid_volume,
            book_level: self.book_level,
            time: self.time,
        }
    }
}

/// A bar of trades: open, high, low, close and volume over one span.
/// `time` is the instant the bar opens.
#[derive(Debug, PartialEq, Eq)]
pub struct Candle {
    pub symbol: Symbol,
    pub open: Price,
    pub high: Price,
    pub low: Price,
    pub close: Price,
    pub volume: Volume,
    pub range: Price,
    pub is_closed: bool,
    pub resolution: Resolution,
    pub candle_type: CandleType,
    pub time: i64,
}

impl Candle {
    /// An open bar that has seen a single price.
    pub fn new(
        symbol: Symbol,
        price: Price,
        volume: Volume,
        time: i64,
        resolution: Resolution,
        candle_type: CandleType,
    ) -> (candle: Self)
        ensures
            candle == (Candle {
                symbol,
                open: price,
                high: price,
                low: price,
                close: price,
                volume,
                range: 0,
                is_closed: false,
                resolution,
                candle_type,
                time,
            }),
    {
        Candle {
            symbol,
            open: price,
            high: price,
            low: price,
            close: price,
            volume,
            range: 0,
            is_closed: false,
            resolution,
            candle_type,
            time,
        }
    }

    /// All prices are in the domain, and open and close lie between low and
    /// high.
    pub open spec fn well_formed(self) -> bool {
        &&& price_in_range(self.low as int)
        &&& price_in_range(self.high as int)
        &&& self.low <= self.open <= self.high
        &&& self.low <= self.close <= self.high
    }

    pub fn is_well_formed(&self) -> (ok: bool)
        ensures
            ok == self.well_formed(),
    {
        check_price(self.low) && check_price(self.high) && self.low <= self.open && self.open
            <= self.high && self.low <= self.close && self.close <= self.high
    }

    /// The instant at which the bar closes.
    pub open spec fn spec_close_time(self) -> int {
        self.time + self.resolution.spec_duration()
    }
}

impl Clone for Candle {
    fn clone(&self) -> (copy: Self)
        ensures
            copy == *self,
    {
        Candle {
            symbol: self.symbol.clone(),
            open: self.open,
            high: self.high,
            low: self.low,
            close: self.close,
            volume: self.volume,
            range: self.range,
            is_closed: self.is_closed,
            resolution: self.resolution,
            candle_type: self.candle_type,
            time: self.time,
        }
    }
}

/// A bar of quotes: bid and ask tracked independently over one span.
#[derive(Debug, PartialEq, Eq)]
pub struct QuoteBar {
    pub symbol: Symbol,
    pub bid_open: Price,
    pub bid_high: Price,
    pub bid_low: Price,
    pub bid_close: Price,
    pub ask_open: Price,
    pub ask_high: Price,
    pub ask_low: Price,
    pub ask_close: Price,
    pub volume: Volume,
    pub range: Price,
    pub is_closed: bool,
    pub resolution: Resolution,
    pub candle_type: CandleType,
    pub time: i64,
}

impl QuoteBar {
    /// An open bar that has seen a single quote.
    pub fn new(
        symbol: Symbol,
        bid: Price,
        ask: Price,
        volume: Volume,
        range: Price,
        time: i64,
        resolution: Resolution,
        candle_type: CandleType,
    ) -> (bar: Self)
        ensures
            bar == (QuoteBar {
                symbol,
                bid_open: bid,
                bid_high: bid,
                bid_low: bid,
                bid_close: bid,
                ask_open: ask,
                ask_high: ask,
                ask_low: ask,
                ask_close: ask,
                volume,
                range,
                is_closed: false,
                resolution,
                candle_type,
                time,
            }),
    {
        QuoteBar {
            symbol,
            bid_open: bid,
            bid_high: bid,
            bid_low: bid,
            bid_close: bid,
            ask_open: ask,
            ask_high: ask,
            ask_low: ask,
            ask_close: ask,
            volume,
            range,
            is_closed: false,
            resolution,
            candle_type,
            time,
        }
    }

    /// All prices are in the domain, and on each side open and close lie
    /// between low and high.
    pub open spec fn well_formed(self) -> bool {
        &&& price_in_range(self.bid_low as int)
        &&& price_in_range(self.bid_high as int)
        &&& price_in_range(self.ask_low as int)
        &&& price_in_range(self.ask_high as int)
        &&& self.bid_low <= self.bid_open <= self.bid_high
        &&& self.bid_low <= self.bid_close <= self.bid_high
        &&& self.ask_low <= self.ask_open <= self.ask_high
        &&& self.ask_low <= self.ask_close <= self.ask_high
    }

    pub fn is_well_formed(&self) -> (ok: bool)
        ensures
            ok == self.well_formed(),
    {
        check_price(self.bid_low) && check_price(self.bid_high) && check_price(self.ask_low)
            && check_price(self.ask_high) && self.bid_low <= self.bid_open && self.bid_open
            <= self.bid_high && self.bid_low <= self.bid_close && self.bid_close <= self.bid_high
            && self.ask_low <= self.ask_open && self.ask_open <= self.ask_high && self.ask_low
            <= self.ask_close && self.ask_close <= self.ask_high
    }

    /// The instant at which the bar closes.
    pub open spec fn spec_close_time(self) -> int {
        self.time + self.resolution.spec_duration()
    }
}

impl Clone for QuoteBar {
    fn clone(&self) -> (copy: Self)
        ensures
            copy == *self,
    {
        QuoteBar {
            symbol: self.symbol.clone(),
            bid_open: self.bid_open,
            bid_high: self.bid_high,
            bid_low: self.bid_low,
            bid_close: self.bid_close,
            ask_open: self.ask_open,
            ask_high: self.ask_high,
            ask_low: self.ask_low,
            ask_close: self.ask_close,
            volume: self.volume,
            range: self.range,
            is_closed: self.is_closed,
            resolution: self.resolution,
            candle_type: self.candle_type,
            time: self.time,
        }
    }
}

/// A price observation without volume.
#[derive(Debug, PartialEq, Eq)]
pub struct TradePrice {
    pub symbol: Symbol,
    pub price: Price,
    pub time: i64,
}

impl TradePrice {
    pub fn new(symbol: Symbol, price: Price, time: i64) -> (item: Self)
        ensures
            item == (TradePrice { symbol, price, time }),
    {
        TradePrice { symbol, price, time }
    }
}

impl Clone for TradePrice {
    fn clone(&self) -> (copy: Self)
        ensures
            copy == *self,
    {
        TradePrice { symbol: self.symbol.clone(), price: self.price, time: self.time }
    }
}

/// A fundamental data point; its payload is opaque to the pipeline.
#[derive(Debug, PartialEq, Eq)]
pub struct Fundamental {
    pub symbol: Symbol,
    pub time: i64,
    pub payload: String,
}

impl Fundamental {
    pub fn new(symbol: Symbol, time: i64, payload: String) -> (item: Self)
        ensures
            item == (Fundamental { symbol, time, payload }),
    {
        Fundamental { symbol, time, payload }
    }
}

impl Clone for Fundamental {
    fn clone(&self) -> (copy: Self)
        ensures
            copy == *self,
    {
        Fundamental {
            symbol: self.symbol.clone(),
            time: self.time,
            payload: self.payload.clone(),
        }
    }
}

/// Any item of market data.
#[derive(Debug, PartialEq, Eq)]
pub enum BaseDataEnum {
    Tick(Tick),
    Quote(Quote),
    Candle(Candle),
    QuoteBar(QuoteBar),
    Price(TradePrice),
    Fundamental(Fundamental),
}

/// The items observed within one step of the replay cursor, in arrival
/// order.
pub type TimeSlice = Vec<BaseDataEnum>;

impl Clone for BaseDataEnum {
    fn clone(&self) -> (copy: Self)
        ensures
            copy == *self,
    {
        match self {
            BaseDataEnum::Tick(x) => BaseDataEnum::Tick(x.clone()),
            BaseDataEnum::Quote(x) => BaseDataEnum::Quote(x.clone()),
            BaseDataEnum::Candle(x) => BaseDataEnum::Candle(x.clone()),
            BaseDataEnum::QuoteBar(x) => BaseDataEnum::QuoteBar(x.clone()),
            BaseDataEnum::Price(x) => BaseDataEnum::Price(x.clone()),
            BaseDataEnum::Fundamental(x) => BaseDataEnum::Fundamental(x.clone()),
        }
    }
}

impl BaseDataEnum {
    pub open spec fn spec_symbol(self) -> Symbol {
        match self {
            BaseDataEnum::Tick(x) => x.symbol,
            BaseDataEnum::Quote(x) => x.symbol,
            BaseDataEnum::Candle(x) => x.symbol,
            BaseDataEnum::QuoteBar(x) => x.symbol,
            BaseDataEnum::Price(x) => x.symbol,
            BaseDataEnum::Fundamental(x) => x.symbol,
        }
    }

    pub fn symbol(&self) -> (symbol: &Symbol)
        ensures
            *symbol == self.spec_symbol(),
    {
        match self {
            BaseDataEnum::Tick(x) => &x.symbol,
            BaseDataEnum::Quote(x) => &x.symbol,
            BaseDataEnum::Candle(x) => &x.symbol,
            BaseDataEnum::QuoteBar(x) => &x.symbol,
            BaseDataEnum::Price(x) => &x.symbol,
            BaseDataEnum::Fundamental(x) => &x.symbol,
        }
    }

    /// The instant the item refers to: when it happened, or for a bar, when
    /// the bar opened.
    pub open spec fn spec_time(self) -> i64 {
        match self {
            BaseDataEnum::Tick(x) => x.time,
            BaseDataEnum::Quote(x) => x.time,
            BaseDataEnum::Candle(x) => x.time,
            BaseDataEnum::QuoteBar(x) => x.time,
            BaseDataEnum::Price(x) => x.time,
            BaseDataEnum::Fundamental(x) => x.time,
        }
    }

    pub fn time_utc(&self) -> (time: i64)
        ensures
            time == self.spec_time(),
    {
        match self {
            BaseDataEnum::Tick(x) => x.time,
            BaseDataEnum::Quote(x) => x.time,
            BaseDataEnum::Candle(x) => x.time,
            BaseDataEnum::QuoteBar(x) => x.time,
            BaseDataEnum::Price(x) => x.time,
            BaseDataEnum::Fundamental(x) => x.time,
        }
    }

    pub open spec fn spec_resolution(self) -> Resolution {
        match self {
            BaseDataEnum::Tick(_) => Resolution::Ticks(1),
            BaseDataEnum::Candle(x) => x.resolution,
            BaseDataEnum::QuoteBar(x) => x.resolution,
            _ => Resolution::Instant,
        }
    }

    pub fn resolution(&self) -> (resolution: Resolution)
        ensures
            resolution == self.spec_resolution(),
    {
        match self {
            BaseDataEnum::Tick(_) => Resolution::Ticks(1),
            BaseDataEnum::Candle(x) => x.resolution,
            BaseDataEnum::QuoteBar(x) => x.resolution,
            _ => Resolution::Instant,
        }
    }

    /// The instant at which the item became known: its own instant, or for a
    /// bar, the instant the bar closes.
    pub open spec fn spec_time_created(self) -> int {
        match self {
            BaseDataEnum::Candle(x) => x.spec_close_time(),
            BaseDataEnum::QuoteBar(x) => x.spec_close_time(),
            _ => self.spec_time() as int,
        }
    }

    pub fn time_created_utc(&self) -> (created: i128)
        ensures
            created == self.spec_time_created(),
            created >= self.spec_time(),
    {
        match self {
            BaseDataEnum::Candle(x) => x.time as i128 + x.resolution.duration_nanos(),
            BaseDataEnum::QuoteBar(x) => x.time as i128 + x.resolution.duration_nanos(),
            _ => self.time_utc() as i128,
        }
    }

    pub open spec fn spec_base_data_type(self) -> BaseDataType {
        match self {
            BaseDataEnum::Tick(_) => BaseDataType::Ticks,
            BaseDataEnum::Quote(_) => BaseDataType::Quotes,
            BaseDataEnum::Candle(_) => BaseDataType::Candles,
            BaseDataEnum::QuoteBar(_) => BaseDataType::QuoteBars,
            BaseDataEnum::Price(_) => BaseDataType::Prices,
            BaseDataEnum::Fundamental(_) => BaseDataType::Fundamentals,
        }
    }

    pub fn base_data_type(&self) -> (kind: BaseDataType)
        ensures
            kind == self.spec_base_data_type(),
    {
        match self {
            BaseDataEnum::Tick(_) => BaseDataType::Ticks,
            BaseDataEnum::Quote(_) => BaseDataType::Quotes,
            BaseDataEnum::Candle(_) => BaseDataType::Candles,
            BaseDataEnum::QuoteBar(_) => BaseDataType::QuoteBars,
            BaseDataEnum::Price(_) => BaseDataType::Prices,
            BaseDataEnum::Fundamental(_) => BaseDataType::Fundamentals,
        }
    }

    pub open spec fn spec_candle_type(self) -> Option<CandleType> {
        match self {
            BaseDataEnum::Candle(x) => Some(x.candle_type),
            BaseDataEnum::QuoteBar(x) => Some(x.candle_type),
            _ => None,
        }
    }

    /// The subscription the item belongs to.
    pub open spec fn spec_subscription(self) -> DataSubscription {
        DataSubscription {
            symbol: self.spec_symbol(),
            resolution: self.spec_resolution(),
            base_data_type: self.spec_base_data_type(),
            market_type: self.spec_symbol().market_type,
            candle_type: self.spec_candle_type(),
        }
    }

    pub fn subscription(&self) -> (subscription: DataSubscription)
        ensures
            subscription == self.spec_subscription(),
    {
        let candle_type = match self {
            BaseDataEnum::Candle(x) => Some(x.candle_type),
            BaseDataEnum::QuoteBar(x) => Some(x.candle_type),
            _ => None,
        };
        DataSubscription::from_base_data(
            self.symbol().clone(),
            self.resolution(),
            self.base_data_type(),
            candle_type,
        )
    }

    /// Whether the item is final. Only bars can be open.
    pub open spec fn spec_is_closed(self) -> bool {
        match self {
            BaseDataEnum::Candle(x) => x.is_closed,
            BaseDataEnum::QuoteBar(x) => x.is_closed,
            _ => true,
        }
    }

    pub fn is_closed(&self) -> (closed: bool)
        ensures
            closed == self.spec_is_closed(),
    {
        match self {
            BaseDataEnum::Candle(x) => x.is_closed,
            BaseDataEnum::QuoteBar(x) => x.is_closed,
            _ => true,
        }
    }

    /// The item marked final: a bar becomes closed, anything else is
    /// unchanged.
    pub open spec fn spec_closed(self) -> BaseDataEnum {
        match self {
            BaseDataEnum::Candle(x) => BaseDataEnum::Candle(Candle { is_closed: true, ..x }),
            BaseDataEnum::QuoteBar(x) => BaseDataEnum::QuoteBar(QuoteBar { is_closed: true, ..x }),
            _ => self,
        }
    }

    pub fn into_closed(self) -> (closed: BaseDataEnum)
        ensures
            closed == self.spec_closed(),
    {
        match self {
            BaseDataEnum::Candle(x) => {
                let mut bar = x;
                bar.is_closed = true;
                BaseDataEnum::Candle(bar)
            },
            BaseDataEnum::QuoteBar(x) => {
                let mut bar = x;
                bar.is_closed = true;
                BaseDataEnum::QuoteBar(bar)
            },
            other => other,
        }
    }

    /// The volume the item carries; 0 for items without volume.
    pub open spec fn spec_volume(self) -> nat {
        match self {
            BaseDataEnum::Tick(x) => x.volume as nat,
            BaseDataEnum::Candle(x) => x.volume as nat,
            BaseDataEnum::QuoteBar(x) => x.volume as nat,
            _ => 0,
        }
    }

    pub fn volume(&self) -> (volume: Volume)
        ensures
            volume == self.spec_volume(),
    {
        match self {
            BaseDataEnum::Tick(x) => x.volume,
            BaseDataEnum::Candle(x) => x.volume,
            BaseDataEnum::QuoteBar(x) => x.volume,
            _ => 0,
        }
    }

    /// Every price of the item is in the domain, and a bar's open and close
    /// lie between its low and high.
    pub open spec fn well_formed(self) -> bool {
        match self {
            BaseDataEnum::Tick(x) => price_in_range(x.price as int),
            BaseDataEnum::Quote(x) => price_in_range(x.bid as int) && price_in_range(x.ask as int),
            BaseDataEnum::Candle(x) => x.well_formed(),
            BaseDataEnum::QuoteBar(x) => x.well_formed(),
            BaseDataEnum::Price(x) => price_in_range(x.price as int),
            BaseDataEnum::Fundamental(_) => true,
        }
    }

    pub fn is_well_formed(&self) -> (ok: bool)
        ensures
            ok == self.well_formed(),
    {
        match self {
            BaseDataEnum::Tick(x) => check_price(x.price),
            BaseDataEnum::Quote(x) => check_price(x.bid) && check_price(x.ask),
            BaseDataEnum::Candle(x) => x.is_well_formed(),
            BaseDataEnum::QuoteBar(x) => x.is_well_formed(),
            BaseDataEnum::Price(x) => check_price(x.price),
            BaseDataEnum::Fundamental(_) => true,
        }
    }
}

/// The multiple of `tick` nearest to `value`; a value halfway between two
/// multiples goes to the one farther from zero.
pub open spec fn spec_round_to_tick(value: int, tick: int) -> int {
    if value >= 0 {
        ((2 * value + tick) / (2 * tick)) * tick
    } else {
        -(((2 * (-value) + tick) / (2 * tick)) * tick)
    }
}

/// Rounds `value` to the nearest multiple of `tick_size`. `None` where the
/// tick size is not positive or the result does not fit.
pub fn round_to_tick_size(value: i64, tick_size: i64) -> (rounded: Option<i64>)
    ensures
        rounded == (if tick_size > 0 && i64::MIN <= spec_round_to_tick(
            value as int,
            tick_size as int,
        ) <= i64::MAX {
            Some(spec_round_to_tick(value as int, tick_size as int) as i64)
        } else {
            None
        }),
{
    if tick_size <= 0 {
        return None;
    }
    let wide = round_wide(value, tick_size);
    if i64::MIN as i128 <= wide && wide <= i64::MAX as i128 {
        Some(wide as i64)
    } else {
        None
    }
}

fn round_wide(value: i64, tick: i64) -> (rounded: i128)
    requires
        tick > 0,
    ensures
        rounded == spec_round_to_tick(value as int, tick as int),
{
    let magnitude: i128 = if value >= 0 {
        value as i128
    } else {
        -(value as i128)
    };
    let doubled: i128 = 2 * magnitude + tick as i128;
    let step: i128 = 2 * (tick as i128);
    let multiples: i128 = doubled / step;
    proof {
        lemma_rounding_quotient_bound(magnitude as int, tick as int);
    }
    let rounded: i128 = multiples * (tick as i128);
    if value >= 0 {
        rounded
    } else {
        -rounded
    }
}

proof fn lemma_rounding_quotient_bound(magnitude: int, tick: int)
    requires
        magnitude >= 0,
        tick > 0,
    ensures
        0 <= ((2 * magnitude + tick) / (2 * tick)) * tick <= magnitude + tick,
{
    let q = (2 * magnitude + tick) / (2 * tick);
    vstd::arithmetic::div_mod::lemma_fundamental_div_mod(2 * magnitude + tick, 2 * tick);
    vstd::arithmetic::div_mod::lemma_mod_bound(2 * magnitude + tick, 2 * tick);
    vstd::arithmetic::div_mod::lemma_div_pos_is_pos(2 * magnitude + tick, 2 * tick);
    assert(2 * magnitude + tick == (2 * tick) * q + (2 * magnitude + tick) % (2 * tick));
    assert((2 * tick) * q == 2 * (q * tick)) by (nonlinear_arith);
    assert(q * tick >= 0) by (nonlinear_arith)
        requires
            q >= 0,
            tick > 0,
    ;
}

/// A rounded value is a whole number of ticks and lies within half a tick
/// of the value it came from.
pub proof fn lemma_round_to_tick_nearest(value: int, tick: int)
    requires
        tick > 0,
    ensures
        spec_round_to_tick(value, tick) % tick == 0,
        2 * (spec_round_to_tick(value, tick) - value) <= tick,
        2 * (value - spec_round_to_tick(value, tick)) <= tick,
        value >= 0 ==> spec_round_to_tick(value, tick) >= 0,
{
    let magnitude = if value >= 0 {
        value
    } else {
        -value
    };
    let q = (2 * magnitude + tick) / (2 * tick);
    vstd::arithmetic::div_mod::lemma_fundamental_div_mod(2 * magnitude + tick, 2 * tick);
    vstd::arithmetic::div_mod::lemma_mod_bound(2 * magnitude + tick, 2 * tick);
    vstd::arithmetic::div_mod::lemma_div_pos_is_pos(2 * magnitude + tick, 2 * tick);
    assert((2 * tick) * q == 2 * (q * tick)) by (nonlinear_arith);
    vstd::arithmetic::div_mod::lemma_mod_multiples_basic(q, tick);
    vstd::arithmetic::div_mod::lemma_mod_multiples_basic(-q, tick);
    assert(-(q * tick) == (-q) * tick) by (nonlinear_arith);
    assert(q * tick >= 0) by (nonlinear_arith)
        requires
            q >= 0,
            tick > 0,
    ;
}

/// A value that already is a whole number of ticks rounds to itself.
pub proof fn lemma_round_to_tick_fixes_multiples(value: int, tick: int)
    requires
        tick > 0,
        value % tick == 0,
    ensures
        spec_round_to_tick(value, tick) == value,
{
    lemma_round_to_tick_nearest(value, tick);
    let r = spec_round_to_tick(value, tick);
    let d = r - value;
    vstd::arithmetic::div_mod::lemma_fundamental_div_mod(value, tick);
    vstd::arithmetic::div_mod::lemma_fundamental_div_mod(r, tick);
    let a = r / tick;
    let b = value / tick;
    assert(d == tick * (a - b)) by (nonlinear_arith)
        requires
            d == r - value,
            r == tick * a,
            value == tick * b,
    ;
    assert(a - b == 0) by (nonlinear_arith)
        requires
            2 * (tick * (a - b)) <= tick,
            2 * -(tick * (a - b)) <= tick,
            tick > 0,
    ;
}

} // verus!
