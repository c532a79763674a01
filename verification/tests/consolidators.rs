use fund_forge::base_data::{BaseDataEnum, Candle, Quote, Tick, TradePrice};
use fund_forge::consolidators::candlesticks::{CandleStickConsolidator, ConsolidatorError};
use fund_forge::consolidators::consolidator_enum::{
    warmup_start, ConsolidatedData, ConsolidationSettings, ConsolidatorEnum,
};
use fund_forge::consolidators::count::CountConsolidator;
use fund_forge::consolidators::heikinashi::HeikinAshiConsolidator;
use fund_forge::consolidators::renko::RenkoConsolidator;
use fund_forge::resolution::{Resolution, NANOS_PER_DAY, NANOS_PER_MINUTE, NANOS_PER_SECOND};
use fund_forge::subscriptions::{
    BaseDataType, CandleType, DataSubscription, DataVendor, MarketType, Symbol,
};

const MILLI: i64 = 1_000_000;
const NINE: i64 = 9 * 3_600_000_000_000;

fn symbol() -> Symbol {
    Symbol::new("EUR-USD".to_string(), DataVendor::Test, MarketType::Forex)
}

fn subscription(resolution: Resolution, kind: BaseDataType, candle: CandleType) -> DataSubscription {
    DataSubscription::new_custom(
        "EUR-USD".to_string(),
        DataVendor::Test,
        resolution,
        kind,
        MarketType::Forex,
        candle,
    )
}

fn tick(price: i64, volume: u64, time: i64) -> BaseDataEnum {
    BaseDataEnum::Tick(Tick::new(symbol(), price, time, volume, None))
}

fn candle_of(data: &BaseDataEnum) -> &Candle {
    match data {
        BaseDataEnum::Candle(c) => c,
        other => panic!("not a candle: {:?}", other),
    }
}

fn minute_candles() -> CandleStickConsolidator {
    CandleStickConsolidator::new(
        subscription(Resolution::Minutes(1), BaseDataType::Candles, CandleType::CandleStick),
        10,
        1,
    )
    .unwrap()
}

#[test]
fn ticks_become_one_minute_candles() {
    let mut c = minute_candles();
    let out = c.update(&tick(1000, 1, NINE + 100 * MILLI));
    assert_eq!(out.len(), 1);
    assert_eq!(c.update(&tick(1050, 2, NINE + 30_500 * MILLI)).len(), 1);
    assert_eq!(c.update(&tick(980, 1, NINE + 59_999 * MILLI)).len(), 1);
    let out = c.update(&tick(1020, 1, NINE + 60_001 * MILLI));
    assert_eq!(out.len(), 2);
    let closed = candle_of(&out[0]);
    assert!(closed.is_closed);
    assert_eq!(
        (closed.open, closed.high, closed.low, closed.close, closed.volume, closed.time),
        (1000, 1050, 980, 980, 4, NINE)
    );
    assert_eq!(closed.range, 70);
    assert_eq!(closed.resolution, Resolution::Minutes(1));
    let open = candle_of(&out[1]);
    assert!(!open.is_closed);
    assert_eq!(
        (open.open, open.high, open.low, open.close, open.volume, open.time),
        (1020, 1020, 1020, 1020, 1, NINE + NANOS_PER_MINUTE)
    );
    assert_eq!(c.history().len(), 1);
    assert_eq!(candle_of(c.history().get(0).unwrap()).volume, 4);
    assert_eq!(candle_of(&c.current().unwrap()).open, 1020);
    assert_eq!(candle_of(&c.index(0).unwrap()).close, 980);
    assert!(c.index(1).is_none());
}

#[test]
fn tick_at_close_boundary_opens_next_bar() {
    let mut c = minute_candles();
    c.update(&tick(1000, 1, NINE));
    let out = c.update(&tick(1010, 5, NINE + NANOS_PER_MINUTE));
    assert_eq!(out.len(), 2);
    assert_eq!(candle_of(&out[0]).volume, 1);
    assert_eq!(candle_of(&out[0]).close, 1000);
    assert_eq!(candle_of(&out[1]).time, NINE + NANOS_PER_MINUTE);
    assert_eq!(candle_of(&out[1]).volume, 5);
}

#[test]
fn stale_and_foreign_data_is_dropped() {
    let mut c = minute_candles();
    c.update(&tick(1000, 1, NINE + NANOS_PER_MINUTE));
    assert!(c.update(&tick(900, 1, NINE + 59 * NANOS_PER_SECOND)).is_empty());
    let quote = BaseDataEnum::Quote(Quote::new(symbol(), 1001, 999, 1, 1, 0, NINE + 2 * NANOS_PER_MINUTE));
    assert!(c.update(&quote).is_empty());
    assert_eq!(candle_of(&c.current().unwrap()).close, 1000);
    let far = tick(2_000_000_000_000_000, 1, NINE + NANOS_PER_MINUTE + 1);
    assert!(c.update(&far).is_empty());
}

#[test]
fn clock_closes_bar_without_opening_one() {
    let mut c = minute_candles();
    c.update(&tick(1000, 3, NINE + 5));
    assert!(c.update_time(NINE + NANOS_PER_MINUTE - 1).is_empty());
    let out = c.update_time(NINE + NANOS_PER_MINUTE);
    assert_eq!(out.len(), 1);
    assert!(candle_of(&out[0]).is_closed);
    assert!(c.current().is_none());
    assert!(c.update_time(NINE + 2 * NANOS_PER_MINUTE).is_empty());
    assert!(c.update(&tick(1000, 3, NINE + 10)).is_empty());
    assert_eq!(c.update(&tick(1000, 3, NINE + NANOS_PER_MINUTE)).len(), 1);
}

#[test]
fn prices_contribute_close_but_no_volume() {
    let mut c = minute_candles();
    c.update(&tick(1000, 3, NINE));
    let out = c.update(&BaseDataEnum::Price(TradePrice::new(symbol(), 1100, NINE + 1)));
    let bar = candle_of(&out[0]);
    assert_eq!((bar.high, bar.close, bar.volume), (1100, 1100, 3));
}

#[test]
fn quote_bars_track_bid_and_ask() {
    let sub = subscription(Resolution::Seconds(5), BaseDataType::QuoteBars, CandleType::CandleStick);
    let mut c = CandleStickConsolidator::new(sub, 4, 5).unwrap();
    let q = |bid: i64, ask: i64, t: i64| BaseDataEnum::Quote(Quote::new(symbol(), ask, bid, 1, 1, 0, t));
    assert!(c.update(&tick(1000, 1, NINE)).is_empty());
    c.update(&q(1000, 1010, NINE));
    let out = c.update(&q(990, 1032, NINE + NANOS_PER_SECOND));
    match &out[0] {
        BaseDataEnum::QuoteBar(bar) => {
            assert_eq!((bar.bid_open, bar.bid_high, bar.bid_low, bar.bid_close), (1000, 1000, 990, 990));
            assert_eq!((bar.ask_open, bar.ask_high, bar.ask_low, bar.ask_close), (1010, 1032, 1010, 1032));
            assert_eq!(bar.range, 40);
            assert_eq!(bar.volume, 0);
        }
        other => panic!("not a quote bar: {:?}", other),
    }
}

#[test]
fn construction_rejects_misuse() {
    let make = |r, k, c| CandleStickConsolidator::new(subscription(r, k, c), 1, 1).err();
    assert_eq!(
        make(Resolution::Minutes(1), BaseDataType::Fundamentals, CandleType::CandleStick),
        Some(ConsolidatorError::Fundamentals)
    );
    assert_eq!(
        make(Resolution::Ticks(5), BaseDataType::Candles, CandleType::CandleStick),
        Some(ConsolidatorError::WrongResolutionKind)
    );
    assert_eq!(
        make(Resolution::Minutes(1), BaseDataType::Ticks, CandleType::CandleStick),
        Some(ConsolidatorError::WrongBaseDataType)
    );
    assert_eq!(
        make(Resolution::Instant, BaseDataType::Candles, CandleType::CandleStick),
        Some(ConsolidatorError::UnsupportedResolution)
    );
    assert_eq!(
        make(Resolution::Days(u64::MAX), BaseDataType::Candles, CandleType::CandleStick),
        Some(ConsolidatorError::UnsupportedResolution)
    );
    let sub = subscription(Resolution::Minutes(1), BaseDataType::Candles, CandleType::CandleStick);
    assert_eq!(
        CandleStickConsolidator::new(sub, 1, 0).err(),
        Some(ConsolidatorError::InvalidTickSize)
    );
    let sub = subscription(Resolution::Minutes(1), BaseDataType::Candles, CandleType::CandleStick);
    assert_eq!(
        RenkoConsolidator::new(sub, 1, 10).err(),
        Some(ConsolidatorError::WrongCandleType)
    );
    let sub = subscription(Resolution::Minutes(1), BaseDataType::Candles, CandleType::Renko);
    assert_eq!(
        HeikinAshiConsolidator::new(sub, 1, 1, false).err(),
        Some(ConsolidatorError::WrongCandleType)
    );
    let sub = subscription(Resolution::Minutes(1), BaseDataType::Candles, CandleType::CandleStick);
    assert_eq!(
        CountConsolidator::new(sub, 1, 1).err(),
        Some(ConsolidatorError::WrongResolutionKind)
    );
}

#[test]
fn renko_blocks_of_range_one() {
    let sub = subscription(Resolution::Instant, BaseDataType::Candles, CandleType::Renko);
    let mut c = RenkoConsolidator::new(sub, 20, 10).unwrap();
    let seed = c.update(&tick(1000, 1, 1));
    assert_eq!(seed.len(), 1);
    let mut blocks: Vec<(i64, i64)> = Vec::new();
    for (i, price) in [1004, 1012, 1031, 990].iter().enumerate() {
        let out = c.update(&tick(*price, 1, 2 + i as i64));
        let (open, closed) = out.split_last().unwrap();
        assert!(!candle_of(open).is_closed);
        assert_eq!(candle_of(open).close, *price);
        for b in closed {
            assert!(candle_of(b).is_closed);
            blocks.push((candle_of(b).open, candle_of(b).close));
        }
    }
    assert_eq!(
        blocks,
        vec![(1000, 1010), (1010, 1020), (1020, 1030), (1030, 1020), (1020, 1010), (1010, 1000), (1000, 990)]
    );
    assert_eq!(c.history().len(), 7);
    assert_eq!(candle_of(c.history().get(0).unwrap()).close, 990);
    assert_eq!(candle_of(&c.current().unwrap()).open, 990);
    assert!(c.update_time(100).is_empty());
}

#[test]
fn count_consolidator_groups_three_ticks() {
    let sub = subscription(Resolution::Ticks(3), BaseDataType::Ticks, CandleType::CandleStick);
    let mut c = CountConsolidator::new(sub, 10, 1).unwrap();
    let feed = [(10, 1u64), (12, 2), (9, 3), (20, 1), (18, 1), (25, 4)];
    let mut closed = Vec::new();
    for (i, (price, volume)) in feed.iter().enumerate() {
        let out = c.update(&tick(*price, *volume, 100 + i as i64));
        assert_eq!(out.len(), 1);
        if candle_of(&out[0]).is_closed {
            closed.push(out[0].clone());
        }
    }
    assert_eq!(closed.len(), 2);
    let a = candle_of(&closed[0]);
    assert_eq!((a.open, a.high, a.low, a.close, a.volume, a.time), (10, 12, 9, 9, 6, 100));
    let b = candle_of(&closed[1]);
    assert_eq!((b.open, b.high, b.low, b.close, b.volume, b.time), (20, 25, 18, 25, 6, 103));
    assert_eq!(c.history().len(), 2);
    assert!(c.current().is_none());
    assert!(c.update_time(1_000).is_empty());
}

#[test]
fn heikin_ashi_smooths_with_previous_candle() {
    let sub = subscription(Resolution::Minutes(1), BaseDataType::Candles, CandleType::HeikinAshi);
    let mut c = HeikinAshiConsolidator::new(sub, 10, 1, true).unwrap();
    c.update(&tick(100, 1, NINE));
    c.update(&tick(120, 1, NINE + 1));
    c.update(&tick(90, 1, NINE + 2));
    let out = c.update(&tick(110, 1, NINE + 3));
    let open = candle_of(&out[0]);
    assert_eq!((open.open, open.high, open.low, open.close), (105, 120, 90, 105));
    assert_eq!(open.candle_type, CandleType::HeikinAshi);
    let out = c.update(&tick(200, 2, NINE + NANOS_PER_MINUTE));
    assert_eq!(out.len(), 2);
    let closed = candle_of(&out[0]);
    assert!(closed.is_closed);
    assert_eq!((closed.open, closed.close, closed.volume), (105, 105, 4));
    let next = candle_of(&out[1]);
    assert_eq!((next.open, next.high, next.low, next.close), (105, 200, 105, 200));
    let out = c.update_time(NINE + 2 * NANOS_PER_MINUTE);
    assert_eq!(out.len(), 1);
    assert_eq!(candle_of(&out[0]).close, 200);
    let out = c.update_time(NINE + 3 * NANOS_PER_MINUTE);
    assert_eq!(out.len(), 1);
    let flat = candle_of(&out[0]);
    assert_eq!((flat.open, flat.high, flat.low, flat.close, flat.volume), (200, 200, 200, 200, 0));
    assert_eq!(flat.time, NINE + 2 * NANOS_PER_MINUTE);
    assert!(c.update_time(NINE + 3 * NANOS_PER_MINUTE).is_empty());
    assert_eq!(c.history().len(), 3);
}

#[test]
fn heikin_ashi_without_fill_forward_emits_nothing_for_empty_bars() {
    let sub = subscription(Resolution::Minutes(1), BaseDataType::Candles, CandleType::HeikinAshi);
    let mut c = HeikinAshiConsolidator::new(sub, 10, 1, false).unwrap();
    c.update(&tick(100, 1, NINE));
    assert_eq!(c.update_time(NINE + NANOS_PER_MINUTE).len(), 1);
    assert!(c.update_time(NINE + 5 * NANOS_PER_MINUTE).is_empty());
}

#[test]
fn factory_picks_consolidator_by_subscription() {
    let settings = ConsolidationSettings { tick_size: 1, block_range: 10, fill_forward: false };
    let made = |r, k, c| ConsolidatorEnum::create_consolidator(subscription(r, k, c), 5, settings);
    assert!(matches!(
        made(Resolution::Ticks(4), BaseDataType::Ticks, CandleType::CandleStick),
        Ok(ConsolidatorEnum::Count(_))
    ));
    assert!(matches!(
        made(Resolution::Minutes(4), BaseDataType::Candles, CandleType::CandleStick),
        Ok(ConsolidatorEnum::CandleStickConsolidator(_))
    ));
    assert!(matches!(
        made(Resolution::Minutes(4), BaseDataType::Candles, CandleType::HeikinAshi),
        Ok(ConsolidatorEnum::HeikinAshi(_))
    ));
    assert!(matches!(
        made(Resolution::Minutes(4), BaseDataType::Candles, CandleType::Renko),
        Ok(ConsolidatorEnum::Renko(_))
    ));
    assert!(matches!(
        made(Resolution::Minutes(4), BaseDataType::Fundamentals, CandleType::CandleStick),
        Err(ConsolidatorError::Fundamentals)
    ));
    let c = made(Resolution::Minutes(4), BaseDataType::Candles, CandleType::CandleStick).unwrap();
    assert_eq!(c.resolution(), Resolution::Minutes(4));
    assert_eq!(c.subscription().base_data_type, BaseDataType::Candles);
}

#[test]
fn warmup_fills_history_and_flushes_by_clock() {
    let settings = ConsolidationSettings { tick_size: 1, block_range: 10, fill_forward: false };
    let sub = subscription(Resolution::Seconds(2), BaseDataType::Candles, CandleType::CandleStick);
    let mut c = ConsolidatorEnum::create_consolidator(sub, 5, settings).unwrap();
    let data = vec![
        tick(100, 1, NINE + 1),
        tick(101, 1, NINE + NANOS_PER_SECOND),
        tick(102, 1, NINE + 4 * NANOS_PER_SECOND),
        tick(103, 1, NINE + 60 * NANOS_PER_SECOND),
    ];
    c.warmup(&data, NINE, NINE + 10 * NANOS_PER_SECOND);
    assert_eq!(c.history().len(), 2);
    assert_eq!(candle_of(c.history().get(1).unwrap()).volume, 2);
    assert_eq!(candle_of(c.history().get(0).unwrap()).time, NINE + 4 * NANOS_PER_SECOND);
    assert!(c.current().is_none());
    assert_eq!(candle_of(&c.index(0).unwrap()).close, 102);
}

#[test]
fn warmup_start_covers_history_and_four_days() {
    assert_eq!(
        warmup_start(100 * NANOS_PER_DAY, &Resolution::Minutes(5), 12),
        Some(100 * NANOS_PER_DAY - 12 * 5 * NANOS_PER_MINUTE - 4 * NANOS_PER_DAY)
    );
    assert_eq!(warmup_start(0, &Resolution::Days(u64::MAX), u64::MAX), None);
    assert_eq!(warmup_start(i64::MIN, &Resolution::Ticks(3), 10), None);
}

#[test]
fn consolidated_data_orders_closed_before_open() {
    let both = ConsolidatedData::with_closed(tick(2, 1, 2), tick(1, 1, 1));
    let batch = both.into_batch();
    assert_eq!(batch.len(), 2);
    assert_eq!(batch[0].time_utc(), 1);
    assert_eq!(batch[1].time_utc(), 2);
    let one = ConsolidatedData::with_open(tick(2, 1, 2));
    assert!(one.closed_data.is_none());
    assert_eq!(one.into_batch().len(), 1);
}

#[test]
fn volume_is_conserved_across_bars() {
    let mut c = minute_candles();
    let feed = [
        (1000, 3u64, NINE + 1),
        (1001, 4, NINE + 2),
        (999, 5, NINE - 5),
        (1002, 6, NINE + NANOS_PER_MINUTE),
        (1003, 7, NINE + NANOS_PER_MINUTE + 9),
        (1004, 8, NINE + 5 * NANOS_PER_MINUTE),
    ];
    let mut accepted = 0u64;
    let mut closed = 0u64;
    for (price, volume, time) in feed {
        let out = c.update(&tick(price, volume, time));
        if !out.is_empty() {
            accepted += volume;
        }
        closed += out.iter().filter(|d| d.is_closed()).map(|d| d.volume()).sum::<u64>();
    }
    closed += c.update_time(NINE + 5 * NANOS_PER_MINUTE + 1).iter().map(|d| d.volume()).sum::<u64>();
    let open = c.current().map(|d| d.volume()).unwrap_or(0);
    assert_eq!(accepted, 3 + 4 + 6 + 7 + 8);
    assert_eq!(closed + open, accepted);
    assert_eq!(c.history().len(), 2);
    for i in 0..c.history().len() {
        let bar = candle_of(c.history().get(i).unwrap());
        assert!(bar.is_closed);
        assert_eq!(bar.time % NANOS_PER_MINUTE, 0);
        assert_eq!(bar.resolution, Resolution::Minutes(1));
    }
}

#[test]
fn candles_are_consolidated_by_the_instant_they_close() {
    let sub = subscription(Resolution::Seconds(3), BaseDataType::Candles, CandleType::CandleStick);
    let mut c = CandleStickConsolidator::new(sub, 4, 5).unwrap();
    let second = |open: i64, high: i64, low: i64, close: i64, volume: u64, time: i64| {
        let mut bar = Candle::new(symbol(), open, volume, time, Resolution::Seconds(1), CandleType::CandleStick);
        bar.high = high;
        bar.low = low;
        bar.close = close;
        bar.is_closed = true;
        BaseDataEnum::Candle(bar)
    };
    let out = c.update(&second(100, 104, 99, 101, 2, NINE));
    let first = candle_of(&out[0]);
    assert_eq!((first.time, first.range, first.volume), (NINE, 5, 2));
    let out = c.update(&second(101, 112, 100, 111, 3, NINE + NANOS_PER_SECOND));
    let merged = candle_of(&out[0]);
    assert_eq!((merged.open, merged.high, merged.low, merged.close, merged.volume), (100, 112, 99, 111, 5));
    assert_eq!(merged.range, 15);
    let out = c.update(&second(111, 113, 110, 112, 1, NINE + 2 * NANOS_PER_SECOND));
    assert_eq!(out.len(), 2);
    assert_eq!(candle_of(&out[1]).time, NINE + 3 * NANOS_PER_SECOND);
    let mut broken = Candle::new(symbol(), 5, 1, NINE + 10 * NANOS_PER_SECOND, Resolution::Seconds(1), CandleType::CandleStick);
    broken.high = 4;
    assert!(c.update(&BaseDataEnum::Candle(broken)).is_empty());
}

#[test]
fn volume_that_would_overflow_is_dropped() {
    let mut c = minute_candles();
    c.update(&tick(1000, u64::MAX - 1, NINE));
    assert!(c.update(&tick(1001, 2, NINE + 1)).is_empty());
    assert_eq!(candle_of(&c.current().unwrap()).close, 1000);
    assert_eq!(c.update(&tick(1001, 1, NINE + 2)).len(), 1);
    assert_eq!(candle_of(&c.current().unwrap()).volume, u64::MAX);
    let sub = subscription(Resolution::Ticks(3), BaseDataType::Ticks, CandleType::CandleStick);
    let mut count = CountConsolidator::new(sub, 10, 1).unwrap();
    count.update(&tick(1, u64::MAX, 1));
    assert!(count.update(&tick(1, 1, 2)).is_empty());
    assert_eq!(count.update(&tick(1, 0, 2)).len(), 1);
}

#[test]
fn heikin_ashi_reports_the_candle_in_progress() {
    let sub = subscription(Resolution::Minutes(1), BaseDataType::Candles, CandleType::HeikinAshi);
    let mut c = HeikinAshiConsolidator::new(sub, 10, 1, false).unwrap();
    assert!(c.current().is_none());
    c.update(&tick(-7, 1, NINE));
    c.update(&tick(-4, 1, NINE + 1));
    let current = c.current().unwrap();
    let bar = candle_of(&current);
    // the means of -7, -4, -7, -4 and of -7, -4, rounded down
    assert_eq!((bar.open, bar.high, bar.low, bar.close), (-6, -4, -7, -6));
    assert!(!bar.is_closed);
    assert_eq!(c.subscription().candle_type, Some(CandleType::HeikinAshi));
    assert!(c.index(0).is_none());
}

#[test]
fn renko_ignores_data_without_a_price() {
    let sub = subscription(Resolution::Instant, BaseDataType::Candles, CandleType::Renko);
    let mut c = RenkoConsolidator::new(sub, 2, 10).unwrap();
    let quote = BaseDataEnum::Quote(Quote::new(symbol(), 1001, 999, 1, 1, 0, 1));
    assert!(c.update(&quote).is_empty());
    assert!(c.current().is_none());
    c.update(&BaseDataEnum::Price(TradePrice::new(symbol(), 0, 1)));
    let out = c.update(&tick(-35, 1, 2));
    let closes: Vec<i64> = out.iter().filter(|d| d.is_closed()).map(|d| candle_of(d).close).collect();
    assert_eq!(closes, vec![-10, -20, -30]);
    assert_eq!(candle_of(out.last().unwrap()).open, -30);
    assert_eq!(candle_of(out.last().unwrap()).close, -35);
    assert_eq!(c.history().len(), 2);
    assert_eq!(candle_of(&c.index(0).unwrap()).close, -30);
    assert_eq!(candle_of(&c.index(1).unwrap()).close, -20);
}
