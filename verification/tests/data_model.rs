use fund_forge::base_data::{
    check_price, round_to_tick_size, BaseDataEnum, Candle, Fundamental, Quote, QuoteBar, Tick,
    TradePrice, MAX_PRICE,
};
use fund_forge::history_handler::HistoryHandler;
use fund_forge::resolution::{
    align_down, open_time, Resolution, NANOS_PER_DAY, NANOS_PER_HOUR, NANOS_PER_MINUTE,
    NANOS_PER_SECOND,
};
use fund_forge::rolling_window::RollingWindow;
use fund_forge::subscriptions::{
    can_source, filter_resolutions, largest_resolution, BaseDataType, CandleType,
    DataSubscription, DataSubscriptionEvent, DataVendor, MarketType, SubscriptionResolutionType,
    Symbol,
};

fn symbol() -> Symbol {
    Symbol::new("AUD-USD".to_string(), DataVendor::Oanda, MarketType::Forex)
}

#[test]
fn resolutions_are_totally_ordered() {
    let ordered = [
        Resolution::Instant,
        Resolution::Ticks(1),
        Resolution::Ticks(500),
        Resolution::Seconds(1),
        Resolution::Seconds(120),
        Resolution::Minutes(1),
        Resolution::Hours(1),
        Resolution::Days(1),
        Resolution::Days(2),
    ];
    for i in 0..ordered.len() {
        for j in 0..ordered.len() {
            assert_eq!(ordered[i].is_less_than(&ordered[j]), i < j);
            assert_eq!(ordered[i].is_at_most(&ordered[j]), i <= j);
            assert_eq!(ordered[i] < ordered[j], i < j);
        }
    }
    assert!(Resolution::Ticks(3).is_ticks());
    assert!(!Resolution::Seconds(3).is_ticks());
}

#[test]
fn durations_are_exact() {
    assert_eq!(Resolution::Instant.duration_nanos(), 0);
    assert_eq!(Resolution::Ticks(9).duration_nanos(), 0);
    assert_eq!(Resolution::Seconds(3).duration_nanos(), 3_000_000_000);
    assert_eq!(Resolution::Minutes(2).duration_nanos(), 120_000_000_000);
    assert_eq!(Resolution::Hours(1).duration_nanos(), 3_600_000_000_000);
    assert_eq!(Resolution::Days(u64::MAX).duration_nanos(), u64::MAX as i128 * 86_400_000_000_000);
    assert_eq!(Resolution::Days(1).bar_nanos(), Some(NANOS_PER_DAY));
    assert_eq!(Resolution::Days(u64::MAX).bar_nanos(), None);
    assert_eq!(Resolution::Ticks(5).bar_nanos(), None);
    assert_eq!(Resolution::Seconds(0).bar_nanos(), None);
}

#[test]
fn open_time_is_floor_and_idempotent() {
    let r = Resolution::Minutes(5);
    let t = 9 * NANOS_PER_HOUR + 7 * NANOS_PER_MINUTE + 15;
    let open = open_time(t, &r).unwrap();
    assert_eq!(open, 9 * NANOS_PER_HOUR + 5 * NANOS_PER_MINUTE);
    assert_eq!(open_time(open, &r), Some(open));
    assert_eq!(open_time(open + 5 * NANOS_PER_MINUTE, &r), Some(open + 5 * NANOS_PER_MINUTE));
    assert_eq!(open_time(open + 5 * NANOS_PER_MINUTE - 1, &r), Some(open));
    assert_eq!(open_time(-1, &Resolution::Seconds(1)), Some(-NANOS_PER_SECOND));
    assert_eq!(open_time(-NANOS_PER_SECOND, &Resolution::Seconds(1)), Some(-NANOS_PER_SECOND));
    assert_eq!(open_time(i64::MIN, &Resolution::Days(1)), None);
    assert_eq!(open_time(5, &Resolution::Ticks(1)), None);
    assert_eq!(align_down(7, 0), None);
    assert_eq!(align_down(7, -3), None);
    assert_eq!(align_down(-7, 5), Some(-10));
    assert_eq!(align_down(i64::MAX, i64::MAX), Some(i64::MAX));
}

#[test]
fn rounding_goes_to_nearest_tick() {
    assert_eq!(round_to_tick_size(12, 5), Some(10));
    assert_eq!(round_to_tick_size(13, 5), Some(15));
    assert_eq!(round_to_tick_size(25, 10), Some(30));
    assert_eq!(round_to_tick_size(-25, 10), Some(-30));
    assert_eq!(round_to_tick_size(-12, 5), Some(-10));
    assert_eq!(round_to_tick_size(40, 5), Some(40));
    assert_eq!(round_to_tick_size(7, 0), None);
    assert_eq!(round_to_tick_size(i64::MAX, 1_000), None);
    assert!(check_price(MAX_PRICE));
    assert!(!check_price(MAX_PRICE + 1));
    assert!(!check_price(-MAX_PRICE - 1));
}

#[test]
fn every_datum_knows_its_subscription_and_times() {
    let tick = BaseDataEnum::Tick(Tick::new(symbol(), 5, 100, 2, None));
    assert_eq!(tick.time_utc(), 100);
    assert_eq!(tick.time_created_utc(), 100);
    assert_eq!(tick.base_data_type(), BaseDataType::Ticks);
    assert_eq!(tick.resolution(), Resolution::Ticks(1));
    assert_eq!(tick.volume(), 2);
    assert!(tick.is_closed());
    assert_eq!(tick.symbol(), &symbol());
    let sub = tick.subscription();
    assert_eq!(sub.symbol, symbol());
    assert_eq!((sub.resolution, sub.base_data_type, sub.market_type, sub.candle_type),
        (Resolution::Ticks(1), BaseDataType::Ticks, MarketType::Forex, None));

    let candle = Candle::new(symbol(), 7, 3, 60, Resolution::Seconds(30), CandleType::Renko);
    let data = BaseDataEnum::Candle(candle);
    assert_eq!(data.time_utc(), 60);
    assert_eq!(data.time_created_utc(), 60 + 30 * NANOS_PER_SECOND as i128);
    assert!(!data.is_closed());
    assert_eq!(data.subscription().candle_type, Some(CandleType::Renko));
    let closed = data.into_closed();
    assert!(closed.is_closed());
    assert!(closed.is_well_formed());

    let bar = QuoteBar::new(symbol(), 9, 11, 0, 2, 0, Resolution::Minutes(1), CandleType::CandleStick);
    assert_eq!((bar.bid_open, bar.ask_close, bar.range), (9, 11, 2));
    let bar = BaseDataEnum::QuoteBar(bar);
    assert_eq!(bar.base_data_type(), BaseDataType::QuoteBars);
    assert_eq!(bar.time_created_utc(), NANOS_PER_MINUTE as i128);

    let quote = Quote::new(symbol(), 11, 9, 1, 1, 0, 5);
    assert_eq!(quote.resolution(), Resolution::Instant);
    assert_eq!(quote.time_utc(), 5);
    assert_eq!(quote.subscription().base_data_type, BaseDataType::Quotes);
    let price = BaseDataEnum::Price(TradePrice::new(symbol(), MAX_PRICE + 1, 1));
    assert!(!price.is_well_formed());
    assert_eq!(price.volume(), 0);
    let f = BaseDataEnum::Fundamental(Fundamental::new(symbol(), 1, "{}".to_string()));
    assert_eq!(f.base_data_type(), BaseDataType::Fundamentals);
    assert_eq!(f.clone(), f);
    let mut odd = Candle::new(symbol(), 7, 3, 60, Resolution::Seconds(30), CandleType::Renko);
    odd.low = 8;
    assert!(!odd.is_well_formed());
}

#[test]
fn subscriptions_compare_structurally() {
    let a = DataSubscription::new("X".to_string(), DataVendor::Test, Resolution::Minutes(1), BaseDataType::Candles, MarketType::Cfd);
    let b = DataSubscription::new_custom("X".to_string(), DataVendor::Test, Resolution::Minutes(1), BaseDataType::Candles, MarketType::Cfd, CandleType::HeikinAshi);
    let c = DataSubscription::new_custom("X".to_string(), DataVendor::Test, Resolution::Minutes(1), BaseDataType::Candles, MarketType::Cfd, CandleType::Renko);
    assert_eq!(a, a.clone());
    assert_ne!(a, b);
    assert_ne!(b, c);
    assert_eq!(b.candle_type, Some(CandleType::HeikinAshi));
    let other = DataSubscription::new("Y".to_string(), DataVendor::Test, Resolution::Minutes(1), BaseDataType::Candles, MarketType::Cfd);
    assert_ne!(a, other);
    assert_eq!(a.symbol, Symbol::new("X".to_string(), DataVendor::Test, MarketType::Cfd));
    assert_ne!(a.symbol, Symbol::new("X".to_string(), DataVendor::Oanda, MarketType::Cfd));
    let e = DataSubscriptionEvent::Subscribed(a.clone());
    assert_eq!(e.clone(), e);
}

#[test]
fn catalog_is_filtered_and_largest_is_last_of_equals() {
    let entry = |r, t| SubscriptionResolutionType::new(r, t);
    let catalog = vec![
        entry(Resolution::Ticks(1), BaseDataType::Ticks),
        entry(Resolution::Seconds(1), BaseDataType::Candles),
        entry(Resolution::Seconds(1), BaseDataType::Ticks),
        entry(Resolution::Seconds(1), BaseDataType::Quotes),
        entry(Resolution::Minutes(1), BaseDataType::Candles),
        entry(Resolution::Hours(1), BaseDataType::Candles),
    ];
    let kept = filter_resolutions(&catalog, Resolution::Minutes(5), BaseDataType::Candles);
    assert_eq!(kept.len(), 4);
    assert_eq!(largest_resolution(&kept), Some(entry(Resolution::Minutes(1), BaseDataType::Candles)));
    let kept = filter_resolutions(&catalog, Resolution::Seconds(30), BaseDataType::Candles);
    assert_eq!(largest_resolution(&kept), Some(entry(Resolution::Seconds(1), BaseDataType::Ticks)));
    let kept = filter_resolutions(&catalog, Resolution::Seconds(30), BaseDataType::QuoteBars);
    assert_eq!(kept, vec![entry(Resolution::Seconds(1), BaseDataType::Quotes)]);
    assert_eq!(largest_resolution(&vec![]), None);
    assert!(can_source(BaseDataType::Prices, BaseDataType::Candles));
    assert!(!can_source(BaseDataType::Quotes, BaseDataType::Candles));
    assert!(can_source(BaseDataType::Fundamentals, BaseDataType::Fundamentals));
}

#[test]
fn rolling_window_keeps_newest_in_front() {
    let mut w: RollingWindow<u32> = RollingWindow::new(3);
    assert!(w.is_empty());
    assert_eq!(w.last(), None);
    for i in 1..=5 {
        w.add(i);
    }
    assert_eq!(w.len(), 3);
    assert!(w.is_full());
    assert_eq!(w.last(), Some(&5));
    assert_eq!(w.get(0), Some(&5));
    assert_eq!(w.get(2), Some(&3));
    assert_eq!(w.get(3), None);
    assert_eq!(w.history(), vec![5, 4, 3]);
    assert_eq!(w.last_n(2), &[5, 4]);
    assert_eq!(w.last_n(9), &[5, 4, 3]);
    w.clear();
    assert!(w.is_empty());
    assert!(!w.is_full());
    let mut none: RollingWindow<u32> = RollingWindow::new(0);
    none.add(1);
    assert_eq!(none.len(), 0);
    assert!(none.is_full());
}

#[test]
fn history_handler_keeps_a_window_per_subscription() {
    let tick = |price: i64, time: i64| BaseDataEnum::Tick(Tick::new(symbol(), price, time, 1, None));
    let mut window = fund_forge::history_handler::RollingWindow::new(2);
    assert_eq!(window.len(), 0);
    window.add(tick(1, 1));
    assert!(!window.is_full());
    window.add(tick(2, 2));
    window.add(tick(3, 3));
    assert!(window.is_full());
    assert_eq!(window.last().unwrap().time_utc(), 3);
    assert_eq!(window.get(1).unwrap().time_utc(), 2);
    assert!(window.get(2).is_none());
    window.clear();
    assert!(window.last().is_none());
    let mut zero = fund_forge::history_handler::RollingWindow::new(0);
    zero.add(tick(1, 1));
    assert_eq!(zero.len(), 0);

    let mut h = HistoryHandler::new(2);
    let quote = BaseDataEnum::Quote(Quote::new(symbol(), 11, 9, 1, 1, 0, 5));
    h.add(&vec![tick(1, 1), quote.clone(), tick(2, 2), tick(3, 3)]);
    let ticks = tick(0, 0).subscription();
    assert_eq!(h.window(&ticks).unwrap().len(), 2);
    assert_eq!(h.last(&ticks).unwrap().time_utc(), 3);
    assert_eq!(h.index(&ticks, 1).unwrap().time_utc(), 2);
    assert_eq!(h.index(&ticks, 2), None);
    assert_eq!(h.last(&quote.subscription()), Some(quote));
    let missing = DataSubscription::new("Z".to_string(), DataVendor::Test, Resolution::Instant, BaseDataType::Quotes, MarketType::Forex);
    assert!(h.window(&missing).is_none());
    assert_eq!(h.last(&missing), None);
}
