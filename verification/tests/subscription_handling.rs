use fund_forge::base_data::{BaseDataEnum, Candle, Fundamental, Tick};
use fund_forge::consolidators::candlesticks::ConsolidatorError;
use fund_forge::consolidators::consolidator_enum::ConsolidationSettings;
use fund_forge::resolution::{Resolution, NANOS_PER_MINUTE, NANOS_PER_SECOND};
use fund_forge::strategy_events::StrategyMode;
use fund_forge::subscription_handler::{
    can_feed, select_primary, SubscriptionError, SubscriptionHandler, SymbolSubscriptionHandler,
};
use fund_forge::subscriptions::{
    BaseDataType, CandleType, DataSubscription, DataSubscriptionEvent, DataVendor, MarketType,
    SubscriptionResolutionType, Symbol,
};

fn settings() -> ConsolidationSettings {
    ConsolidationSettings { tick_size: 1, block_range: 10, fill_forward: false }
}

fn symbol(name: &str) -> Symbol {
    Symbol::new(name.to_string(), DataVendor::Test, MarketType::Futures)
}

fn vendor(name: &str, r: Resolution, t: BaseDataType) -> DataSubscription {
    DataSubscription::new(name.to_string(), DataVendor::Test, r, t, MarketType::Futures)
}

fn candles(name: &str, r: Resolution) -> DataSubscription {
    DataSubscription::new_custom(name.to_string(), DataVendor::Test, r, BaseDataType::Candles, MarketType::Futures, CandleType::CandleStick)
}

fn catalog() -> Vec<SubscriptionResolutionType> {
    vec![
        SubscriptionResolutionType::new(Resolution::Ticks(1), BaseDataType::Ticks),
        SubscriptionResolutionType::new(Resolution::Seconds(1), BaseDataType::Candles),
    ]
}

fn tick(name: &str, price: i64, volume: u64, time: i64) -> BaseDataEnum {
    BaseDataEnum::Tick(Tick::new(symbol(name), price, time, volume, None))
}

fn second_candle(name: &str, close: i64, time: i64) -> BaseDataEnum {
    let mut c = Candle::new(symbol(name), close, 1, time, Resolution::Seconds(1), CandleType::CandleStick);
    c.is_closed = true;
    BaseDataEnum::Candle(c)
}

#[test]
fn primary_is_chosen_from_the_catalog() {
    let native = vendor("ES", Resolution::Ticks(1), BaseDataType::Ticks);
    let choice = select_primary(&native, &catalog()).ok().unwrap();
    assert_eq!(choice.primary, native);
    assert!(!choice.consolidated);

    let choice = select_primary(&candles("ES", Resolution::Minutes(5)), &catalog()).ok().unwrap();
    assert_eq!(choice.primary, vendor("ES", Resolution::Seconds(1), BaseDataType::Candles));
    assert!(choice.consolidated);

    let choice = select_primary(&vendor("ES", Resolution::Ticks(50), BaseDataType::Ticks), &catalog()).ok().unwrap();
    assert_eq!(choice.primary, vendor("ES", Resolution::Ticks(1), BaseDataType::Ticks));
    assert!(choice.consolidated);

    assert_eq!(select_primary(&native, &vec![]).err(), Some(SubscriptionError::NoResolutions));
    let only_candles = vec![SubscriptionResolutionType::new(Resolution::Seconds(1), BaseDataType::Candles)];
    assert_eq!(
        select_primary(&vendor("ES", Resolution::Ticks(5), BaseDataType::Ticks), &only_candles).err(),
        Some(SubscriptionError::NoTickData)
    );
    assert_eq!(
        select_primary(&vendor("ES", Resolution::Minutes(1), BaseDataType::QuoteBars), &catalog()).err(),
        Some(SubscriptionError::NoCompatibleResolution)
    );
    assert!(can_feed(&native, &candles("ES", Resolution::Minutes(1))));
    assert!(!can_feed(&candles("ES", Resolution::Minutes(1)), &native));
}

#[test]
fn symbol_handler_consolidates_from_the_primary() {
    let wanted = candles("ES", Resolution::Minutes(1));
    let mut h = SymbolSubscriptionHandler::new(wanted.clone(), false, 10, &catalog(), settings()).ok().unwrap();
    assert_eq!(h.primary_subscription(), vendor("ES", Resolution::Seconds(1), BaseDataType::Candles));
    assert!(h.holds(&wanted));
    assert!(!h.holds(&h.primary_subscription()));
    assert_eq!(h.all_subscriptions(), vec![h.primary_subscription(), wanted.clone()]);
    assert_eq!(h.get_subscription_event_buffer(), vec![DataSubscriptionEvent::Subscribed(wanted.clone())]);
    assert!(h.get_subscription_event_buffer().is_empty());

    let out = h.update(&second_candle("ES", 100, 0));
    assert_eq!(out.len(), 1);
    assert_eq!(h.primary_history().len(), 1);
    assert!(h.update_time(30 * NANOS_PER_SECOND).is_empty());
    let out = h.update_time(NANOS_PER_MINUTE);
    assert_eq!(out.len(), 1);
    assert!(out[0].is_closed());
    assert_eq!(h.consolidator(&wanted).unwrap().history().len(), 1);
    assert!(h.consolidator(&h.primary_subscription()).is_none());

    assert_eq!(h.subscribe(wanted.clone(), 10, &catalog()), Ok(()));
    assert!(h.get_subscription_event_buffer().is_empty());
    assert_eq!(h.subscribe(h.primary_subscription(), 10, &catalog()), Ok(()));
    assert!(h.holds(&h.primary_subscription()));
    assert_eq!(h.unsubscribe(&h.primary_subscription()), Err(SubscriptionError::PrimaryInUse));
    assert_eq!(h.unsubscribe(&candles("ES", Resolution::Hours(1))), Err(SubscriptionError::NotSubscribed));
    assert_eq!(h.subscribe(candles("NQ", Resolution::Minutes(1)), 10, &catalog()), Err(SubscriptionError::WrongSymbol));
    assert_eq!(h.unsubscribe(&wanted), Ok(()));
    assert!(!h.is_empty());
    assert_eq!(h.unsubscribe(&h.primary_subscription()), Ok(()));
    assert!(h.is_empty());
    h.set_warmed_up();
    assert_eq!(h.symbol(), &symbol("ES"));
}

#[test]
fn finer_subscription_takes_over_as_primary() {
    let seconds = vendor("ES", Resolution::Seconds(1), BaseDataType::Candles);
    let mut h = SymbolSubscriptionHandler::new(seconds.clone(), false, 10, &catalog(), settings()).ok().unwrap();
    assert_eq!(h.primary_subscription(), seconds);
    let ticks = vendor("ES", Resolution::Ticks(1), BaseDataType::Ticks);
    assert_eq!(h.subscribe(ticks.clone(), 10, &catalog()), Ok(()));
    assert_eq!(h.primary_subscription(), ticks);
    assert!(h.holds(&ticks));
    assert!(h.holds(&seconds));
    assert!(h.consolidator(&seconds).is_some());
    let out = h.update(&tick("ES", 5, 1, 10));
    assert_eq!(out.len(), 1);
    assert_eq!(out[0].resolution(), Resolution::Seconds(1));

    let mut only = SymbolSubscriptionHandler::new(seconds.clone(), false, 10, &catalog(), settings()).ok().unwrap();
    let quotes = vendor("ES", Resolution::Instant, BaseDataType::Quotes);
    let with_quotes = vec![SubscriptionResolutionType::new(Resolution::Instant, BaseDataType::Quotes)];
    assert_eq!(only.subscribe(quotes, 10, &with_quotes), Err(SubscriptionError::Incompatible));
    assert_eq!(only.primary_subscription(), seconds);
    let bad = DataSubscription::new_custom("ES".to_string(), DataVendor::Test, Resolution::Minutes(1), BaseDataType::Candles, MarketType::Futures, CandleType::Renko);
    let broken = ConsolidationSettings { tick_size: 1, block_range: 0, fill_forward: false };
    let mut renko = SymbolSubscriptionHandler::new(seconds.clone(), false, 10, &catalog(), broken).ok().unwrap();
    assert_eq!(
        renko.subscribe(bad, 10, &catalog()),
        Err(SubscriptionError::Consolidator(ConsolidatorError::InvalidTickSize))
    );
}

#[test]
fn subscribing_is_idempotent_and_flags_the_change() {
    let mut h = SubscriptionHandler::new(StrategyMode::Backtest);
    assert!(h.subscriptions_updated());
    h.set_subscriptions_updated(false);
    let wanted = candles("ES", Resolution::Minutes(1));
    assert_eq!(h.subscribe(wanted.clone(), 10, &catalog(), settings()), Ok(()));
    assert!(h.subscriptions_updated());
    h.set_subscriptions_updated(false);
    assert_eq!(h.subscribe(wanted.clone(), 10, &catalog(), settings()), Ok(()));
    assert_eq!(h.strategy_subscriptions(), vec![wanted.clone()]);
    assert_eq!(h.primary_subscriptions(), vec![vendor("ES", Resolution::Seconds(1), BaseDataType::Candles)]);
    assert_eq!(h.subscriptions().len(), 2);
    assert_eq!(h.subscription_events(), vec![DataSubscriptionEvent::Subscribed(wanted.clone())]);
    assert!(h.subscription_events().is_empty());

    let fundamental = vendor("ES", Resolution::Instant, BaseDataType::Fundamentals);
    assert_eq!(h.subscribe(fundamental.clone(), 10, &vec![], settings()), Ok(()));
    assert_eq!(h.subscribe(fundamental.clone(), 10, &vec![], settings()), Ok(()));
    assert_eq!(h.strategy_subscriptions(), vec![wanted.clone(), fundamental.clone()]);
    assert_eq!(h.subscriptions().len(), 3);
    assert_eq!(h.primary_subscriptions().len(), 1);

    h.set_subscriptions_updated(false);
    assert_eq!(
        h.subscribe(candles("NQ", Resolution::Minutes(1)), 10, &vec![], settings()),
        Err(SubscriptionError::NoResolutions)
    );
    assert!(!h.subscriptions_updated());
    assert_eq!(h.primary_subscriptions().len(), 1);

    assert_eq!(h.unsubscribe(&fundamental), Ok(()));
    assert_eq!(h.unsubscribe(&candles("NQ", Resolution::Minutes(1))), Err(SubscriptionError::NotSubscribed));
    assert_eq!(h.unsubscribe(&wanted), Ok(()));
    assert!(h.primary_subscriptions().is_empty());
    assert!(h.strategy_subscriptions().is_empty());
    assert!(h.subscriptions_updated());
}

#[test]
fn slices_are_dispatched_by_symbol() {
    let mut h = SubscriptionHandler::new(StrategyMode::Backtest);
    let es = vendor("ES", Resolution::Ticks(3), BaseDataType::Ticks);
    let nq = candles("NQ", Resolution::Seconds(5));
    h.subscribe(es.clone(), 10, &catalog(), settings()).unwrap();
    h.subscribe(nq.clone(), 10, &catalog(), settings()).unwrap();
    h.set_warmup_complete();
    let slice = vec![
        tick("ES", 10, 1, 1),
        second_candle("NQ", 7, 0),
        tick("CL", 1, 1, 1),
        tick("ES", 12, 2, 2),
        BaseDataEnum::Fundamental(Fundamental::new(symbol("ES"), 2, "x".to_string())),
        tick("ES", 9, 3, 3),
    ];
    let out = h.update_time_slice(&slice);
    let shapes: Vec<(String, bool)> = out.iter().map(|d| (d.symbol().name.clone(), d.is_closed())).collect();
    assert_eq!(
        shapes,
        vec![
            ("ES".to_string(), false),
            ("NQ".to_string(), false),
            ("ES".to_string(), false),
            ("ES".to_string(), true)
        ]
    );
    assert_eq!(out[3].volume(), 6);
    assert_eq!(h.bar_index(&es, 0).unwrap().volume(), 6);
    assert_eq!(h.bar_index(&es, 1), None);
    assert_eq!(h.bar_current(&es), None);
    assert_eq!(h.history(&es).unwrap().len(), 1);
    assert!(h.bar_current(&nq).is_some());
    let out = h.update_consolidators_time(6 * NANOS_PER_SECOND);
    assert_eq!(out.len(), 1);
    assert_eq!(out[0].symbol().name, "NQ");
    assert!(out[0].is_closed());
    assert_eq!(h.bar_current(&nq), None);
    let primary = vendor("NQ", Resolution::Seconds(1), BaseDataType::Candles);
    assert!(h.history(&primary).is_none());
    assert_eq!(h.bar_index(&primary, 0), None);
    let fundamental = vendor("ES", Resolution::Instant, BaseDataType::Fundamentals);
    assert!(h.history(&fundamental).is_none());
}

#[test]
fn consolidator_added_after_warm_up_can_be_warmed_up() {
    let mut h = SubscriptionHandler::new(StrategyMode::Backtest);
    let nq = candles("NQ", Resolution::Seconds(2));
    h.subscribe(nq.clone(), 10, &catalog(), settings()).unwrap();
    let data = vec![second_candle("NQ", 7, 0), second_candle("NQ", 8, NANOS_PER_SECOND), second_candle("NQ", 9, 2 * NANOS_PER_SECOND)];
    assert!(h.warmup(&nq, &data, 0, 10 * NANOS_PER_SECOND));
    assert!(h.history(&nq).unwrap().len() >= 1);
    assert!(!h.warmup(&candles("ES", Resolution::Seconds(2)), &data, 0, 10));
    assert!(!h.warmup(&vendor("NQ", Resolution::Seconds(1), BaseDataType::Candles), &data, 0, 10));
}
