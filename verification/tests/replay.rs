use fund_forge::base_data::{BaseDataEnum, Tick};
use fund_forge::consolidators::consolidator_enum::ConsolidationSettings;
use fund_forge::engine::Engine;
use fund_forge::historical_engine::{
    slice_between, HistoricalEngine, ReplayAction, ReplayStep,
};
use fund_forge::indicators::indicator_handler::IndicatorHandler;
use fund_forge::ledgers::AccountCurrency;
use fund_forge::market_handlers::HistoricalMarketHandler;
use fund_forge::orders::{Order, OrderType, OrderUpdateEvent};
use fund_forge::positions::Brokerage;
use fund_forge::base_data::OrderSide;
use fund_forge::resolution::{Resolution, NANOS_PER_DAY, NANOS_PER_SECOND};
use fund_forge::strategy_events::{StrategyEvent, StrategyMode};
use fund_forge::subscription_handler::SubscriptionHandler;
use fund_forge::subscriptions::{
    BaseDataType, DataSubscription, DataVendor, MarketType, SubscriptionResolutionType, Symbol,
};

// 2024-06-05 00:00:00 UTC
const JUNE_5: i64 = 1_717_545_600 * NANOS_PER_SECOND;
// 2024-07-01 00:00:00 UTC
const JULY_1: i64 = 1_719_792_000 * NANOS_PER_SECOND;

fn ticks(name: &str) -> DataSubscription {
    DataSubscription::new(name.to_string(), DataVendor::Test, Resolution::Ticks(1), BaseDataType::Ticks, MarketType::Futures)
}

fn tick(name: &str, price: i64, time: i64) -> BaseDataEnum {
    let symbol = Symbol::new(name.to_string(), DataVendor::Test, MarketType::Futures);
    BaseDataEnum::Tick(Tick::new(symbol, price, time, 1, None))
}

fn advance(from: i64, time: i64, observable: bool) -> ReplayAction {
    ReplayAction::Advance { from, time, observable }
}

#[test]
fn replay_steps_through_warm_up_into_the_backtest() {
    let step = NANOS_PER_SECOND;
    let mut e = HistoricalEngine::new(StrategyMode::Backtest, JUNE_5, JUNE_5 + 3 * step, 2 * step, step, false, vec![ticks("S1")]).unwrap();
    let start = JUNE_5 - 2 * step;
    assert_eq!(e.last_time(), start);
    assert_eq!(
        e.launch(None),
        ReplayStep { warm_up_completed: false, action: ReplayAction::Fetch { from: start, month_of: start + step } }
    );
    assert_eq!(e.launch(None), ReplayStep { warm_up_completed: false, action: advance(start, start + step, false) });
    assert!(!e.is_warm_up_complete());
    assert_eq!(e.launch(None), ReplayStep { warm_up_completed: true, action: advance(start + step, JUNE_5, true) });
    assert!(e.is_warm_up_complete());
    assert_eq!(e.launch(None), ReplayStep { warm_up_completed: false, action: advance(JUNE_5, JUNE_5 + step, true) });
    assert_eq!(e.launch(None).action, advance(JUNE_5 + step, JUNE_5 + 2 * step, true));
    assert_eq!(e.launch(None).action, advance(JUNE_5 + 2 * step, JUNE_5 + 3 * step, true));
    assert_eq!(e.launch(None), ReplayStep { warm_up_completed: false, action: ReplayAction::Finished { shutdown: true } });
    assert_eq!(e.launch(None), ReplayStep { warm_up_completed: false, action: ReplayAction::Finished { shutdown: false } });
    assert_eq!(e.last_time(), JUNE_5 + 3 * step);
}

#[test]
fn live_replay_ends_when_warm_up_completes() {
    let step = NANOS_PER_SECOND;
    let mut e = HistoricalEngine::new(StrategyMode::LivePaperTrading, JUNE_5, JUNE_5 + 100 * step, step, step, false, vec![]).unwrap();
    assert!(matches!(e.launch(None).action, ReplayAction::Fetch { .. }));
    assert_eq!(e.launch(None), ReplayStep { warm_up_completed: true, action: ReplayAction::Finished { shutdown: false } });
    assert!(matches!(e.launch(None).action, ReplayAction::Finished { shutdown: false }));
}

#[test]
fn engine_rejects_bad_parameters() {
    assert!(HistoricalEngine::new(StrategyMode::Backtest, 0, 10, 0, 0, false, vec![]).is_none());
    assert!(HistoricalEngine::new(StrategyMode::Backtest, 0, 10, -1, 1, false, vec![]).is_none());
    assert!(HistoricalEngine::new(StrategyMode::Backtest, i64::MIN, 10, 1, 1, false, vec![]).is_none());
    let mut e = HistoricalEngine::new(StrategyMode::Backtest, i64::MAX - 1, i64::MAX, 0, 5, false, vec![]).unwrap();
    assert!(matches!(e.launch(None).action, ReplayAction::Finished { shutdown: true }));
}

#[test]
fn month_rollover_fetches_the_next_month() {
    let day = NANOS_PER_DAY;
    let mut e = HistoricalEngine::new(StrategyMode::Backtest, JULY_1 - 2 * day, JULY_1 + 2 * day, 0, day, false, vec![]).unwrap();
    let start = JULY_1 - 2 * day;
    assert_eq!(e.launch(None).action, ReplayAction::Fetch { from: start, month_of: start + day });
    assert_eq!(e.launch(None), ReplayStep { warm_up_completed: true, action: advance(start, JULY_1 - day, true) });
    assert_eq!(e.launch(None).action, ReplayAction::Fetch { from: JULY_1 - day, month_of: JULY_1 });
    assert_eq!(e.launch(None).action, advance(JULY_1 - day, JULY_1, true));
    assert_eq!(e.launch(None).action, advance(JULY_1, JULY_1 + day, true));
}

#[test]
fn mid_month_resubscription_refetches_from_the_cursor() {
    let step = NANOS_PER_SECOND;
    let s1 = ticks("S1");
    let s2 = ticks("S2");
    let mut e = HistoricalEngine::new(StrategyMode::Backtest, JUNE_5, JUNE_5 + 10 * step, 0, step, false, vec![s1.clone()]).unwrap();
    let month = vec![tick("S1", 1, JUNE_5 + step), tick("S1", 2, JUNE_5 + 2 * step), tick("S1", 3, JUNE_5 + 3 * step)];
    let mut seen: Vec<i64> = Vec::new();
    assert!(matches!(e.launch(None).action, ReplayAction::Fetch { .. }));
    for _ in 0..2 {
        match e.launch(Some(vec![s1.clone()])).action {
            ReplayAction::Advance { from, time, .. } => {
                seen.extend(slice_between(&month, from, time).iter().map(|d| d.time_utc()))
            }
            other => panic!("unexpected {:?}", other),
        }
    }
    let t = e.last_time();
    assert_eq!(t, JUNE_5 + 2 * step);
    let refetch = e.launch(Some(vec![s1.clone(), s2.clone()]));
    assert_eq!(refetch.action, ReplayAction::Fetch { from: t, month_of: t + step });
    assert_eq!(e.last_time(), t);
    assert_eq!(e.primary_subscriptions(), &vec![s1.clone(), s2.clone()]);
    let refetched = vec![
        tick("S1", 2, JUNE_5 + 2 * step),
        tick("S2", 9, JUNE_5 + 2 * step),
        tick("S1", 3, JUNE_5 + 3 * step),
        tick("S2", 8, JUNE_5 + 3 * step),
    ];
    match e.launch(Some(vec![s1.clone(), s2.clone()])).action {
        ReplayAction::Advance { from, time, .. } => {
            assert_eq!(from, t);
            let slice = slice_between(&refetched, from, time);
            assert_eq!(slice.len(), 2);
            seen.extend(slice.iter().filter(|d| d.symbol().name == "S1").map(|d| d.time_utc()));
        }
        other => panic!("unexpected {:?}", other),
    }
    assert_eq!(seen, vec![JUNE_5 + step, JUNE_5 + 2 * step, JUNE_5 + 3 * step]);
}

#[test]
fn slice_holds_what_lies_after_the_cursor_up_to_the_step() {
    let data = vec![tick("A", 1, 10), tick("B", 2, 11), tick("A", 3, 11), tick("A", 4, 12), tick("A", 5, 9)];
    let slice = slice_between(&data, 10, 11);
    assert_eq!(slice.len(), 2);
    assert_eq!(slice[0].symbol().name, "B");
    assert_eq!(slice[1].symbol().name, "A");
    assert_eq!(slice_between(&data, 8, 9).len(), 1);
    assert!(slice_between(&data, 12, 20).is_empty());
    assert!(slice_between(&data, 11, 10).is_empty());
}

fn engine() -> Engine {
    let step = NANOS_PER_SECOND;
    let mut subscriptions = SubscriptionHandler::new(StrategyMode::Backtest);
    let catalog = vec![SubscriptionResolutionType::new(Resolution::Ticks(1), BaseDataType::Ticks)];
    let settings = ConsolidationSettings { tick_size: 1, block_range: 10, fill_forward: false };
    subscriptions.subscribe(ticks("S1"), 10, &catalog, settings).unwrap();
    let bars = DataSubscription::new("S1".to_string(), DataVendor::Test, Resolution::Ticks(2), BaseDataType::Ticks, MarketType::Futures);
    subscriptions.subscribe(bars, 10, &catalog, settings).unwrap();
    let replay = HistoricalEngine::new(StrategyMode::Backtest, JUNE_5, JUNE_5 + 10 * step, step, step, false, vec![]).unwrap();
    let market = HistoricalMarketHandler::new("owner".to_string(), JUNE_5 - step, 100_000, AccountCurrency::USD).unwrap();
    let indicators = IndicatorHandler::new("owner".to_string(), StrategyMode::Backtest);
    Engine::new("owner".to_string(), replay, subscriptions, market, indicators)
}

#[test]
fn engine_orders_events_within_a_step() {
    let step = NANOS_PER_SECOND;
    let mut e = engine();
    let month = vec![tick("S1", 100, JUNE_5), tick("S1", 102, JUNE_5 + step / 2), tick("S1", 104, JUNE_5 + step)];
    let first = e.launch();
    assert!(matches!(first.action, ReplayAction::Fetch { .. }));
    assert_eq!(e.replay.primary_subscriptions(), &vec![ticks("S1")]);
    assert!(!e.subscription_handler.subscriptions_updated());
    let order = Order::new("1".to_string(), "S1".to_string(), "acct".to_string(), Brokerage::Test, OrderSide::Buy, OrderType::EnterLong, 1, "t".to_string(), 0);
    e.market_event_handler.send_order(order);
    let next = e.launch();
    assert!(next.warm_up_completed);
    assert!(e.market_event_handler.is_warm_up_complete());
    let (from, time, observable) = match next.action {
        ReplayAction::Advance { from, time, observable } => (from, time, observable),
        other => panic!("unexpected {:?}", other),
    };
    assert!(observable);
    let events = e.historical_data_feed(&month, from, time, observable, &vec![10]);
    assert_eq!(events.len(), 3);
    assert!(matches!(&events[0], StrategyEvent::OrderEvents(OrderUpdateEvent::Filled(o)) if o.average_fill_price == Some(100)));
    assert!(matches!(&events[1], StrategyEvent::PositionEvents(_)));
    match &events[2] {
        StrategyEvent::TimeSlice(at, slice) => {
            assert_eq!(*at, JUNE_5);
            assert_eq!(slice.len(), 2);
            assert_eq!(slice[0].resolution(), Resolution::Ticks(2));
            assert_eq!(slice[1].resolution(), Resolution::Ticks(1));
        }
        other => panic!("unexpected {:?}", other),
    }
    let next = e.launch();
    let (from, time) = match next.action {
        ReplayAction::Advance { from, time, .. } => (from, time),
        other => panic!("unexpected {:?}", other),
    };
    let events = e.historical_data_feed(&month, from, time, false, &vec![]);
    assert!(events.is_empty());
    assert_eq!(e.subscription_handler.history(&DataSubscription::new("S1".to_string(), DataVendor::Test, Resolution::Ticks(2), BaseDataType::Ticks, MarketType::Futures)).unwrap().len(), 1);
    assert_eq!(e.market_event_handler.get_last_price(&"S1".to_string()), Some(104));
    assert!(matches!(e.run_backtest(), StrategyEvent::ShutdownEvent(m) if m == "Backtest complete"));
}
