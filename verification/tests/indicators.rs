use fund_forge::base_data::{BaseDataEnum, Candle, Tick};
use fund_forge::indicators::average_true_range::AverageTrueRange;
use fund_forge::indicators::indicator_enum::IndicatorEnum;
use fund_forge::indicators::indicator_handler::IndicatorHandler;
use fund_forge::indicators::values::IndicatorEvents;
use fund_forge::resolution::Resolution;
use fund_forge::strategy_events::{StrategyEvent, StrategyMode};
use fund_forge::subscriptions::{
    BaseDataType, CandleType, DataSubscription, DataVendor, MarketType, Symbol,
};

fn symbol() -> Symbol {
    Symbol::new("ES".to_string(), DataVendor::Test, MarketType::Futures)
}

fn sub() -> DataSubscription {
    DataSubscription::new_custom("ES".to_string(), DataVendor::Test, Resolution::Minutes(1), BaseDataType::Candles, MarketType::Futures, CandleType::CandleStick)
}

fn bar(high: i64, low: i64, close: i64, time: i64, closed: bool) -> BaseDataEnum {
    let mut c = Candle::new(symbol(), low, 1, time, Resolution::Minutes(1), CandleType::CandleStick);
    c.high = high;
    c.close = close;
    c.is_closed = closed;
    BaseDataEnum::Candle(c)
}

fn atr(name: &str, period: usize) -> IndicatorEnum {
    IndicatorEnum::AverageTrueRange(AverageTrueRange::new(name.to_string(), sub(), 10, period).unwrap())
}

#[test]
fn average_true_range_of_last_bars() {
    assert!(AverageTrueRange::new("x".to_string(), sub(), 10, 0).is_none());
    let mut a = atr("atr", 3);
    assert!(!a.is_ready());
    assert_eq!(a.update_base_data(&bar(110, 100, 105, 1, true)), None);
    assert_eq!(a.update_base_data(&bar(120, 108, 110, 2, false)), None);
    assert_eq!(a.update_base_data(&bar(120, 108, 110, 2, true)), None);
    let v = a.update_base_data(&bar(111, 95, 100, 3, true)).unwrap();
    // true ranges, oldest first: 10, max(12, 15, 3) = 15, max(16, 1, 15) = 16
    assert_eq!(v.value, (10 + 15 + 16) / 3);
    assert_eq!((v.time, v.name.as_str()), (3, "atr"));
    assert!(a.is_ready());
    let v = a.update_base_data(&bar(130, 129, 130, 4, true)).unwrap();
    // the oldest bar of the window now counts with its own range: 12, 16, max(1, 30, 29) = 30
    assert_eq!(v.value, (12 + 16 + 30) / 3);
    assert_eq!(a.current().unwrap().value, 19);
    assert_eq!(a.index(1).unwrap().value, 13);
    assert_eq!(a.index(2), None);
    assert_eq!(a.plots().len(), 2);
    assert_eq!(a.subscription(), sub());
    assert_eq!(a.name(), "atr");
    let tick = BaseDataEnum::Tick(Tick::new(symbol(), 1, 9, 1, None));
    assert_eq!(a.update_base_data(&tick), None);
    a.reset();
    assert!(!a.is_ready());
    assert_eq!(a.current(), None);
}

#[test]
fn handler_adds_replaces_and_removes() {
    let mut h = IndicatorHandler::new("owner".to_string(), StrategyMode::Backtest);
    assert!(!h.is_warm_up_complete());
    h.set_warmup_complete();
    assert!(h.is_warm_up_complete());
    h.add_indicator(atr("a", 1));
    h.add_indicator(atr("b", 2));
    h.add_indicator(atr("a", 2));
    h.remove_indicator(&"b".to_string());
    h.remove_indicator(&"zzz".to_string());
    let events = h.get_event_buffer();
    assert_eq!(events.len(), 4);
    assert!(matches!(&events[0], StrategyEvent::IndicatorEvent(IndicatorEvents::IndicatorAdded(n)) if n == "a"));
    assert!(matches!(&events[1], StrategyEvent::IndicatorEvent(IndicatorEvents::IndicatorAdded(n)) if n == "b"));
    assert!(matches!(&events[2], StrategyEvent::IndicatorEvent(IndicatorEvents::Replaced(n)) if n == "a"));
    assert!(matches!(&events[3], StrategyEvent::IndicatorEvent(IndicatorEvents::IndicatorRemoved(n)) if n == "b"));
    assert!(h.get_event_buffer().is_empty());
    assert_eq!(h.current(&"a".to_string()), None);
    assert!(h.history(&"a".to_string()).is_none());
}

#[test]
fn handler_evaluates_in_insertion_order() {
    let mut h = IndicatorHandler::new("owner".to_string(), StrategyMode::Backtest);
    h.add_indicator(atr("slow", 2));
    h.add_indicator(atr("fast", 1));
    assert!(h.update_time_slice(1, &vec![]).is_none());
    match h.update_time_slice(5, &vec![bar(110, 100, 105, 1, true)]) {
        Some(StrategyEvent::IndicatorEvent(IndicatorEvents::IndicatorTimeSlice(t, values))) => {
            assert_eq!(t, 5);
            assert_eq!(values.len(), 1);
            assert_eq!((values[0].name.as_str(), values[0].value), ("fast", 10));
        }
        other => panic!("unexpected {:?}", other),
    }
    match h.update_time_slice(6, &vec![bar(112, 108, 110, 2, true), bar(113, 110, 111, 3, true)]) {
        Some(StrategyEvent::IndicatorEvent(IndicatorEvents::IndicatorTimeSlice(_, values))) => {
            let got: Vec<(&str, i64)> = values.iter().map(|v| (v.name.as_str(), v.value)).collect();
            assert_eq!(got, vec![("slow", 8), ("fast", 4), ("slow", 3), ("fast", 3)]);
        }
        other => panic!("unexpected {:?}", other),
    }
    assert_eq!(h.current(&"slow".to_string()).unwrap().value, 3);
    assert_eq!(h.index(&"fast".to_string(), 2).unwrap().value, 10);
    assert_eq!(h.index(&"fast".to_string(), 3), None);
    assert_eq!(h.history(&"slow".to_string()).unwrap().len(), 2);
    h.indicators_unsubscribe_subscription(&sub());
    assert_eq!(h.current(&"slow".to_string()), None);
    assert!(h.update_time_slice(7, &vec![bar(112, 108, 110, 4, true)]).is_none());
}

#[test]
fn handler_warms_up_an_indicator_by_name() {
    let mut h = IndicatorHandler::new("owner".to_string(), StrategyMode::Backtest);
    h.add_indicator(atr("a", 2));
    assert!(!h.warmup(&"b".to_string(), &vec![]));
    assert!(h.warmup(&"a".to_string(), &vec![bar(110, 100, 105, 1, true), bar(112, 108, 110, 2, true)]));
    assert_eq!(h.current(&"a".to_string()).unwrap().value, 8);
}
