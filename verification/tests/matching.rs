use fund_forge::base_data::{BaseDataEnum, Candle, OrderSide, Quote, QuoteBar, Tick};
use fund_forge::ledgers::AccountCurrency;
use fund_forge::market_handlers::{
    effective_side, get_market_price, HistoricalMarketHandler, MarketHandlerEnum, MarketPriceError,
};
use fund_forge::order_book::{LevelTwoSubscription, OrderBook, OrderBookUpdate};
use fund_forge::orders::{
    Order, OrderRequest, OrderState, OrderType, OrderUpdateEvent, OrderUpdateType,
    PositionUpdateEvent, RejectReason, TimeInForce,
};
use fund_forge::positions::{Brokerage, PositionSide};
use fund_forge::resolution::Resolution;
use fund_forge::strategy_events::{StrategyEvent, StrategyMode};
use fund_forge::subscriptions::{CandleType, DataVendor, MarketType, Symbol};
use std::collections::BTreeMap;

fn symbol() -> Symbol {
    Symbol::new("ES".to_string(), DataVendor::Test, MarketType::Futures)
}

fn tick(price: i64, time: i64) -> BaseDataEnum {
    BaseDataEnum::Tick(Tick::new(symbol(), price, time, 1, None))
}

fn order(id: &str, kind: OrderType, quantity: u64) -> Order {
    Order::new(
        id.to_string(),
        "ES".to_string(),
        "acct".to_string(),
        Brokerage::Test,
        OrderSide::Buy,
        kind,
        quantity,
        "tag".to_string(),
        0,
    )
}

fn engine() -> HistoricalMarketHandler {
    let mut h =
        HistoricalMarketHandler::new("owner".to_string(), 0, 100_000, AccountCurrency::USD).unwrap();
    h.set_warm_up_complete();
    h
}

fn acct() -> String {
    "acct".to_string()
}

fn es() -> String {
    "ES".to_string()
}

#[test]
fn enter_long_then_exit_long() {
    let mut h = engine();
    assert!(h.on_data_update(1, &vec![tick(5_000, 1)], &vec![]).is_empty());
    h.send_order(order("1", OrderType::EnterLong, 2));
    let events = h.backtest_matching_engine(&vec![300]);
    assert_eq!(events.len(), 2);
    match &events[0] {
        StrategyEvent::OrderEvents(OrderUpdateEvent::Filled(o)) => {
            assert_eq!(o.state, OrderState::Filled);
            assert_eq!(o.average_fill_price, Some(5_000));
            assert_eq!(o.quantity_filled, 2);
            assert_eq!(o.time_filled_utc, Some(1));
        }
        other => panic!("unexpected {:?}", other),
    }
    assert!(matches!(&events[1], StrategyEvent::PositionEvents(PositionUpdateEvent::Opened(p)) if p.average_price == 5_000 && p.quantity == 2));
    assert!(h.is_long(Brokerage::Test, &acct(), &es()));
    {
        let ledger = h.ledger(Brokerage::Test, &acct()).unwrap();
        assert_eq!(ledger.cash_used(), 300);
        assert_eq!(ledger.cash_available(), 99_700);
    }
    assert!(h.get_pending_orders().is_empty());
    h.send_order(order("2", OrderType::ExitLong, 2));
    let events = h.on_data_update(2, &vec![tick(5_200, 2)], &vec![0]);
    assert_eq!(events.len(), 2);
    assert!(matches!(&events[0], StrategyEvent::OrderEvents(OrderUpdateEvent::Filled(o)) if o.average_fill_price == Some(5_200)));
    match &events[1] {
        StrategyEvent::PositionEvents(PositionUpdateEvent::Closed(p)) => {
            assert_eq!(p.booked_pnl, 400);
            assert!(p.is_closed);
        }
        other => panic!("unexpected {:?}", other),
    }
    let ledger = h.ledger(Brokerage::Test, &acct()).unwrap();
    assert_eq!(ledger.cash_available(), 99_700 + 300 + 400);
    assert!(h.is_flat(Brokerage::Test, &acct(), &es()));
    assert_eq!(h.process_ledgers()[0].wins, 1);
}

#[test]
fn enter_short_closes_long_then_opens_the_residual() {
    let mut h = engine();
    h.update_time_slice(1, &vec![tick(5_000, 1)]);
    h.simulated_order_matching(
        OrderRequest::Create { brokerage: Brokerage::Test, order: order("1", OrderType::EnterLong, 1) },
        &vec![100],
    );
    h.update_time_slice(2, &vec![tick(4_800, 2)]);
    let events = h.simulated_order_matching(
        OrderRequest::Create { brokerage: Brokerage::Test, order: order("2", OrderType::EnterShort, 3) },
        &vec![300],
    );
    assert_eq!(events.len(), 3);
    assert!(matches!(&events[0], StrategyEvent::OrderEvents(OrderUpdateEvent::Filled(o)) if o.average_fill_price == Some(4_800) && o.quantity_filled == 3));
    assert!(matches!(&events[1], StrategyEvent::PositionEvents(PositionUpdateEvent::Closed(p)) if p.booked_pnl == -200 && p.side == PositionSide::Long && p.quantity == 0));
    assert!(matches!(&events[2], StrategyEvent::PositionEvents(PositionUpdateEvent::Opened(p)) if p.side == PositionSide::Short && p.quantity == 2 && p.average_price == 4_800));
    assert!(h.is_short(Brokerage::Test, &acct(), &es()));
    let ledger = h.ledger(Brokerage::Test, &acct()).unwrap();
    assert_eq!(ledger.position(&es()).unwrap().margin_used, 200);
}

#[test]
fn order_of_the_quantity_held_on_the_other_side_leaves_the_account_flat() {
    let mut h = engine();
    h.update_time_slice(1, &vec![tick(5_000, 1)]);
    h.send_order(order("1", OrderType::EnterShort, 4));
    h.backtest_matching_engine(&vec![100]);
    h.send_order(order("2", OrderType::EnterLong, 4));
    let events = h.backtest_matching_engine(&vec![100]);
    assert_eq!(events.len(), 2);
    assert!(matches!(&events[1], StrategyEvent::PositionEvents(PositionUpdateEvent::Closed(p)) if p.quantity == 0 && p.is_closed));
    assert!(h.is_flat(Brokerage::Test, &acct(), &es()));
    h.send_order(order("3", OrderType::EnterLong, 5));
    h.send_order(order("4", OrderType::EnterShort, 2));
    h.send_order(order("5", OrderType::EnterLong, 0));
    let events = h.backtest_matching_engine(&vec![100, 100, 100]);
    assert!(matches!(&events[2], StrategyEvent::OrderEvents(OrderUpdateEvent::Filled(_))));
    assert!(matches!(&events[3], StrategyEvent::PositionEvents(PositionUpdateEvent::Reduced(p)) if p.quantity == 3 && p.side == PositionSide::Long));
    assert!(matches!(&events[4], StrategyEvent::OrderEvents(OrderUpdateEvent::Rejected(o)) if o.state == OrderState::Rejected(RejectReason::InvalidOrder)));
}

#[test]
fn orders_without_market_price_or_support_are_rejected() {
    let mut h = engine();
    h.send_order(order("1", OrderType::EnterLong, 1));
    h.send_order(order("2", OrderType::Limit, 1));
    h.send_order(order("3", OrderType::ExitLong, 1));
    let events = h.backtest_matching_engine(&vec![1, 1]);
    assert_eq!(events.len(), 2);
    assert!(matches!(&events[0], StrategyEvent::OrderEvents(OrderUpdateEvent::Rejected(o)) if o.state == OrderState::Rejected(RejectReason::NoMarketPrice)));
    assert!(matches!(&events[1], StrategyEvent::OrderEvents(OrderUpdateEvent::Rejected(o)) if o.state == OrderState::Rejected(RejectReason::UnsupportedOrderType)));
    assert_eq!(h.get_pending_orders().len(), 1);
    h.update_time_slice(1, &vec![tick(10, 1)]);
    let events = h.backtest_matching_engine(&vec![1]);
    assert!(matches!(&events[0], StrategyEvent::OrderEvents(OrderUpdateEvent::Rejected(o)) if o.state == OrderState::Rejected(RejectReason::NoLongPositionToExit)));
    h.send_order(order("4", OrderType::ExitShort, 1));
    h.send_order(order("5", OrderType::EnterLong, 1));
    let events = h.backtest_matching_engine(&vec![1, 1_000_000]);
    assert!(matches!(&events[0], StrategyEvent::OrderEvents(OrderUpdateEvent::Rejected(o)) if o.state == OrderState::Rejected(RejectReason::NoShortPositionToExit)));
    assert!(matches!(&events[1], StrategyEvent::OrderEvents(OrderUpdateEvent::Rejected(o)) if o.state == OrderState::Rejected(RejectReason::InsufficientFunds)));
    assert_eq!(RejectReason::NoMarketPrice.message(), "no market price");
}

#[test]
fn cancel_and_update_requests() {
    let mut h = engine();
    let events = h.simulated_order_matching(
        OrderRequest::Cancel { brokerage: Brokerage::Test, order_id: "9".to_string() },
        &vec![],
    );
    match &events[0] {
        StrategyEvent::OrderEvents(OrderUpdateEvent::UpdateRejected { id, reason }) => {
            assert_eq!(id, "9");
            assert_eq!(reason.message(), "No pending order found");
        }
        other => panic!("unexpected {:?}", other),
    }
    h.send_order(order("1", OrderType::EnterLong, 1));
    h.send_order(order("2", OrderType::EnterLong, 1));
    let events = h.simulated_order_matching(
        OrderRequest::Cancel { brokerage: Brokerage::Test, order_id: "1".to_string() },
        &vec![],
    );
    assert!(matches!(&events[0], StrategyEvent::OrderEvents(OrderUpdateEvent::Cancelled(id)) if id == "1"));
    assert_eq!(h.get_pending_orders().len(), 1);
    assert_eq!(h.get_pending_orders()[0].id, "2");
    let events = h.simulated_order_matching(
        OrderRequest::Update {
            brokerage: Brokerage::Test,
            order_id: "2".to_string(),
            order: order("2", OrderType::EnterLong, 7),
        },
        &vec![],
    );
    assert_eq!(events.len(), 1);
    assert!(matches!(&events[0], StrategyEvent::OrderEvents(OrderUpdateEvent::Updated(id)) if id == "2"));
    assert_eq!(h.get_pending_orders()[0].quantity_ordered, 7);
    let events = h.simulated_order_matching(
        OrderRequest::Update {
            brokerage: Brokerage::Test,
            order_id: "3".to_string(),
            order: order("3", OrderType::EnterLong, 7),
        },
        &vec![],
    );
    assert!(matches!(&events[0], StrategyEvent::OrderEvents(OrderUpdateEvent::UpdateRejected { .. })));
}

#[test]
fn market_price_prefers_top_of_book() {
    let mut book = OrderBook::new(symbol(), 0);
    assert_eq!(get_market_price(OrderSide::Buy, Some(&book), None), Err(MarketPriceError::NoPriceFound));
    assert_eq!(get_market_price(OrderSide::Buy, Some(&book), Some(7)), Ok(7));
    assert_eq!(get_market_price(OrderSide::Sell, None, Some(7)), Ok(7));
    book.update(&OrderBookUpdate::single(symbol(), 0, 99, 101, 5));
    book.update(&OrderBookUpdate::single(symbol(), 1, 98, 102, 6));
    assert_eq!(get_market_price(OrderSide::Buy, Some(&book), Some(7)), Ok(101));
    assert_eq!(get_market_price(OrderSide::Sell, Some(&book), Some(7)), Ok(99));
    assert_eq!(book.ask_index(1), Some(102));
    assert_eq!(book.bid_index(2), None);
    assert_eq!(book.time_utc(), 6);
    let other = Symbol::new("NQ".to_string(), DataVendor::Test, MarketType::Futures);
    book.update(&OrderBookUpdate::single(other, 0, 1, 2, 9));
    assert_eq!(book.bid_index(0), Some(99));
    assert_eq!(book.time_utc(), 6);
    let mut bids = BTreeMap::new();
    bids.insert(0u8, 97i64);
    bids.insert(3u8, 90i64);
    let update = OrderBookUpdate::new(symbol(), bids, BTreeMap::new(), 10);
    assert_eq!(update.time_utc(), 10);
    book.update(&update);
    assert_eq!(book.get_bid_book().len(), 3);
    assert_eq!(book.bid_index(0), Some(97));
    assert_eq!(book.get_ask_book().len(), 2);
    assert_eq!(book.symbol().name, "ES");
    assert_eq!(LevelTwoSubscription::new(symbol(), 4).time, 4);
}

#[test]
fn caches_follow_the_slice() {
    let mut h = engine();
    assert_eq!(h.get_last_price(&es()), None);
    assert!(h.get_order_book(&es()).is_none());
    let quote = BaseDataEnum::Quote(Quote::new(symbol(), 103, 101, 1, 1, 0, 2));
    let candle = BaseDataEnum::Candle(Candle::new(symbol(), 120, 1, 3, Resolution::Minutes(1), CandleType::CandleStick));
    let bar = BaseDataEnum::QuoteBar(QuoteBar::new(symbol(), 104, 106, 0, 2, 4, Resolution::Minutes(1), CandleType::CandleStick));
    h.update_time_slice(7, &vec![tick(100, 1), quote]);
    assert_eq!(h.get_last_time(), 7);
    assert_eq!(h.get_last_price(&es()), Some(100));
    assert_eq!(h.get_order_book(&es()).unwrap().ask_index(0), Some(103));
    h.update_time_slice(8, &vec![candle, bar]);
    assert_eq!(h.get_last_price(&es()), Some(120));
    assert_eq!(h.get_order_book(&es()).unwrap().ask_index(0), Some(106));
    assert_eq!(h.get_order_book(&es()).unwrap().bid_index(0), Some(104));
    let mut sell = order("1", OrderType::Market, 1);
    sell.side = OrderSide::Sell;
    assert_eq!(h.market_price(&sell), Ok(104));
    assert_eq!(h.market_price(&order("2", OrderType::EnterLong, 1)), Ok(106));
    assert_eq!(effective_side(&order("3", OrderType::ExitLong, 1)), OrderSide::Sell);
}

#[test]
fn nothing_is_matched_during_warm_up() {
    let mut h =
        HistoricalMarketHandler::new("owner".to_string(), 0, 100_000, AccountCurrency::USD).unwrap();
    assert!(!h.is_warm_up_complete());
    h.send_order(order("1", OrderType::EnterLong, 1));
    assert!(h.on_data_update(1, &vec![tick(10, 1)], &vec![1]).is_empty());
    assert_eq!(h.get_pending_orders().len(), 1);
    h.update_time(5);
    assert_eq!(h.get_last_time(), 5);
}

#[test]
fn handler_enum_delegates() {
    let mut m = MarketHandlerEnum::new("o".to_string(), 3, StrategyMode::Backtest, 1_000, AccountCurrency::USD).unwrap();
    assert!(matches!(m, MarketHandlerEnum::BacktestDefault(_)));
    assert_eq!(m.last_time(), 3);
    m.update_time(4);
    m.set_warm_up_complete();
    m.send_order(order("1", OrderType::EnterLong, 1));
    assert!(m.base_data_upate(5, &vec![], &vec![]).is_none());
    let events = m.base_data_upate(6, &vec![tick(10, 6)], &vec![5]).unwrap();
    assert_eq!(events.len(), 2);
    assert_eq!(m.process_ledgers().len(), 1);
    let live = MarketHandlerEnum::new("o".to_string(), 3, StrategyMode::Live, 1_000, AccountCurrency::USD).unwrap();
    assert!(matches!(live, MarketHandlerEnum::LiveDefault(_)));
}

#[test]
fn order_lifecycle_only_moves_forward() {
    let mut o = order("1", OrderType::Limit, 5);
    assert!(o.advance(OrderState::Accepted));
    assert!(!o.advance(OrderState::Created));
    assert!(o.apply_update(OrderUpdateType::LimitPrice(10)));
    assert!(o.apply_update(OrderUpdateType::TriggerPrice(11)));
    assert!(o.apply_update(OrderUpdateType::Quantity(6)));
    assert!(o.apply_update(OrderUpdateType::TimeInForce(TimeInForce::Day)));
    assert!(o.apply_update(OrderUpdateType::Tag("t".to_string())));
    assert_eq!((o.limit_price, o.trigger_price, o.quantity_ordered), (Some(10), Some(11), 6));
    assert!(o.advance(OrderState::PartiallyFilled));
    assert!(o.advance(OrderState::PartiallyFilled));
    assert!(o.advance(OrderState::Cancelled));
    assert!(o.state.is_terminal());
    assert!(!o.advance(OrderState::Filled));
    assert!(!o.apply_update(OrderUpdateType::Quantity(1)));
    assert_eq!(o.quantity_ordered, 6);
    assert!(!OrderState::Rejected(RejectReason::InvalidOrder).can_become(&OrderState::Accepted));
}

#[test]
fn market_orders_fill_on_their_own_side() {
    let mut h = engine();
    let quote = BaseDataEnum::Quote(Quote::new(symbol(), 103, 101, 1, 1, 0, 2));
    h.update_time_slice(2, &vec![quote]);
    let mut sell = order("1", OrderType::Market, 2);
    sell.side = OrderSide::Sell;
    h.send_order(sell);
    let events = h.backtest_matching_engine(&vec![10]);
    assert!(matches!(&events[0], StrategyEvent::OrderEvents(OrderUpdateEvent::Filled(o)) if o.average_fill_price == Some(101)));
    assert!(h.is_short(Brokerage::Test, &acct(), &es()));
    h.send_order(order("2", OrderType::Market, 5));
    let events = h.backtest_matching_engine(&vec![10]);
    assert!(matches!(&events[0], StrategyEvent::OrderEvents(OrderUpdateEvent::Filled(o)) if o.average_fill_price == Some(103)));
    assert!(matches!(&events[2], StrategyEvent::PositionEvents(PositionUpdateEvent::Opened(p)) if p.side == PositionSide::Long && p.quantity == 3));
    h.send_order(order("3", OrderType::EnterLong, 2));
    let events = h.backtest_matching_engine(&vec![10]);
    assert!(matches!(&events[1], StrategyEvent::PositionEvents(PositionUpdateEvent::Increased(p)) if p.quantity == 5));
    h.send_order(order("4", OrderType::EnterLong, u64::MAX));
    let events = h.backtest_matching_engine(&vec![10]);
    assert!(matches!(&events[0], StrategyEvent::OrderEvents(OrderUpdateEvent::Rejected(o)) if o.state == OrderState::Rejected(RejectReason::LedgerOverflow)));
    assert_eq!(events.len(), 1);
    let mut other = order("5", OrderType::EnterLong, 1);
    other.account_id = "second".to_string();
    h.send_order(other);
    h.backtest_matching_engine(&vec![10]);
    assert!(h.is_long(Brokerage::Test, &"second".to_string(), &es()));
    assert!(h.is_flat(Brokerage::Rithmic, &"second".to_string(), &es()));
    assert_eq!(h.process_ledgers().len(), 2);
}
