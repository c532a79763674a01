use fund_forge::base_data::OrderSide;
use fund_forge::live_order_matching::{live_order_update, LiveOrderEvent};
use fund_forge::messages::stream_ids::StreamIds;
use fund_forge::orders::{Order, OrderState, OrderType, OrderUpdateType, RejectReason};
use fund_forge::positions::Brokerage;

fn order(id: &str) -> Order {
    Order::new(id.to_string(), "ES".to_string(), "a".to_string(), Brokerage::Rithmic, OrderSide::Buy, OrderType::Limit, 10, "t".to_string(), 0)
}

fn id(s: &str) -> String {
    s.to_string()
}

#[test]
fn broker_reports_move_orders_through_their_life() {
    let mut open = vec![order("1"), order("2")];
    let mut closed = Vec::new();
    assert!(live_order_update(&mut open, &mut closed, LiveOrderEvent::OrderAccepted { order_id: id("1"), time: 1 }));
    assert_eq!(open[0].state, OrderState::Accepted);
    assert!(!live_order_update(&mut open, &mut closed, LiveOrderEvent::OrderAccepted { order_id: id("1"), time: 2 }));
    assert!(live_order_update(&mut open, &mut closed, LiveOrderEvent::OrderPartiallyFilled { order_id: id("1"), price: 5, quantity: 4, time: 3 }));
    assert_eq!((open[0].state, open[0].quantity_filled, open[0].time_filled_utc), (OrderState::PartiallyFilled, 4, Some(3)));
    assert!(live_order_update(&mut open, &mut closed, LiveOrderEvent::OrderUpdated { order_id: id("1"), update_type: OrderUpdateType::LimitPrice(7), time: 4 }));
    assert_eq!(open[0].limit_price, Some(7));
    assert!(live_order_update(&mut open, &mut closed, LiveOrderEvent::OrderFilled { order_id: id("1"), price: 5, quantity: 6, time: 5 }));
    assert_eq!(open.len(), 1);
    assert_eq!((closed[0].state, closed[0].quantity_filled, closed[0].id.as_str()), (OrderState::Filled, 10, "1"));
    assert!(!live_order_update(&mut open, &mut closed, LiveOrderEvent::OrderCancelled { order_id: id("1"), time: 6 }));
    assert!(live_order_update(&mut open, &mut closed, LiveOrderEvent::OrderRejected { order_id: id("2"), reason: RejectReason::InsufficientFunds, time: 7 }));
    assert!(open.is_empty());
    assert_eq!(closed[1].state, OrderState::Rejected(RejectReason::InsufficientFunds));
    assert!(!live_order_update(&mut open, &mut closed, LiveOrderEvent::OrderAccepted { order_id: id("9"), time: 8 }));
}

#[test]
fn cancel_update_rejection_and_overflow() {
    let mut open = vec![order("1"), order("2"), order("3")];
    let mut closed = Vec::new();
    assert!(live_order_update(&mut open, &mut closed, LiveOrderEvent::OrderCancelled { order_id: id("2"), time: 1 }));
    assert_eq!(closed[0].state, OrderState::Cancelled);
    assert!(live_order_update(&mut open, &mut closed, LiveOrderEvent::OrderUpdateRejected { order_id: id("3"), reason: RejectReason::InvalidOrder, time: 2 }));
    assert_eq!(closed[1].state, OrderState::Created);
    assert_eq!(open.len(), 1);
    open[0].quantity_filled = u64::MAX;
    assert!(!live_order_update(&mut open, &mut closed, LiveOrderEvent::OrderFilled { order_id: id("1"), price: 1, quantity: 1, time: 3 }));
    assert_eq!(open[0].state, OrderState::Created);
    let event = LiveOrderEvent::OrderAccepted { order_id: id("1"), time: 1 };
    assert_eq!(event.order_id(), "1");
}

#[test]
fn stream_ids_are_unique_and_recycled() {
    let mut ids = StreamIds::new();
    assert_eq!(ids.assign(), Some(1));
    assert_eq!(ids.assign(), Some(2));
    assert_eq!(ids.assign(), Some(3));
    assert!(ids.is_active(2));
    ids.release(2);
    assert!(!ids.is_active(2));
    assert_eq!(ids.assign(), Some(4));
    ids.release(4);
    ids.release(1);
    let mut seen = std::collections::HashSet::new();
    let mut first_wrapped = None;
    loop {
        match ids.assign() {
            Some(given) => {
                assert!(seen.insert(given));
                assert_ne!(given, 3);
                if given < 4 && first_wrapped.is_none() {
                    first_wrapped = Some(given);
                }
            }
            None => break,
        }
    }
    assert_eq!(seen.len(), 65_535);
    assert_eq!(first_wrapped, Some(0));
    assert_eq!(ids.assign(), None);
    ids.release(77);
    assert_eq!(ids.assign(), Some(77));
}
