//! The orders of a live strategy, kept in step with what the broker
//! reports.
//!
//! Open orders wait in one list; orders that have ended move to another.
//! A report about an order that is not open changes nothing, and no report
//! moves an order backwards in its life.

use crate::base_data::Price;
use crate::orders::{Order, OrderState, OrderUpdateType, RejectReason};
use vstd::prelude::*;

verus! {

/// What a broker reports about an order.
#[derive(Debug, PartialEq, Eq)]
pub enum LiveOrderEvent {
    OrderAccepted { order_id: String, time: i64 },
    OrderFilled { order_id: String, price: Price, quantity: u64, time: i64 },
    OrderPartiallyFilled { order_id: String, price: Price, quantity: u64, time: i64 },
    OrderCancelled { order_id: String, time: i64 },
    OrderRejected { order_id: String, reason: RejectReason, time: i64 },
    OrderUpdated { order_id: String, update_type: OrderUpdateType, time: i64 },
    OrderUpdateRejected { order_id: String, reason: RejectReason, time: i64 },
}

impl LiveOrderEvent {
    /// The id of the order the report is about.
    pub open spec fn spec_order_id(self) -> String {
        match self {
            LiveOrderEvent::OrderAccepted { order_id, .. } => order_id,
            LiveOrderEvent::OrderFilled { order_id, .. } => order_id,
            LiveOrderEvent::OrderPartiallyFilled { order_id, .. } => order_id,
            LiveOrderEvent::OrderCancelled { order_id, .. } => order_id,
            LiveOrderEvent::OrderRejected { order_id, .. } => order_id,
            LiveOrderEvent::OrderUpdated { order_id, .. } => order_id,
            LiveOrderEvent::OrderUpdateRejected { order_id, .. } => order_id,
        }
    }

    pub fn order_id(&self) -> (id: &String)
        ensures
            *id == self.spec_order_id(),
    {
        match self {
            LiveOrderEvent::OrderAccepted { order_id, .. } => order_id,
            LiveOrderEvent::OrderFilled { order_id, .. } => order_id,
            LiveOrderEvent::OrderPartiallyFilled { order_id, .. } => order_id,
            LiveOrderEvent::OrderCancelled { order_id, .. } => order_id,
            LiveOrderEvent::OrderRejected { order_id, .. } => order_id,
            LiveOrderEvent::OrderUpdated { order_id, .. } => order_id,
            LiveOrderEvent::OrderUpdateRejected { order_id, .. } => order_id,
        }
    }
}

/// Index of the first order with the id, from `from` on.
pub open spec fn find_by_id(orders: Seq<Order>, id: Seq<char>, from: int) -> Option<int>
    decreases orders.len() - from,
{
    if from < 0 || from >= orders.len() {
        None
    } else if orders[from].id@ == id {
        Some(from)
    } else {
        find_by_id(orders, id, from + 1)
    }
}

/// What a report does to an open order: the order as it is afterwards and
/// whether it stays open; `None` where the report does not apply to the
/// order as it stands.
///
/// An acceptance, a fill and a partial fill move the order forward in its
/// life and apply only where its life allows; fills add to the quantity
/// filled and apply only where that can be counted. A cancellation and a
/// rejection end the order. An update changes one of its terms. A rejected
/// update takes the order out of the open orders as it is.
pub open spec fn spec_reported(order: Order, event: LiveOrderEvent) -> Option<(Order, bool)> {
    match event {
        LiveOrderEvent::OrderAccepted { order_id, time } => if order.state.spec_can_become(
            OrderState::Accepted,
        ) {
            Some((Order { state: OrderState::Accepted, ..order }, true))
        } else {
            None
        },
        LiveOrderEvent::OrderFilled { order_id, price, quantity, time } =>
            if order.state.spec_can_become(OrderState::Filled) && order.quantity_filled + quantity
                <= u64::MAX {
                Some(
                    (
                        Order {
                            state: OrderState::Filled,
                            quantity_filled: (order.quantity_filled + quantity) as u64,
                            time_filled_utc: Some(time),
                            ..order
                        },
                        false,
                    ),
                )
            } else {
                None
            },
        LiveOrderEvent::OrderPartiallyFilled { order_id, price, quantity, time } =>
            if order.state.spec_can_become(OrderState::PartiallyFilled) && order.quantity_filled
                + quantity <= u64::MAX {
                Some(
                    (
                        Order {
                            state: OrderState::PartiallyFilled,
                            quantity_filled: (order.quantity_filled + quantity) as u64,
                            time_filled_utc: Some(time),
                            ..order
                        },
                        true,
                    ),
                )
            } else {
                None
            },
        LiveOrderEvent::OrderCancelled { order_id, time } => if order.state.spec_can_become(
            OrderState::Cancelled,
        ) {
            Some((Order { state: OrderState::Cancelled, ..order }, false))
        } else {
            None
        },
        LiveOrderEvent::OrderRejected { order_id, reason, time } =>
            if order.state.spec_can_become(OrderState::Rejected(reason)) {
                Some((Order { state: OrderState::Rejected(reason), ..order }, false))
            } else {
                None
            },
        LiveOrderEvent::OrderUpdated { order_id, update_type, time } =>
            if !order.state.spec_is_terminal() {
                Some((order.spec_changed(update_type), true))
            } else {
                None
            },
        LiveOrderEvent::OrderUpdateRejected { order_id, reason, time } => Some((order, false)),
    }
}

/// Open and closed orders after a report, and whether the report applied.
pub open spec fn spec_live_order_update(
    open: Seq<Order>,
    closed: Seq<Order>,
    event: LiveOrderEvent,
) -> (Seq<Order>, Seq<Order>, bool) {
    match find_by_id(open, event.spec_order_id()@, 0) {
        None => (open, closed, false),
        Some(at) => match spec_reported(open[at], event) {
            None => (open, closed, false),
            Some((order, stays)) => if stays {
                (open.update(at, order), closed, true)
            } else {
                (open.remove(at), closed.push(order), true)
            },
        },
    }
}

fn find_open(orders: &Vec<Order>, id: &String) -> (at: Option<usize>)
    ensures
        match at {
            Some(i) => find_by_id(orders@, id@, 0) == Some(i as int) && i < orders@.len(),
            None => find_by_id(orders@, id@, 0) is None,
        },
{
    let mut i: usize = 0;
    while i < orders.len()
        invariant
            i <= orders.len(),
            find_by_id(orders@, id@, 0) == find_by_id(orders@, id@, i as int),
        decreases orders.len() - i,
    {
        if orders[i].id == *id {
            return Some(i);
        }
        i = i + 1;
    }
    None
}

fn reported(order: &Order, event: LiveOrderEvent) -> (next: Option<(Order, bool)>)
    ensures
        next == spec_reported(*order, event),
{
    let mut after = order.clone();
    match event {
        LiveOrderEvent::OrderAccepted { order_id, time } => {
            if after.advance(OrderState::Accepted) {
                Some((after, true))
            } else {
                None
            }
        },
        LiveOrderEvent::OrderFilled { order_id, price, quantity, time } => {
            match order.quantity_filled.checked_add(quantity) {
                Some(filled) => {
                    if after.advance(OrderState::Filled) {
                        after.quantity_filled = filled;
                        after.time_filled_utc = Some(time);
                        Some((after, false))
                    } else {
                        None
                    }
                },
                None => None,
            }
        },
        LiveOrderEvent::OrderPartiallyFilled { order_id, price, quantity, time } => {
            match order.quantity_filled.checked_add(quantity) {
                Some(filled) => {
                    if after.advance(OrderState::PartiallyFilled) {
                        after.quantity_filled = filled;
                        after.time_filled_utc = Some(time);
                        Some((after, true))
                    } else {
                        None
                    }
                },
                None => None,
            }
        },
        LiveOrderEvent::OrderCancelled { order_id, time } => {
            if after.advance(OrderState::Cancelled) {
                Some((after, false))
            } else {
                None
            }
        },
        LiveOrderEvent::OrderRejected { order_id, reason, time } => {
            if after.advance(OrderState::Rejected(reason)) {
                Some((after, false))
            } else {
                None
            }
        },
        LiveOrderEvent::OrderUpdated { order_id, update_type, time } => {
            if after.apply_update(update_type) {
                Some((after, true))
            } else {
                None
            }
        },
        LiveOrderEvent::OrderUpdateRejected { order_id, reason, time } => Some((after, false)),
    }
}

/// Takes a report of the broker into the lists of open and closed orders.
/// The result says whether the report applied to an open order.
pub fn live_order_update(
    open_order_cache: &mut Vec<Order>,
    closed_order_cache: &mut Vec<Order>,
    event: LiveOrderEvent,
) -> (applied: bool)
    ensures
        (final(open_order_cache)@, final(closed_order_cache)@, applied) == spec_live_order_update(
            old(open_order_cache)@,
            old(closed_order_cache)@,
            event,
        ),
{
    let at = match find_open(open_order_cache, event.order_id()) {
        Some(at) => at,
        None => {
            return false;
        },
    };
    match reported(&open_order_cache[at], event) {
        None => false,
        Some((order, stays)) => {
            if stays {
                open_order_cache.set(at, order);
            } else {
                open_order_cache.remove(at);
                closed_order_cache.push(order);
            }
            true
        },
    }
}

/// A report never moves an order backwards: the order it leaves is at
/// least as far in its life as before, and an order that has ended is
/// changed by no report but the rejection of an update, which moves it as
/// it is.
pub proof fn lemma_reports_only_move_forward(order: Order, event: LiveOrderEvent)
    requires
        spec_reported(order, event) is Some,
    ensures
        spec_reported(order, event)->Some_0.0.state.stage() >= order.state.stage(),
        spec_reported(order, event)->Some_0.0.id == order.id,
        order.state.spec_is_terminal() ==> spec_reported(order, event)->Some_0.0 == order,
        spec_reported(order, event)->Some_0.0.quantity_filled >= order.quantity_filled,
{
}

} // verus!
