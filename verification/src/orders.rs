//! Orders, their lifecycle, and the events that report on them.
//!
//! An order is created, may be accepted and partially filled, and ends
//! filled, cancelled or rejected. Once it has ended nothing changes it.

use crate::base_data::{OrderSide, Price};
use crate::positions::{Brokerage, Position};
use vstd::prelude::*;

verus! {

/// What kind of order it is.
#[derive(Clone, Copy, Debug, PartialEq, Eq, Structural, Hash)]
pub enum OrderType {
    Limit,
    Market,
    MarketIfTouched,
    StopMarket,
    StopLimit,
    TakeProfit,
    StopLoss,
    GuaranteedStopLoss,
    TrailingStopLoss,
    TrailingGuaranteedStopLoss,
    EnterLong,
    EnterShort,
    ExitLong,
    ExitShort,
}

/// Why an order, or a change to an order, was turned down.
#[derive(Clone, Copy, Debug, PartialEq, Eq, Structural, Hash)]
pub enum RejectReason {
    NoMarketPrice,
    InsufficientFunds,
    InvalidOrder,
    LedgerOverflow,
    NoLongPositionToExit,
    NoShortPositionToExit,
    UnsupportedOrderType,
    NoPendingOrderFound,
}

impl RejectReason {
    pub open spec fn spec_message(self) -> Seq<char> {
        match self {
            RejectReason::NoMarketPrice => "no market price"@,
            RejectReason::InsufficientFunds => "Insufficient funds"@,
            RejectReason::InvalidOrder => "Invalid order"@,
            RejectReason::LedgerOverflow => "Amount out of range"@,
            RejectReason::NoLongPositionToExit => "No long position to exit"@,
            RejectReason::NoShortPositionToExit => "No short position to exit"@,
            RejectReason::UnsupportedOrderType => "Order type not supported in backtest"@,
            RejectReason::NoPendingOrderFound => "No pending order found"@,
        }
    }

    /// The reason in words.
    pub fn message(&self) -> (text: &'static str)
        ensures
            text@ == self.spec_message(),
    {
        match self {
            RejectReason::NoMarketPrice => "no market price",
            RejectReason::InsufficientFunds => "Insufficient funds",
            RejectReason::InvalidOrder => "Invalid order",
            RejectReason::LedgerOverflow => "Amount out of range",
            RejectReason::NoLongPositionToExit => "No long position to exit",
            RejectReason::NoShortPositionToExit => "No short position to exit",
            RejectReason::UnsupportedOrderType => "Order type not supported in backtest",
            RejectReason::NoPendingOrderFound => "No pending order found",
        }
    }
}

/// Where an order stands in its life.
#[derive(Clone, Copy, Debug, PartialEq, Eq, Structural, Hash)]
pub enum OrderState {
    Created,
    Accepted,
    PartiallyFilled,
    Filled,
    Cancelled,
    Rejected(RejectReason),
}

impl OrderState {
    /// Whether the order has ended: filled, cancelled or rejected.
    pub open spec fn spec_is_terminal(self) -> bool {
        self is Filled || self is Cancelled || self is Rejected
    }

    pub fn is_terminal(&self) -> (terminal: bool)
        ensures
            terminal == self.spec_is_terminal(),
    {
        match self {
            OrderState::Filled => true,
            OrderState::Cancelled => true,
            OrderState::Rejected(_) => true,
            _ => false,
        }
    }

    /// How far the state is along the life of an order.
    pub open spec fn stage(self) -> int {
        match self {
            OrderState::Created => 0,
            OrderState::Accepted => 1,
            OrderState::PartiallyFilled => 2,
            _ => 3,
        }
    }

    /// Whether an order in this state may pass to `next`: only forward, a
    /// partial fill may follow a partial fill, and nothing follows the end.
    pub open spec fn spec_can_become(self, next: OrderState) -> bool {
        !self.spec_is_terminal() && (self.stage() < next.stage() || (self is PartiallyFilled
            && next is PartiallyFilled))
    }

    fn stage_number(&self) -> (stage: u8)
        ensures
            stage == self.stage(),
    {
        match self {
            OrderState::Created => 0,
            OrderState::Accepted => 1,
            OrderState::PartiallyFilled => 2,
            _ => 3,
        }
    }

    pub fn can_become(&self, next: &OrderState) -> (allowed: bool)
        ensures
            allowed == self.spec_can_become(*next),
    {
        let from = self.stage_number();
        let to = next.stage_number();
        from < 3 && (from < to || (from == 2 && to == 2))
    }
}

/// How long an order stays in force. The simulator treats every order as
/// good till cancelled.
#[derive(Clone, Copy, Debug, PartialEq, Eq, Structural, Hash)]
pub enum TimeInForce {
    GTC,
    IOC,
    FOK,
    Day,
    Time(i64),
}

/// A change to a pending order.
#[derive(Debug, PartialEq, Eq)]
pub enum OrderUpdateType {
    LimitPrice(Price),
    TriggerPrice(Price),
    TimeInForce(TimeInForce),
    Quantity(u64),
    Tag(String),
}

/// An order of a strategy.
#[derive(Debug, PartialEq, Eq)]
pub struct Order {
    pub id: String,
    pub symbol_name: String,
    pub account_id: String,
    pub brokerage: Brokerage,
    pub side: OrderSide,
    pub order_type: OrderType,
    pub quantity_ordered: u64,
    pub quantity_filled: u64,
    pub average_fill_price: Option<Price>,
    pub limit_price: Option<Price>,
    pub trigger_price: Option<Price>,
    pub time_in_force: TimeInForce,
    pub tag: String,
    pub state: OrderState,
    pub time_created_utc: i64,
    pub time_filled_utc: Option<i64>,
}

impl Clone for Order {
    fn clone(&self) -> (copy: Self)
        ensures
            copy == *self,
    {
        Order {
            id: self.id.clone(),
            symbol_name: self.symbol_name.clone(),
            account_id: self.account_id.clone(),
            brokerage: self.brokerage,
            side: self.side,
            order_type: self.order_type,
            quantity_ordered: self.quantity_ordered,
            quantity_filled: self.quantity_filled,
            average_fill_price: self.average_fill_price,
            limit_price: self.limit_price,
            trigger_price: self.trigger_price,
            time_in_force: self.time_in_force,
            tag: self.tag.clone(),
            state: self.state,
            time_created_utc: self.time_created_utc,
            time_filled_utc: self.time_filled_utc,
        }
    }
}

impl Order {
    /// A new order that nothing has happened to yet.
    pub fn new(
        id: String,
        symbol_name: String,
        account_id: String,
        brokerage: Brokerage,
        side: OrderSide,
        order_type: OrderType,
        quantity_ordered: u64,
        tag: String,
        time_created_utc: i64,
    ) -> (order: Self)
        ensures
            order == (Order {
                id,
                symbol_name,
                account_id,
                brokerage,
                side,
                order_type,
                quantity_ordered,
                quantity_filled: 0,
                average_fill_price: None,
                limit_price: None,
                trigger_price: None,
                time_in_force: TimeInForce::GTC,
                tag,
                state: OrderState::Created,
                time_created_utc,
                time_filled_utc: None,
            }),
    {
        Order {
            id,
            symbol_name,
            account_id,
            brokerage,
            side,
            order_type,
            quantity_ordered,
            quantity_filled: 0,
            average_fill_price: None,
            limit_price: None,
            trigger_price: None,
            time_in_force: TimeInForce::GTC,
            tag,
            state: OrderState::Created,
            time_created_utc,
            time_filled_utc: None,
        }
    }

    /// The order with one of its terms changed.
    pub open spec fn spec_changed(self, update: OrderUpdateType) -> Order {
        match update {
            OrderUpdateType::LimitPrice(price) => Order { limit_price: Some(price), ..self },
            OrderUpdateType::TriggerPrice(price) => Order { trigger_price: Some(price), ..self },
            OrderUpdateType::TimeInForce(tif) => Order { time_in_force: tif, ..self },
            OrderUpdateType::Quantity(quantity) => Order { quantity_ordered: quantity, ..self },
            OrderUpdateType::Tag(tag) => Order { tag, ..self },
        }
    }

    /// Changes a term of the order. An order that has ended is left as it
    /// is; the result says whether the change was made.
    pub fn apply_update(&mut self, update: OrderUpdateType) -> (changed: bool)
        ensures
            changed == !old(self).state.spec_is_terminal(),
            changed ==> *final(self) == old(self).spec_changed(update),
            !changed ==> *final(self) == *old(self),
    {
        if self.state.is_terminal() {
            return false;
        }
        match update {
            OrderUpdateType::LimitPrice(price) => {
                self.limit_price = Some(price);
            },
            OrderUpdateType::TriggerPrice(price) => {
                self.trigger_price = Some(price);
            },
            OrderUpdateType::TimeInForce(tif) => {
                self.time_in_force = tif;
            },
            OrderUpdateType::Quantity(quantity) => {
                self.quantity_ordered = quantity;
            },
            OrderUpdateType::Tag(tag) => {
                self.tag = tag;
            },
        }
        true
    }

    /// Moves the order to `next` where its lifecycle allows; otherwise the
    /// order is left as it is. The result says whether it moved.
    pub fn advance(&mut self, next: OrderState) -> (moved: bool)
        ensures
            moved == old(self).state.spec_can_become(next),
            moved ==> *final(self) == (Order { state: next, ..*old(self) }),
            !moved ==> *final(self) == *old(self),
    {
        if self.state.can_become(&next) {
            self.state = next;
            true
        } else {
            false
        }
    }

    /// The order as filled in full at `price` at `time`.
    pub open spec fn spec_filled(self, price: Price, time: i64) -> Order {
        Order {
            state: OrderState::Filled,
            quantity_filled: self.quantity_ordered,
            average_fill_price: Some(price),
            time_filled_utc: Some(time),
            ..self
        }
    }

    /// The order as rejected for `reason`.
    pub open spec fn spec_rejected(self, reason: RejectReason) -> Order {
        Order { state: OrderState::Rejected(reason), ..self }
    }
}

/// What happened to an order.
#[derive(Debug, PartialEq, Eq)]
pub enum OrderUpdateEvent {
    Accepted(Order),
    Filled(Order),
    PartiallyFilled(Order),
    Cancelled(String),
    Rejected(Order),
    Updated(String),
    UpdateRejected { id: String, reason: RejectReason },
}

/// What happened to a position.
#[derive(Debug, PartialEq, Eq)]
pub enum PositionUpdateEvent {
    Opened(Position),
    Increased(Position),
    Reduced(Position),
    Closed(Position),
}

/// What a strategy asks of the matching engine.
#[derive(Debug, PartialEq, Eq)]
pub enum OrderRequest {
    Create { brokerage: Brokerage, order: Order },
    Cancel { brokerage: Brokerage, order_id: String },
    Update { brokerage: Brokerage, order_id: String, order: Order },
}

/// No order ends twice: from a state that is an end, no state can follow.
pub proof fn lemma_terminal_states_are_final(from: OrderState, to: OrderState)
    ensures
        from.spec_is_terminal() ==> !from.spec_can_become(to),
        from.spec_can_become(to) ==> from.stage() <= to.stage(),
        OrderState::Created.spec_can_become(OrderState::Accepted),
        OrderState::Accepted.spec_can_become(OrderState::PartiallyFilled),
        OrderState::PartiallyFilled.spec_can_become(OrderState::PartiallyFilled),
        OrderState::PartiallyFilled.spec_can_become(OrderState::Filled),
        !to.spec_is_terminal() ==> !to.spec_can_become(OrderState::Created),
{
}

} // verus!
