//! The simulated matching engine of a backtest.
//!
//! Orders fill in full at the market price: the best ask for a buy, the
//! best bid for a sell, and the last trade price where the book has no such
//! level. An order with no market price is rejected.

use crate::base_data::{BaseDataEnum, OrderSide, Price};
use crate::ledgers::{AccountCurrency, Ledger, LedgerError, LedgerState, LedgerStatistics};
use crate::market_cache::{
    cache_book, cache_price, cached_book, cached_price, last_prices, new_book_cache,
    new_price_cache, order_books, take_book, BookCache, PriceCache,
};
use crate::order_book::{OrderBook, OrderBookUpdate, OrderBookView};
use crate::positions::within_limit;
use crate::subscriptions::Symbol;
use crate::orders::{
    Order, OrderRequest, OrderState, OrderType, OrderUpdateEvent, PositionUpdateEvent,
    RejectReason,
};
use crate::positions::{Brokerage, PositionSide};
use crate::strategy_events::{StrategyEvent, StrategyMode};
use vstd::prelude::*;

verus! {

/// Why no market price could be resolved.
#[derive(Clone, Copy, Debug, PartialEq, Eq, Structural)]
pub enum MarketPriceError {
    /// The symbol has neither a top of book on the side asked for nor a
    /// last trade price.
    NoPriceFound,
}

/// The market price for an order on `side`: the top of the book on the
/// other side where the book has it, else the last trade price.
pub open spec fn spec_market_price(
    side: OrderSide,
    book: Option<OrderBookView>,
    last_price: Option<Price>,
) -> Option<Price> {
    let top = match book {
        Some(book) => match side {
            OrderSide::Buy => OrderBookView::level(book.ask, 0),
            OrderSide::Sell => OrderBookView::level(book.bid, 0),
        },
        None => None,
    };
    match top {
        Some(price) => Some(price),
        None => last_price,
    }
}

/// Resolves the market price for an order on `order_side`.
pub fn get_market_price(
    order_side: OrderSide,
    book: Option<&OrderBook>,
    last_price: Option<Price>,
) -> (price: Result<Price, MarketPriceError>)
    ensures
        price == (match spec_market_price(
            order_side,
            match book {
                Some(b) => Some(b@),
                None => None,
            },
            last_price,
        ) {
            Some(p) => Ok::<Price, MarketPriceError>(p),
            None => Err::<Price, MarketPriceError>(MarketPriceError::NoPriceFound),
        }),
{
    let top = match book {
        Some(book) => match order_side {
            OrderSide::Buy => book.ask_index(0),
            OrderSide::Sell => book.bid_index(0),
        },
        None => None,
    };
    match top {
        Some(price) => Ok(price),
        None => match last_price {
            Some(price) => Ok(price),
            None => Err(MarketPriceError::NoPriceFound),
        },
    }
}

/// The side an order trades on: entering long and exiting short buy,
/// entering short and exiting long sell, any other order trades on its own
/// side.
pub open spec fn spec_effective_side(order: Order) -> OrderSide {
    match order.order_type {
        OrderType::EnterLong => OrderSide::Buy,
        OrderType::ExitShort => OrderSide::Buy,
        OrderType::EnterShort => OrderSide::Sell,
        OrderType::ExitLong => OrderSide::Sell,
        _ => order.side,
    }
}

pub fn effective_side(order: &Order) -> (side: OrderSide)
    ensures
        side == spec_effective_side(*order),
{
    match order.order_type {
        OrderType::EnterLong => OrderSide::Buy,
        OrderType::ExitShort => OrderSide::Buy,
        OrderType::EnterShort => OrderSide::Sell,
        OrderType::ExitLong => OrderSide::Sell,
        _ => order.side,
    }
}

/// The kinds of order the simulator fills; every other kind is rejected.
pub open spec fn spec_is_supported(order_type: OrderType) -> bool {
    order_type == OrderType::EnterLong || order_type == OrderType::EnterShort || order_type
        == OrderType::ExitLong || order_type == OrderType::ExitShort || order_type
        == OrderType::Market
}

pub open spec fn reason_of(error: LedgerError) -> RejectReason {
    match error {
        LedgerError::InsufficientFunds => RejectReason::InsufficientFunds,
        LedgerError::InvalidOrder => RejectReason::InvalidOrder,
        LedgerError::Overflow => RejectReason::LedgerOverflow,
    }
}

fn reason(error: LedgerError) -> (reason: RejectReason)
    ensures
        reason == reason_of(error),
{
    match error {
        LedgerError::InsufficientFunds => RejectReason::InsufficientFunds,
        LedgerError::InvalidOrder => RejectReason::InvalidOrder,
        LedgerError::Overflow => RejectReason::LedgerOverflow,
    }
}

/// The ledger after an order has been settled at `price`, and the reason the
/// order is rejected if it is.
///
/// Entering long or short is a fill of the quantity ordered on the side
/// entered: it first reduces a position on the other side, closes it if the
/// quantity reaches it, and opens the rest on the side entered. A market
/// order is a fill on its own side. Exiting closes the whole position on the
/// side named and is rejected without one. Nothing changes where the order
/// is rejected.
pub open spec fn spec_settle(
    ledger: LedgerState,
    brokerage: Brokerage,
    order: Order,
    price: Price,
    margin: i128,
) -> (LedgerState, Option<RejectReason>) {
    let symbol = order.symbol_name@;
    let side = spec_effective_side(order);
    match order.order_type {
        OrderType::EnterLong | OrderType::EnterShort | OrderType::Market => match ledger.fill(
            order.symbol_name,
            brokerage,
            order.quantity_ordered,
            price,
            side,
            margin,
        ) {
            Ok(next) => (next, None),
            Err(e) => (ledger, Some(reason_of(e))),
        },
        OrderType::ExitLong | OrderType::ExitShort => {
            let held = if order.order_type == OrderType::ExitLong {
                PositionSide::Long
            } else {
                PositionSide::Short
            };
            if ledger.position_in(symbol) is Some && ledger.position_in(symbol)->Some_0.side
                == held {
                match ledger.exit(symbol, price) {
                    Ok(next) => (next, None),
                    Err(e) => (ledger, Some(reason_of(e))),
                }
            } else {
                (
                    ledger,
                    Some(
                        if held == PositionSide::Long {
                            RejectReason::NoLongPositionToExit
                        } else {
                            RejectReason::NoShortPositionToExit
                        },
                    ),
                )
            }
        },
        _ => (ledger, Some(RejectReason::UnsupportedOrderType)),
    }
}

/// The position events that lead from one state of a ledger to another in
/// one symbol: a position that was closed, then the position now held if it
/// was opened, increased or reduced.
pub open spec fn spec_position_events(
    before: LedgerState,
    after: LedgerState,
    symbol: Seq<char>,
) -> Seq<PositionUpdateEvent> {
    let has_closed = after.positions_closed.len() > before.positions_closed.len();
    let closed = if has_closed {
        seq![PositionUpdateEvent::Closed(after.positions_closed.last())]
    } else {
        Seq::empty()
    };
    let held = match after.position_in(symbol) {
        None => Seq::empty(),
        Some(now) => match before.position_in(symbol) {
            None => seq![PositionUpdateEvent::Opened(now)],
            Some(was) => if has_closed {
                seq![PositionUpdateEvent::Opened(now)]
            } else if now.quantity > was.quantity {
                seq![PositionUpdateEvent::Increased(now)]
            } else if now.quantity < was.quantity {
                seq![PositionUpdateEvent::Reduced(now)]
            } else {
                Seq::empty()
            },
        },
    };
    closed + held
}

/// What matching an order leads to.
pub struct MatchOutcome {
    pub ledger: LedgerState,
    /// The order, filled or rejected.
    pub order: Order,
    pub position_events: Seq<PositionUpdateEvent>,
}

/// Matches one order against the market. An order of a kind the simulator
/// does not fill is rejected, as is an order without a market price; any
/// other order is settled at the market price and is filled in full unless
/// the ledger refuses it.
pub open spec fn spec_match_order(
    ledger: LedgerState,
    brokerage: Brokerage,
    order: Order,
    market_price: Option<Price>,
    margin: i128,
    time: i64,
) -> MatchOutcome {
    if !spec_is_supported(order.order_type) {
        MatchOutcome {
            ledger,
            order: order.spec_rejected(RejectReason::UnsupportedOrderType),
            position_events: Seq::empty(),
        }
    } else {
        match market_price {
            None => MatchOutcome {
                ledger,
                order: order.spec_rejected(RejectReason::NoMarketPrice),
                position_events: Seq::empty(),
            },
            Some(price) => {
                let (next, refused) = spec_settle(ledger, brokerage, order, price, margin);
                MatchOutcome {
                    ledger: next,
                    order: match refused {
                        None => order.spec_filled(price, time),
                        Some(reason) => order.spec_rejected(reason),
                    },
                    position_events: spec_position_events(ledger, next, order.symbol_name@),
                }
            },
        }
    }
}

/// The events that report an outcome: the order event first, then the
/// position events.
pub open spec fn spec_match_events(outcome: MatchOutcome) -> Seq<StrategyEvent> {
    seq![
        StrategyEvent::OrderEvents(
            if outcome.order.state is Filled {
                OrderUpdateEvent::Filled(outcome.order)
            } else {
                OrderUpdateEvent::Rejected(outcome.order)
            },
        ),
    ] + outcome.position_events.map_values(|e: PositionUpdateEvent| StrategyEvent::PositionEvents(e))
}

fn settle(ledger: &mut Ledger, order: &Order, price: Price, margin: i128) -> (refused: Option<
    RejectReason,
>)
    requires
        old(ledger).wf(),
    ensures
        final(ledger).wf(),
        final(ledger).spec_account_id() == old(ledger).spec_account_id(),
        final(ledger).spec_brokerage() == old(ledger).spec_brokerage(),
        final(ledger).spec_currency() == old(ledger).spec_currency(),
        (final(ledger)@, refused) == spec_settle(
            old(ledger)@,
            old(ledger).spec_brokerage(),
            *order,
            price,
            margin,
        ),
        final(ledger)@.imbalance() == old(ledger)@.imbalance(),
{
    let side = effective_side(order);
    match order.order_type {
        OrderType::EnterLong | OrderType::EnterShort | OrderType::Market => {
            match ledger.update_or_create_paper_position(
                &order.symbol_name,
                order.quantity_ordered,
                price,
                side,
                margin,
            ) {
                Ok(()) => None,
                Err(e) => Some(reason(e)),
            }
        },
        OrderType::ExitLong => {
            if !ledger.is_long(&order.symbol_name) {
                return Some(RejectReason::NoLongPositionToExit);
            }
            match ledger.exit_position_paper(&order.symbol_name, price) {
                Ok(_) => None,
                Err(e) => Some(reason(e)),
            }
        },
        OrderType::ExitShort => {
            if !ledger.is_short(&order.symbol_name) {
                return Some(RejectReason::NoShortPositionToExit);
            }
            match ledger.exit_position_paper(&order.symbol_name, price) {
                Ok(_) => None,
                Err(e) => Some(reason(e)),
            }
        },
        _ => Some(RejectReason::UnsupportedOrderType),
    }
}

fn is_supported(order_type: OrderType) -> (supported: bool)
    ensures
        supported == spec_is_supported(order_type),
{
    match order_type {
        OrderType::EnterLong => true,
        OrderType::EnterShort => true,
        OrderType::ExitLong => true,
        OrderType::ExitShort => true,
        OrderType::Market => true,
        _ => false,
    }
}

/// Matches one order against the market and settles it on the ledger of its
/// account. Returns the order as it ends, filled or rejected, and the events
/// to report: the order event first, then the position events.
pub fn match_order(
    ledger: &mut Ledger,
    order: &Order,
    market_price: Option<Price>,
    margin_required: i128,
    time: i64,
) -> (matched: (Order, Vec<StrategyEvent>))
    requires
        old(ledger).wf(),
    ensures
        final(ledger).wf(),
        final(ledger).spec_account_id() == old(ledger).spec_account_id(),
        final(ledger).spec_brokerage() == old(ledger).spec_brokerage(),
        final(ledger).spec_currency() == old(ledger).spec_currency(),
        final(ledger)@ == spec_match_order(
            old(ledger)@,
            old(ledger).spec_brokerage(),
            *order,
            market_price,
            margin_required,
            time,
        ).ledger,
        matched.0 == spec_match_order(
            old(ledger)@,
            old(ledger).spec_brokerage(),
            *order,
            market_price,
            margin_required,
            time,
        ).order,
        matched.1@ == spec_match_events(
            spec_match_order(
                old(ledger)@,
                old(ledger).spec_brokerage(),
                *order,
                market_price,
                margin_required,
                time,
            ),
        ),
        final(ledger)@.imbalance() == old(ledger)@.imbalance(),
{
    let ghost outcome = spec_match_order(
        ledger@,
        ledger.spec_brokerage(),
        *order,
        market_price,
        margin_required,
        time,
    );
    let mut events: Vec<StrategyEvent> = Vec::new();
    let mut ended = order.clone();
    if !is_supported(order.order_type) {
        ended.state = OrderState::Rejected(RejectReason::UnsupportedOrderType);
        events.push(StrategyEvent::OrderEvents(OrderUpdateEvent::Rejected(ended.clone())));
        assert(events@ =~= spec_match_events(outcome));
        return (ended, events);
    }
    let price = match market_price {
        Some(price) => price,
        None => {
            ended.state = OrderState::Rejected(RejectReason::NoMarketPrice);
            events.push(StrategyEvent::OrderEvents(OrderUpdateEvent::Rejected(ended.clone())));
            assert(events@ =~= spec_match_events(outcome));
            return (ended, events);
        },
    };
    let was = match ledger.position(&order.symbol_name) {
        Some(position) => Some(position.clone()),
        None => None,
    };
    let closed_before = ledger.positions_closed().len();
    match settle(ledger, order, price, margin_required) {
        None => {
            ended.state = OrderState::Filled;
            ended.quantity_filled = order.quantity_ordered;
            ended.average_fill_price = Some(price);
            ended.time_filled_utc = Some(time);
            events.push(StrategyEvent::OrderEvents(OrderUpdateEvent::Filled(ended.clone())));
        },
        Some(refused) => {
            ended.state = OrderState::Rejected(refused);
            events.push(StrategyEvent::OrderEvents(OrderUpdateEvent::Rejected(ended.clone())));
        },
    }
    let ghost first = events@;
    let has_closed = ledger.positions_closed().len() > closed_before;
    if has_closed {
        let closed = ledger.positions_closed()[ledger.positions_closed().len() - 1].clone();
        events.push(StrategyEvent::PositionEvents(PositionUpdateEvent::Closed(closed)));
    }
    match ledger.position(&order.symbol_name) {
        None => {},
        Some(now) => {
            match was {
                None => {
                    events.push(
                        StrategyEvent::PositionEvents(PositionUpdateEvent::Opened(now.clone())),
                    );
                },
                Some(was) => {
                    if has_closed {
                        events.push(
                            StrategyEvent::PositionEvents(
                                PositionUpdateEvent::Opened(now.clone()),
                            ),
                        );
                    } else if now.quantity > was.quantity {
                        events.push(
                            StrategyEvent::PositionEvents(
                                PositionUpdateEvent::Increased(now.clone()),
                            ),
                        );
                    } else if now.quantity < was.quantity {
                        events.push(
                            StrategyEvent::PositionEvents(
                                PositionUpdateEvent::Reduced(now.clone()),
                            ),
                        );
                    }
                },
            }
        },
    }
    assert(events@ =~= spec_match_events(outcome));
    (ended, events)
}

/// An order to enter on one side for exactly the quantity held on the other
/// is never rejected for want of funds or of a position; where the ledger
/// can hold the result the order is filled, the position is closed with
/// nothing left over, and the account is flat in the symbol.
pub proof fn lemma_entering_against_equal_position_closes_it(
    ledger: LedgerState,
    brokerage: Brokerage,
    order: Order,
    price: Price,
    margin: i128,
    time: i64,
)
    requires
        ledger.wf(),
        order.order_type == OrderType::EnterLong || order.order_type == OrderType::EnterShort,
        ledger.position_in(order.symbol_name@) is Some,
        ledger.position_in(order.symbol_name@)->Some_0.side != crate::positions::opens_side(
            spec_effective_side(order),
        ),
        ledger.position_in(order.symbol_name@)->Some_0.quantity == order.quantity_ordered,
        crate::base_data::price_in_range(price as int),
        0 <= margin <= crate::positions::CASH_LIMIT,
    ensures
        ({
            let outcome = spec_match_order(ledger, brokerage, order, Some(price), margin, time);
            &&& outcome.order.state is Filled || outcome.order.state == OrderState::Rejected(
                RejectReason::LedgerOverflow,
            )
            &&& outcome.order.state is Filled ==> {
                &&& outcome.ledger.position_in(order.symbol_name@) is None
                &&& outcome.ledger.positions_closed.len() == ledger.positions_closed.len() + 1
                &&& outcome.ledger.positions_closed.last().quantity == 0
                &&& outcome.ledger.positions_closed.last().is_closed
                &&& outcome.position_events == seq![
                    PositionUpdateEvent::Closed(outcome.ledger.positions_closed.last()),
                ]
            }
        }),
{
    crate::ledgers::lemma_equal_opposite_fill_closes(
        ledger,
        order.symbol_name,
        brokerage,
        price,
        spec_effective_side(order),
        margin,
    );
    let outcome = spec_match_order(ledger, brokerage, order, Some(price), margin, time);
    if outcome.order.state is Filled {
        assert(outcome.position_events =~= seq![
            PositionUpdateEvent::Closed(outcome.ledger.positions_closed.last()),
        ]);
    }
}

/// An account of the simulator as the engine sees it.
pub struct AccountView {
    pub brokerage: Brokerage,
    pub account_id: Seq<char>,
    pub currency: AccountCurrency,
    pub state: LedgerState,
}

pub open spec fn account_view(ledger: Ledger) -> AccountView {
    AccountView {
        brokerage: ledger.spec_brokerage(),
        account_id: ledger.spec_account_id()@,
        currency: ledger.spec_currency(),
        state: ledger@,
    }
}

/// What the simulated market holds.
pub struct MarketState {
    /// The last trade price of each symbol.
    pub prices: Map<Seq<char>, Price>,
    /// The order book of each symbol.
    pub books: Map<Seq<char>, OrderBookView>,
    /// The accounts, in the order they were first used.
    pub accounts: Seq<AccountView>,
    /// The instant of the last slice.
    pub last_time: i64,
    /// The orders waiting to be matched.
    pub orders: Seq<Order>,
    pub warm_up_complete: bool,
    /// The cash and currency a new paper account starts with.
    pub starting_cash: i128,
    pub currency: AccountCurrency,
}

/// Index of the account of `brokerage` named `account_id`, looking from
/// `from` on.
pub open spec fn find_account(
    accounts: Seq<AccountView>,
    brokerage: Brokerage,
    account_id: Seq<char>,
    from: int,
) -> Option<int>
    decreases accounts.len() - from,
{
    if from < 0 || from >= accounts.len() {
        None
    } else if accounts[from].brokerage == brokerage && accounts[from].account_id == account_id {
        Some(from)
    } else {
        find_account(accounts, brokerage, account_id, from + 1)
    }
}

/// A paper account that holds its starting cash and nothing else.
pub open spec fn paper_account(
    brokerage: Brokerage,
    account_id: Seq<char>,
    cash: i128,
    currency: AccountCurrency,
) -> AccountView {
    AccountView {
        brokerage,
        account_id,
        currency,
        state: LedgerState {
            cash_value: cash as int,
            cash_available: cash as int,
            cash_used: 0,
            positions: Seq::empty(),
            positions_closed: Seq::empty(),
        },
    }
}

/// The book of a symbol after a quote for one level; a symbol without a
/// book gets one.
pub open spec fn spec_quoted(
    books: Map<Seq<char>, OrderBookView>,
    symbol: Symbol,
    level: u8,
    bid: Price,
    ask: Price,
    time: i64,
) -> Map<Seq<char>, OrderBookView> {
    let book = if books.contains_key(symbol.name@) {
        books[symbol.name@]
    } else {
        OrderBookView { symbol, bid: Map::empty(), ask: Map::empty(), time }
    };
    books.insert(
        symbol.name@,
        book.updated(
            symbol,
            Map::<u8, Price>::empty().insert(level, bid),
            Map::<u8, Price>::empty().insert(level, ask),
            time,
        ),
    )
}

impl MarketState {
    /// The caches after one datum: a trade or price observation sets the
    /// last price, a candle sets it to its close; a quote sets its level of
    /// the book, a quote bar sets the top of the book to its closing bid and
    /// ask.
    pub open spec fn observed(self, data: BaseDataEnum) -> MarketState {
        match data {
            BaseDataEnum::Tick(x) => MarketState {
                prices: self.prices.insert(x.symbol.name@, x.price),
                ..self
            },
            BaseDataEnum::Price(x) => MarketState {
                prices: self.prices.insert(x.symbol.name@, x.price),
                ..self
            },
            BaseDataEnum::Candle(x) => MarketState {
                prices: self.prices.insert(x.symbol.name@, x.close),
                ..self
            },
            BaseDataEnum::Quote(x) => MarketState {
                books: spec_quoted(self.books, x.symbol, x.book_level, x.bid, x.ask, x.time),
                ..self
            },
            BaseDataEnum::QuoteBar(x) => MarketState {
                books: spec_quoted(self.books, x.symbol, 0, x.bid_close, x.ask_close, x.time),
                ..self
            },
            BaseDataEnum::Fundamental(_) => self,
        }
    }

    /// The caches after the data of a slice, in order.
    pub open spec fn observed_all(self, slice: Seq<BaseDataEnum>) -> MarketState
        decreases slice.len(),
    {
        if slice.len() == 0 {
            self
        } else {
            self.observed_all(slice.drop_last()).observed(slice.last())
        }
    }

    /// The state after the slice of the instant `time`: the caches have
    /// observed its data, and every account has revalued its positions.
    pub open spec fn after_slice(self, time: i64, slice: Seq<BaseDataEnum>) -> MarketState {
        let seen = self.observed_all(slice);
        MarketState {
            last_time: time,
            accounts: Seq::new(
                self.accounts.len(),
                |i: int|
                    AccountView { state: self.accounts[i].state.marked(slice), ..self.accounts[i] },
            ),
            ..seen
        }
    }

    /// The market price for an order.
    pub open spec fn price_for(self, order: Order) -> Option<Price> {
        spec_market_price(
            spec_effective_side(order),
            if self.books.contains_key(order.symbol_name@) {
                Some(self.books[order.symbol_name@])
            } else {
                None
            },
            if self.prices.contains_key(order.symbol_name@) {
                Some(self.prices[order.symbol_name@])
            } else {
                None
            },
        )
    }

    /// The accounts with the account of the order among them: an order for
    /// an account not seen before opens a paper account for it.
    pub open spec fn with_account_of(self, order: Order) -> Seq<AccountView> {
        if find_account(self.accounts, order.brokerage, order.account_id@, 0) is Some {
            self.accounts
        } else {
            self.accounts.push(
                paper_account(
                    order.brokerage,
                    order.account_id@,
                    self.starting_cash,
                    self.currency,
                ),
            )
        }
    }

    /// State, order and events after one order has been matched against the
    /// market on the ledger of its account.
    pub open spec fn routed(self, order: Order, margin: i128) -> (
        MarketState,
        Order,
        Seq<StrategyEvent>,
    ) {
        let accounts = self.with_account_of(order);
        let at = find_account(accounts, order.brokerage, order.account_id@, 0)->Some_0;
        let outcome = spec_match_order(
            accounts[at].state,
            accounts[at].brokerage,
            order,
            self.price_for(order),
            margin,
            self.last_time,
        );
        (
            MarketState {
                accounts: accounts.update(
                    at,
                    AccountView { state: outcome.ledger, ..accounts[at] },
                ),
                ..self
            },
            outcome.order,
            spec_match_events(outcome),
        )
    }

    /// State and events after the first `count` pending orders have been
    /// matched in order, each with its margin. The state still lists every
    /// order.
    pub open spec fn matched(self, margins: Seq<i128>, count: int) -> (
        MarketState,
        Seq<StrategyEvent>,
    )
        decreases count,
    {
        if count <= 0 {
            (self, Seq::empty())
        } else {
            let (before, events) = self.matched(margins, count - 1);
            let (after, _, more) = before.routed(self.orders[count - 1], margins[count - 1]);
            (after, events + more)
        }
    }

    /// State and events after a run of the matching engine: every pending
    /// order that has a margin is matched and leaves the cache; the others
    /// stay.
    pub open spec fn after_matching(self, margins: Seq<i128>) -> (MarketState, Seq<StrategyEvent>) {
        let count = if margins.len() < self.orders.len() {
            margins.len() as int
        } else {
            self.orders.len() as int
        };
        let (state, events) = self.matched(margins, count);
        (MarketState { orders: self.orders.skip(count), ..state }, events)
    }

    /// Index of the first pending order with the id.
    pub open spec fn find_order(self, id: Seq<char>, from: int) -> Option<int>
        decreases self.orders.len() - from,
    {
        if from < 0 || from >= self.orders.len() {
            None
        } else if self.orders[from].id@ == id {
            Some(from)
        } else {
            self.find_order(id, from + 1)
        }
    }

    /// State and events after a request of the strategy. A new order joins
    /// the pending orders and the engine runs. A cancellation removes the
    /// pending orders with the id and reports it, or is rejected where
    /// there is none. A replacement puts the new order in place of the
    /// pending orders with the id, or is rejected where there is none; the
    /// engine runs in either case.
    pub open spec fn after_request(self, request: OrderRequest, margins: Seq<i128>) -> (
        MarketState,
        Seq<StrategyEvent>,
    ) {
        match request {
            OrderRequest::Create { brokerage, order } => MarketState {
                orders: self.orders.push(order),
                ..self
            }.after_matching(margins),
            OrderRequest::Cancel { brokerage, order_id } => match self.find_order(order_id@, 0) {
                Some(at) => (
                    MarketState { orders: without_id(self.orders, order_id@), ..self },
                    seq![
                        StrategyEvent::OrderEvents(OrderUpdateEvent::Cancelled(self.orders[at].id)),
                    ],
                ),
                None => (
                    self,
                    seq![
                        StrategyEvent::OrderEvents(
                            OrderUpdateEvent::UpdateRejected {
                                id: order_id,
                                reason: RejectReason::NoPendingOrderFound,
                            },
                        ),
                    ],
                ),
            },
            OrderRequest::Update { brokerage, order_id, order } => match self.find_order(
                order_id@,
                0,
            ) {
                Some(at) => {
                    let (state, events) = MarketState {
                        orders: without_id(self.orders, order_id@).push(order),
                        ..self
                    }.after_matching(margins);
                    (
                        state,
                        seq![StrategyEvent::OrderEvents(OrderUpdateEvent::Updated(order.id))]
                            + events,
                    )
                },
                None => {
                    let (state, events) = self.after_matching(margins);
                    (
                        state,
                        seq![
                            StrategyEvent::OrderEvents(
                                OrderUpdateEvent::UpdateRejected {
                                    id: order_id,
                                    reason: RejectReason::NoPendingOrderFound,
                                },
                            ),
                        ] + events,
                    )
                },
            },
        }
    }

    /// What every reachable state satisfies.
    pub open spec fn wf(self) -> bool {
        &&& within_limit(self.starting_cash as int)
        &&& forall|i: int| 0 <= i < self.accounts.len() ==> (#[trigger] self.accounts[i]).state.wf()
    }
}

/// The orders whose id is not `id`, in order.
pub open spec fn without_id(orders: Seq<Order>, id: Seq<char>) -> Seq<Order> {
    orders.filter(|o: Order| o.id@ != id)
}

/// The matching engine of a backtest: price caches, pending orders, and the
/// ledgers of the paper accounts.
pub struct HistoricalMarketHandler {
    owner_id: String,
    order_books: BookCache,
    last_price: PriceCache,
    ledgers: Vec<Ledger>,
    last_time: i64,
    order_cache: Vec<Order>,
    warm_up_complete: bool,
    starting_cash: i128,
    currency: AccountCurrency,
}

/// The views of the books a cache holds.
pub open spec fn book_views(cache: BookCache) -> Map<Seq<char>, OrderBookView> {
    Map::new(
        |name: Seq<char>| order_books(cache).contains_key(name),
        |name: Seq<char>| order_books(cache)[name]@,
    )
}

impl View for HistoricalMarketHandler {
    type V = MarketState;

    closed spec fn view(&self) -> MarketState {
        MarketState {
            prices: last_prices(self.last_price),
            books: book_views(self.order_books),
            accounts: self.ledgers@.map_values(|l: Ledger| account_view(l)),
            last_time: self.last_time,
            orders: self.order_cache@,
            warm_up_complete: self.warm_up_complete,
            starting_cash: self.starting_cash,
            currency: self.currency,
        }
    }
}

impl HistoricalMarketHandler {
    /// The invariant of the engine.
    pub closed spec fn wf(&self) -> bool {
        &&& self@.wf()
        &&& forall|i: int| 0 <= i < self.ledgers@.len() ==> (#[trigger] self.ledgers@[i]).wf()
    }

    pub closed spec fn spec_owner_id(&self) -> String {
        self.owner_id
    }

    /// An engine with empty caches and no accounts. `None` where the
    /// starting cash is beyond the cash limit.
    pub fn new(
        owner_id: String,
        start_time: i64,
        starting_cash: i128,
        currency: AccountCurrency,
    ) -> (made: Option<Self>)
        ensures
            made is Some <==> within_limit(starting_cash as int),
            made is Some ==> made->Some_0.wf() && made->Some_0.spec_owner_id() == owner_id
                && made->Some_0@ == (MarketState {
                prices: Map::empty(),
                books: Map::empty(),
                accounts: Seq::empty(),
                last_time: start_time,
                orders: Seq::empty(),
                warm_up_complete: false,
                starting_cash,
                currency,
            }),
    {
        if !crate::positions::check_limit(starting_cash) {
            return None;
        }
        let handler = HistoricalMarketHandler {
            owner_id,
            order_books: new_book_cache(),
            last_price: new_price_cache(),
            ledgers: Vec::new(),
            last_time: start_time,
            order_cache: Vec::new(),
            warm_up_complete: false,
            starting_cash,
            currency,
        };
        assert(handler@.books =~= Map::empty());
        assert(handler@.accounts =~= Seq::empty());
        Some(handler)
    }

    /// Puts an order among the pending orders.
    pub fn send_order(&mut self, order: Order)
        requires
            old(self).wf(),
        ensures
            final(self).wf(),
            final(self)@ == (MarketState { orders: old(self)@.orders.push(order), ..old(self)@ }),
            final(self).spec_owner_id() == old(self).spec_owner_id(),
    {
        self.order_cache.push(order);
    }

    pub fn update_time(&mut self, time: i64)
        requires
            old(self).wf(),
        ensures
            final(self).wf(),
            final(self)@ == (MarketState { last_time: time, ..old(self)@ }),
            final(self).spec_owner_id() == old(self).spec_owner_id(),
    {
        self.last_time = time;
    }

    pub fn set_warm_up_complete(&mut self)
        requires
            old(self).wf(),
        ensures
            final(self).wf(),
            final(self)@ == (MarketState { warm_up_complete: true, ..old(self)@ }),
            final(self).spec_owner_id() == old(self).spec_owner_id(),
    {
        self.warm_up_complete = true;
    }

    pub fn get_last_time(&self) -> (time: i64)
        ensures
            time == self@.last_time,
    {
        self.last_time
    }

    pub fn is_warm_up_complete(&self) -> (complete: bool)
        ensures
            complete == self@.warm_up_complete,
    {
        self.warm_up_complete
    }

    /// The orders waiting to be matched.
    pub fn get_pending_orders(&self) -> (orders: &Vec<Order>)
        ensures
            orders@ == self@.orders,
    {
        &self.order_cache
    }

    /// The last trade price of a symbol, if one was seen.
    pub fn get_last_price(&self, symbol_name: &String) -> (price: Option<Price>)
        ensures
            price == (if self@.prices.contains_key(symbol_name@) {
                Some(self@.prices[symbol_name@])
            } else {
                None
            }),
    {
        cached_price(&self.last_price, symbol_name)
    }

    /// The order book of a symbol, if quotes were seen.
    pub fn get_order_book(&self, symbol_name: &String) -> (book: Option<&OrderBook>)
        ensures
            match book {
                Some(b) => self@.books.contains_key(symbol_name@) && b@
                    == self@.books[symbol_name@],
                None => !self@.books.contains_key(symbol_name@),
            },
    {
        cached_book(&self.order_books, symbol_name)
    }

    /// The market price for an order, resolved from the caches.
    pub fn market_price(&self, order: &Order) -> (price: Result<Price, MarketPriceError>)
        ensures
            price == (match self@.price_for(*order) {
                Some(p) => Ok::<Price, MarketPriceError>(p),
                None => Err::<Price, MarketPriceError>(MarketPriceError::NoPriceFound),
            }),
    {
        get_market_price(
            effective_side(order),
            cached_book(&self.order_books, &order.symbol_name),
            cached_price(&self.last_price, &order.symbol_name),
        )
    }

    fn quote(&mut self, symbol: &Symbol, level: u8, bid: Price, ask: Price, time: i64)
        ensures
            final(self).ledgers == old(self).ledgers,
            final(self).order_cache == old(self).order_cache,
            final(self).last_price == old(self).last_price,
            final(self).last_time == old(self).last_time,
            final(self).warm_up_complete == old(self).warm_up_complete,
            final(self).starting_cash == old(self).starting_cash,
            final(self).currency == old(self).currency,
            final(self).owner_id == old(self).owner_id,
            book_views(final(self).order_books) == spec_quoted(
                book_views(old(self).order_books),
                *symbol,
                level,
                bid,
                ask,
                time,
            ),
    {
        let mut book = match take_book(&mut self.order_books, &symbol.name) {
            Some(book) => book,
            None => OrderBook::new(symbol.clone(), time),
        };
        book.update(&OrderBookUpdate::single(symbol.clone(), level, bid, ask, time));
        cache_book(&mut self.order_books, symbol.name.clone(), book);
        assert(book_views(self.order_books) =~= spec_quoted(
            book_views(old(self).order_books),
            *symbol,
            level,
            bid,
            ask,
            time,
        ));
    }

    fn observe(&mut self, data: &BaseDataEnum)
        ensures
            final(self).ledgers == old(self).ledgers,
            final(self).order_cache == old(self).order_cache,
            final(self).last_time == old(self).last_time,
            final(self).warm_up_complete == old(self).warm_up_complete,
            final(self).starting_cash == old(self).starting_cash,
            final(self).currency == old(self).currency,
            final(self).owner_id == old(self).owner_id,
            final(self)@ == old(self)@.observed(*data),
    {
        match data {
            BaseDataEnum::Tick(x) => {
                cache_price(&mut self.last_price, x.symbol.name.clone(), x.price);
            },
            BaseDataEnum::Price(x) => {
                cache_price(&mut self.last_price, x.symbol.name.clone(), x.price);
            },
            BaseDataEnum::Candle(x) => {
                cache_price(&mut self.last_price, x.symbol.name.clone(), x.close);
            },
            BaseDataEnum::Quote(x) => {
                self.quote(&x.symbol, x.book_level, x.bid, x.ask, x.time);
            },
            BaseDataEnum::QuoteBar(x) => {
                self.quote(&x.symbol, 0, x.bid_close, x.ask_close, x.time);
            },
            BaseDataEnum::Fundamental(_) => {},
        }
    }

    /// Takes in the slice of the instant `time`: the caches observe its
    /// data, and every ledger revalues its positions.
    pub fn update_time_slice(&mut self, time: i64, time_slice: &Vec<BaseDataEnum>)
        requires
            old(self).wf(),
        ensures
            final(self).wf(),
            final(self)@ == old(self)@.after_slice(time, time_slice@),
            final(self).spec_owner_id() == old(self).spec_owner_id(),
    {
        let mut i: usize = 0;
        assert(time_slice@.take(0) =~= Seq::<BaseDataEnum>::empty());
        while i < time_slice.len()
            invariant
                i <= time_slice.len(),
                self.ledgers == old(self).ledgers,
                self.owner_id == old(self).owner_id,
                self@ == old(self)@.observed_all(time_slice@.take(i as int)),
            decreases time_slice.len() - i,
        {
            proof {
                assert(time_slice@.take(i + 1).drop_last() =~= time_slice@.take(i as int));
            }
            self.observe(&time_slice[i]);
            i = i + 1;
        }
        assert(time_slice@.take(time_slice.len() as int) =~= time_slice@);
        let ghost seen = self@;
        proof {
            lemma_observed_keeps_rest(old(self)@, time_slice@);
        }
        self.last_time = time;
        let mut j: usize = 0;
        while j < self.ledgers.len()
            invariant
                j <= self.ledgers.len(),
                self.ledgers.len() == old(self).ledgers.len(),
                self.owner_id == old(self).owner_id,
                last_prices(self.last_price) == seen.prices,
                book_views(self.order_books) == seen.books,
                self.order_cache@ == seen.orders,
                self.warm_up_complete == seen.warm_up_complete,
                self.starting_cash == seen.starting_cash,
                self.currency == seen.currency,
                self.last_time == time,
                old(self).wf(),
                forall|k: int|
                    0 <= k < j ==> (#[trigger] self.ledgers@[k]).wf() && account_view(
                        self.ledgers@[k],
                    ) == (AccountView {
                        state: old(self).ledgers@[k]@.marked(time_slice@),
                        ..account_view(old(self).ledgers@[k])
                    }),
                forall|k: int|
                    j <= k < self.ledgers.len() ==> (#[trigger] self.ledgers@[k]) == old(
                        self,
                    ).ledgers@[k],
            decreases self.ledgers.len() - j,
        {
            let mut ledger = self.ledgers.remove(j);
            assert(ledger == old(self).ledgers@[j as int]);
            assert(old(self).ledgers@[j as int].wf());
            ledger.on_data_update(time_slice);
            self.ledgers.insert(j, ledger);
            j = j + 1;
        }
        assert(self@.accounts =~= old(self)@.after_slice(time, time_slice@).accounts);
        proof {
            assert forall|k: int| 0 <= k < self@.accounts.len() implies (
            #[trigger] self@.accounts[k]).state.wf() by {
                self.ledgers@[k].lemma_wf_view();
            }
        }
    }

    fn find_ledger(&self, brokerage: Brokerage, account_id: &String) -> (at: Option<usize>)
        ensures
            match at {
                Some(i) => find_account(self@.accounts, brokerage, account_id@, 0) == Some(
                    i as int,
                ) && i < self.ledgers@.len(),
                None => find_account(self@.accounts, brokerage, account_id@, 0) is None,
            },
    {
        let mut i: usize = 0;
        while i < self.ledgers.len()
            invariant
                i <= self.ledgers.len(),
                find_account(self@.accounts, brokerage, account_id@, 0) == find_account(
                    self@.accounts,
                    brokerage,
                    account_id@,
                    i as int,
                ),
            decreases self.ledgers.len() - i,
        {
            if self.ledgers[i].brokerage() == brokerage && *self.ledgers[i].account_id()
                == *account_id {
                return Some(i);
            }
            i = i + 1;
        }
        None
    }

    /// Matches one order against the market on the ledger of its account.
    pub fn route(&mut self, order: &Order, margin_required: i128) -> (matched: (
        Order,
        Vec<StrategyEvent>,
    ))
        requires
            old(self).wf(),
        ensures
            final(self).wf(),
            final(self).spec_owner_id() == old(self).spec_owner_id(),
            final(self)@ == old(self)@.routed(*order, margin_required).0,
            matched.0 == old(self)@.routed(*order, margin_required).1,
            matched.1@ == old(self)@.routed(*order, margin_required).2,
    {
        let price = match self.market_price(order) {
            Ok(price) => Some(price),
            Err(_) => None,
        };
        let at = match self.find_ledger(order.brokerage, &order.account_id) {
            Some(at) => at,
            None => {
                let ledger = match Ledger::paper_account_init(
                    order.account_id.clone(),
                    order.brokerage,
                    self.starting_cash,
                    self.currency,
                ) {
                    Some(ledger) => ledger,
                    None => vstd::pervasive::unreached(),
                };
                self.ledgers.push(ledger);
                proof {
                    assert(self@.accounts =~= old(self)@.with_account_of(*order));
                    lemma_pushed_account_is_found(
                        old(self)@.accounts,
                        self@.accounts.last(),
                        order.brokerage,
                        order.account_id@,
                    );
                }
                self.ledgers.len() - 1
            },
        };
        assert(self@.accounts =~= old(self)@.with_account_of(*order));
        let ghost before = self.ledgers@;
        assert(forall|k: int| 0 <= k < before.len() ==> (#[trigger] before[k]).wf());
        let mut ledger = self.ledgers.remove(at);
        let matched = match_order(&mut ledger, order, price, margin_required, self.last_time);
        self.ledgers.insert(at, ledger);
        proof {
            assert(self@.accounts =~= old(self)@.routed(*order, margin_required).0.accounts);
            assert forall|k: int| 0 <= k < self.ledgers@.len() implies (
            #[trigger] self.ledgers@[k]).wf() by {
                if k != at {
                    assert(self.ledgers@[k] == before[k]);
                }
            }
            assert forall|k: int| 0 <= k < self@.accounts.len() implies (
            #[trigger] self@.accounts[k]).state.wf() by {
                self.ledgers@[k].lemma_wf_view();
            }
        }
        matched
    }

    /// Runs the matching engine over the pending orders, in order.
    /// `margins[i]` is the margin the broker asks for the `i`-th pending
    /// order. Orders without a margin stay pending.
    pub fn backtest_matching_engine(&mut self, margins: &Vec<i128>) -> (events: Vec<StrategyEvent>)
        requires
            old(self).wf(),
        ensures
            final(self).wf(),
            final(self).spec_owner_id() == old(self).spec_owner_id(),
            final(self)@ == old(self)@.after_matching(margins@).0,
            events@ == old(self)@.after_matching(margins@).1,
    {
        let count = if margins.len() < self.order_cache.len() {
            margins.len()
        } else {
            self.order_cache.len()
        };
        let mut events: Vec<StrategyEvent> = Vec::new();
        let mut i: usize = 0;
        while i < count
            invariant
                i <= count,
                count <= margins.len(),
                count <= self.order_cache.len(),
                self.wf(),
                self.owner_id == old(self).owner_id,
                self.order_cache@ == old(self).order_cache@,
                self@ == old(self)@.matched(margins@, i as int).0,
                events@ == old(self)@.matched(margins@, i as int).1,
            decreases count - i,
        {
            let order = self.order_cache[i].clone();
            let (_, mut more) = self.route(&order, margins[i]);
            events.append(&mut more);
            i = i + 1;
        }
        let mut rest = self.order_cache.split_off(count);
        self.order_cache = rest;
        assert(self@.orders =~= old(self)@.orders.skip(count as int));
        events
    }

    /// Takes in a slice of primary data and, once warm-up is complete, runs
    /// the matching engine.
    pub fn on_data_update(
        &mut self,
        time: i64,
        time_slice: &Vec<BaseDataEnum>,
        margins: &Vec<i128>,
    ) -> (events: Vec<StrategyEvent>)
        requires
            old(self).wf(),
        ensures
            final(self).wf(),
            final(self).spec_owner_id() == old(self).spec_owner_id(),
            old(self)@.warm_up_complete ==> final(self)@ == old(self)@.after_slice(
                time,
                time_slice@,
            ).after_matching(margins@).0 && events@ == old(self)@.after_slice(
                time,
                time_slice@,
            ).after_matching(margins@).1,
            !old(self)@.warm_up_complete ==> final(self)@ == old(self)@.after_slice(
                time,
                time_slice@,
            ) && events@ == Seq::<StrategyEvent>::empty(),
    {
        proof {
            lemma_observed_keeps_rest(self@, time_slice@);
        }
        self.update_time_slice(time, time_slice);
        if self.warm_up_complete {
            self.backtest_matching_engine(margins)
        } else {
            Vec::new()
        }
    }

    fn find_pending(&self, order_id: &String) -> (at: Option<usize>)
        ensures
            match at {
                Some(i) => self@.find_order(order_id@, 0) == Some(i as int) && i
                    < self@.orders.len(),
                None => self@.find_order(order_id@, 0) is None,
            },
    {
        let mut i: usize = 0;
        while i < self.order_cache.len()
            invariant
                i <= self.order_cache.len(),
                self@.find_order(order_id@, 0) == self@.find_order(order_id@, i as int),
            decreases self.order_cache.len() - i,
        {
            if self.order_cache[i].id == *order_id {
                return Some(i);
            }
            i = i + 1;
        }
        None
    }

    fn drop_pending(&mut self, order_id: &String)
        requires
            old(self).wf(),
        ensures
            final(self).wf(),
            final(self).owner_id == old(self).owner_id,
            final(self)@ == (MarketState {
                orders: without_id(old(self)@.orders, order_id@),
                ..old(self)@
            }),
    {
        let mut kept: Vec<Order> = Vec::new();
        let ghost keep = |o: Order| o.id@ != order_id@;
        let mut i: usize = 0;
        assert(self.order_cache@.take(0) =~= Seq::<Order>::empty());
        while i < self.order_cache.len()
            invariant
                i <= self.order_cache.len(),
                keep == |o: Order| o.id@ != order_id@,
                kept@ == self.order_cache@.take(i as int).filter(keep),
            decreases self.order_cache.len() - i,
        {
            proof {
                assert(self.order_cache@.take(i + 1) =~= self.order_cache@.take(i as int).push(
                    self.order_cache@[i as int],
                ));
                self.order_cache@.take(i as int).lemma_filter_push(
                    self.order_cache@[i as int],
                    keep,
                );
            }
            if !(self.order_cache[i].id == *order_id) {
                kept.push(self.order_cache[i].clone());
            }
            i = i + 1;
        }
        assert(self.order_cache@.take(self.order_cache.len() as int) =~= self.order_cache@);
        self.order_cache = kept;
    }

    /// Serves one request of the strategy and returns the events to report.
    pub fn simulated_order_matching(&mut self, request: OrderRequest, margins: &Vec<i128>) -> (events:
        Vec<StrategyEvent>)
        requires
            old(self).wf(),
        ensures
            final(self).wf(),
            final(self).spec_owner_id() == old(self).spec_owner_id(),
            final(self)@ == old(self)@.after_request(request, margins@).0,
            events@ == old(self)@.after_request(request, margins@).1,
    {
        match request {
            OrderRequest::Create { brokerage, order } => {
                self.send_order(order);
                self.backtest_matching_engine(margins)
            },
            OrderRequest::Cancel { brokerage, order_id } => {
                let mut events: Vec<StrategyEvent> = Vec::new();
                match self.find_pending(&order_id) {
                    Some(at) => {
                        let id = self.order_cache[at].id.clone();
                        self.drop_pending(&order_id);
                        events.push(StrategyEvent::OrderEvents(OrderUpdateEvent::Cancelled(id)));
                    },
                    None => {
                        events.push(
                            StrategyEvent::OrderEvents(
                                OrderUpdateEvent::UpdateRejected {
                                    id: order_id,
                                    reason: RejectReason::NoPendingOrderFound,
                                },
                            ),
                        );
                    },
                }
                assert(events@ =~= old(self)@.after_request(request, margins@).1);
                events
            },
            OrderRequest::Update { brokerage, order_id, order } => {
                let mut events: Vec<StrategyEvent> = Vec::new();
                match self.find_pending(&order_id) {
                    Some(_) => {
                        self.drop_pending(&order_id);
                        events.push(
                            StrategyEvent::OrderEvents(OrderUpdateEvent::Updated(order.id.clone())),
                        );
                        self.send_order(order);
                    },
                    None => {
                        events.push(
                            StrategyEvent::OrderEvents(
                                OrderUpdateEvent::UpdateRejected {
                                    id: order_id,
                                    reason: RejectReason::NoPendingOrderFound,
                                },
                            ),
                        );
                    },
                }
                let mut more = self.backtest_matching_engine(margins);
                events.append(&mut more);
                assert(events@ =~= old(self)@.after_request(request, margins@).1);
                events
            },
        }
    }

    /// The results of every account, in the order the accounts were first
    /// used.
    pub fn process_ledgers(&self) -> (results: Vec<LedgerStatistics>)
        requires
            self.wf(),
        ensures
            results@.len() == self@.accounts.len(),
            forall|i: int|
                0 <= i < results@.len() ==> (#[trigger] results@[i]) == crate::ledgers::spec_statistics(
                    self@.accounts[i].state.positions_closed,
                ),
    {
        let mut results: Vec<LedgerStatistics> = Vec::new();
        let mut i: usize = 0;
        while i < self.ledgers.len()
            invariant
                i <= self.ledgers.len(),
                self.wf(),
                results@.len() == i,
                forall|k: int|
                    0 <= k < i ==> (#[trigger] results@[k]) == crate::ledgers::spec_statistics(
                        self@.accounts[k].state.positions_closed,
                    ),
            decreases self.ledgers.len() - i,
        {
            assert(self.ledgers@[i as int].wf());
            results.push(self.ledgers[i].print());
            i = i + 1;
        }
        results
    }

    /// The ledger of an account, if the account has been used.
    pub fn ledger(&self, brokerage: Brokerage, account_id: &String) -> (ledger: Option<&Ledger>)
        ensures
            match ledger {
                Some(l) => find_account(self@.accounts, brokerage, account_id@, 0) is Some
                    && account_view(*l) == self@.accounts[find_account(
                    self@.accounts,
                    brokerage,
                    account_id@,
                    0,
                )->Some_0],
                None => find_account(self@.accounts, brokerage, account_id@, 0) is None,
            },
    {
        match self.find_ledger(brokerage, account_id) {
            Some(at) => Some(&self.ledgers[at]),
            None => None,
        }
    }

    pub open spec fn spec_held_side(
        self,
        brokerage: Brokerage,
        account_id: Seq<char>,
        symbol: Seq<char>,
    ) -> Option<PositionSide> {
        match find_account(self@.accounts, brokerage, account_id, 0) {
            Some(at) => match self@.accounts[at].state.position_in(symbol) {
                Some(position) => Some(position.side),
                None => None,
            },
            None => None,
        }
    }

    pub fn is_long(&self, brokerage: Brokerage, account_id: &String, symbol_name: &String) -> (long:
        bool)
        ensures
            long == (self.spec_held_side(brokerage, account_id@, symbol_name@) == Some(
                PositionSide::Long,
            )),
    {
        match self.ledger(brokerage, account_id) {
            Some(ledger) => ledger.is_long(symbol_name),
            None => false,
        }
    }

    pub fn is_short(&self, brokerage: Brokerage, account_id: &String, symbol_name: &String) -> (short:
        bool)
        ensures
            short == (self.spec_held_side(brokerage, account_id@, symbol_name@) == Some(
                PositionSide::Short,
            )),
    {
        match self.ledger(brokerage, account_id) {
            Some(ledger) => ledger.is_short(symbol_name),
            None => false,
        }
    }

    pub fn is_flat(&self, brokerage: Brokerage, account_id: &String, symbol_name: &String) -> (flat:
        bool)
        ensures
            flat == (self.spec_held_side(brokerage, account_id@, symbol_name@) is None),
    {
        match self.ledger(brokerage, account_id) {
            Some(ledger) => ledger.is_flat(symbol_name),
            None => true,
        }
    }
}

/// Observing data changes only the caches.
pub proof fn lemma_observed_keeps_rest(state: MarketState, slice: Seq<BaseDataEnum>)
    ensures
        state.observed_all(slice).accounts == state.accounts,
        state.observed_all(slice).orders == state.orders,
        state.observed_all(slice).last_time == state.last_time,
        state.observed_all(slice).warm_up_complete == state.warm_up_complete,
        state.observed_all(slice).starting_cash == state.starting_cash,
        state.observed_all(slice).currency == state.currency,
    decreases slice.len(),
{
    if slice.len() > 0 {
        lemma_observed_keeps_rest(state, slice.drop_last());
    }
}

proof fn lemma_pushed_account_is_found(
    accounts: Seq<AccountView>,
    account: AccountView,
    brokerage: Brokerage,
    account_id: Seq<char>,
)
    requires
        find_account(accounts, brokerage, account_id, 0) is None,
        account.brokerage == brokerage,
        account.account_id == account_id,
    ensures
        find_account(accounts.push(account), brokerage, account_id, 0) == Some(
            accounts.len() as int,
        ),
{
    lemma_find_account_from(accounts, account, brokerage, account_id, 0);
}

proof fn lemma_find_account_from(
    accounts: Seq<AccountView>,
    account: AccountView,
    brokerage: Brokerage,
    account_id: Seq<char>,
    from: int,
)
    requires
        0 <= from <= accounts.len(),
        find_account(accounts, brokerage, account_id, from) is None,
        account.brokerage == brokerage,
        account.account_id == account_id,
    ensures
        find_account(accounts.push(account), brokerage, account_id, from) == Some(
            accounts.len() as int,
        ),
    decreases accounts.len() - from,
{
    let pushed = accounts.push(account);
    if from < accounts.len() {
        assert(pushed[from] == accounts[from]);
        lemma_find_account_from(accounts, account, brokerage, account_id, from + 1);
    }
}

/// The matching engine of a backtest, by its shorter name.
pub type MarketHandler = HistoricalMarketHandler;

/// The matching engine a strategy uses. Both variants simulate fills; a
/// live strategy uses the second to warm up.
pub enum MarketHandlerEnum {
    BacktestDefault(HistoricalMarketHandler),
    LiveDefault(HistoricalMarketHandler),
}

impl MarketHandlerEnum {
    pub open spec fn handler(self) -> HistoricalMarketHandler {
        match self {
            MarketHandlerEnum::BacktestDefault(h) => h,
            MarketHandlerEnum::LiveDefault(h) => h,
        }
    }

    /// The engine for a strategy in `mode`. `None` where the starting cash
    /// is beyond the cash limit.
    pub fn new(
        owner_id: String,
        start_time: i64,
        mode: StrategyMode,
        starting_cash: i128,
        currency: AccountCurrency,
    ) -> (made: Option<Self>)
        ensures
            made is Some <==> within_limit(starting_cash as int),
            made is Some ==> made->Some_0.handler().wf() && (made->Some_0 is BacktestDefault
                <==> mode == StrategyMode::Backtest) && made->Some_0.handler()@ == (MarketState {
                prices: Map::empty(),
                books: Map::empty(),
                accounts: Seq::empty(),
                last_time: start_time,
                orders: Seq::empty(),
                warm_up_complete: false,
                starting_cash,
                currency,
            }),
    {
        match HistoricalMarketHandler::new(owner_id, start_time, starting_cash, currency) {
            Some(handler) => match mode {
                StrategyMode::Backtest => Some(MarketHandlerEnum::BacktestDefault(handler)),
                _ => Some(MarketHandlerEnum::LiveDefault(handler)),
            },
            None => None,
        }
    }

    pub fn last_time(&self) -> (time: i64)
        ensures
            time == self.handler()@.last_time,
    {
        match self {
            MarketHandlerEnum::BacktestDefault(handler) => handler.get_last_time(),
            MarketHandlerEnum::LiveDefault(handler) => handler.get_last_time(),
        }
    }

    pub fn update_time(&mut self, time: i64)
        requires
            old(self).handler().wf(),
        ensures
            final(self).handler().wf(),
            (*final(self) is BacktestDefault) == (*old(self) is BacktestDefault),
            final(self).handler()@ == (MarketState { last_time: time, ..old(self).handler()@ }),
    {
        match self {
            MarketHandlerEnum::BacktestDefault(handler) => handler.update_time(time),
            MarketHandlerEnum::LiveDefault(handler) => handler.update_time(time),
        }
    }

    /// Takes in a slice of primary data and returns the events the engine
    /// raised, `None` where it raised none.
    pub fn base_data_upate(
        &mut self,
        time: i64,
        time_slice: &Vec<BaseDataEnum>,
        margins: &Vec<i128>,
    ) -> (events: Option<Vec<StrategyEvent>>)
        requires
            old(self).handler().wf(),
        ensures
            final(self).handler().wf(),
            (*final(self) is BacktestDefault) == (*old(self) is BacktestDefault),
            final(self).handler()@ == (if old(self).handler()@.warm_up_complete {
                old(self).handler()@.after_slice(time, time_slice@).after_matching(margins@).0
            } else {
                old(self).handler()@.after_slice(time, time_slice@)
            }),
            ({
                let raised = if old(self).handler()@.warm_up_complete {
                    old(self).handler()@.after_slice(time, time_slice@).after_matching(
                        margins@,
                    ).1
                } else {
                    Seq::<StrategyEvent>::empty()
                };
                match events {
                    Some(e) => e@ == raised && raised.len() > 0,
                    None => raised.len() == 0,
                }
            }),
    {
        let events = match self {
            MarketHandlerEnum::BacktestDefault(handler) => handler.on_data_update(
                time,
                time_slice,
                margins,
            ),
            MarketHandlerEnum::LiveDefault(handler) => handler.on_data_update(
                time,
                time_slice,
                margins,
            ),
        };
        if events.len() == 0 {
            None
        } else {
            Some(events)
        }
    }

    pub fn process_ledgers(&self) -> (results: Vec<LedgerStatistics>)
        requires
            self.handler().wf(),
        ensures
            results@.len() == self.handler()@.accounts.len(),
            forall|i: int|
                0 <= i < results@.len() ==> (#[trigger] results@[i]) == crate::ledgers::spec_statistics(
                    self.handler()@.accounts[i].state.positions_closed,
                ),
    {
        match self {
            MarketHandlerEnum::BacktestDefault(handler) => handler.process_ledgers(),
            MarketHandlerEnum::LiveDefault(handler) => handler.process_ledgers(),
        }
    }

    pub fn send_order(&mut self, order: Order)
        requires
            old(self).handler().wf(),
        ensures
            final(self).handler().wf(),
            (*final(self) is BacktestDefault) == (*old(self) is BacktestDefault),
            final(self).handler()@ == (MarketState {
                orders: old(self).handler()@.orders.push(order),
                ..old(self).handler()@
            }),
    {
        match self {
            MarketHandlerEnum::BacktestDefault(handler) => handler.send_order(order),
            MarketHandlerEnum::LiveDefault(handler) => handler.send_order(order),
        }
    }

    pub fn set_warm_up_complete(&mut self)
        requires
            old(self).handler().wf(),
        ensures
            final(self).handler().wf(),
            (*final(self) is BacktestDefault) == (*old(self) is BacktestDefault),
            final(self).handler()@ == (MarketState {
                warm_up_complete: true,
                ..old(self).handler()@
            }),
    {
        match self {
            MarketHandlerEnum::BacktestDefault(handler) => handler.set_warm_up_complete(),
            MarketHandlerEnum::LiveDefault(handler) => handler.set_warm_up_complete(),
        }
    }
}

} // verus!
