//! The ledger of a simulated account: cash, margin, open and closed
//! positions.
//!
//! A fill on the side of an open position adds to it at the weighted
//! average price. A fill on the other side reduces it and books the gain of
//! the reduced quantity; a fill of the whole quantity closes it and frees
//! its margin; a larger fill closes it and opens the remainder on the other
//! side.

use crate::base_data::{check_price, price_in_range, BaseDataEnum, OrderSide, Price};
use crate::positions::{
    average_price, check_limit, opens_side, pnl, spec_average_price, spec_pnl, within_limit,
    Brokerage, Position, PositionSide, CASH_LIMIT,
};
use crate::positions::{lemma_average_between, lemma_mark_keeps_holdings};
use vstd::prelude::*;

verus! {

/// The currency an account is kept in.
#[derive(Clone, Copy, Debug, PartialEq, Eq, Structural, Hash)]
pub enum AccountCurrency {
    AUD,
    NZD,
    EUR,
    GBP,
    CHF,
    JPY,
    SGD,
    HKD,
    USD,
    BTC,
    ETH,
    USDT,
}

/// Why the ledger refused a fill.
#[derive(Clone, Copy, Debug, PartialEq, Eq, Structural)]
pub enum LedgerError {
    /// The cash available does not cover the margin.
    InsufficientFunds,
    /// The quantity is zero, the price is outside the domain, or the margin
    /// is negative or beyond the cash limit.
    InvalidOrder,
    /// An amount or a quantity would leave the range the ledger can hold.
    Overflow,
}

/// An account as a broker reports it.
#[derive(Debug, PartialEq, Eq)]
pub struct AccountInfo {
    pub account_id: String,
    pub brokerage: Brokerage,
    pub cash_value: i128,
    pub cash_available: i128,
    pub currency: AccountCurrency,
    pub cash_used: i128,
    pub positions: Vec<Position>,
    pub positions_closed: Vec<Position>,
    pub is_hedging: bool,
}

/// The part of a ledger that fills change.
pub struct LedgerState {
    pub cash_value: int,
    pub cash_available: int,
    pub cash_used: int,
    /// Open positions, at most one per symbol.
    pub positions: Seq<Position>,
    /// Closed positions, in the order they were closed.
    pub positions_closed: Seq<Position>,
}

/// The sum of the booked gains of some positions.
pub open spec fn total_booked(positions: Seq<Position>) -> int
    decreases positions.len(),
{
    if positions.len() == 0 {
        0
    } else {
        total_booked(positions.drop_last()) + positions.last().booked_pnl
    }
}

/// Index of the first position in `symbol`, looking from `from` on.
pub open spec fn find_position(positions: Seq<Position>, symbol: Seq<char>, from: int) -> Option<int>
    decreases positions.len() - from,
{
    if from < 0 || from >= positions.len() {
        None
    } else if positions[from].symbol_name@ == symbol {
        Some(from)
    } else {
        find_position(positions, symbol, from + 1)
    }
}

/// How many of the positions are in `symbol`.
pub open spec fn count_in_symbol(positions: Seq<Position>, symbol: Seq<char>) -> nat
    decreases positions.len(),
{
    if positions.len() == 0 {
        0
    } else {
        count_in_symbol(positions.drop_last(), symbol) + (if positions.last().symbol_name@
            == symbol {
            1nat
        } else {
            0nat
        })
    }
}

/// The share of `margin` that falls to `part` units out of `whole`, rounded
/// down.
pub open spec fn spec_margin_share(margin: int, part: int, whole: int) -> int {
    (margin * part) / whole
}

impl LedgerState {
    /// What every reachable state satisfies: amounts are within the cash
    /// limit, open positions are open and well formed with no two in one
    /// symbol, closed positions are closed.
    pub open spec fn wf(self) -> bool {
        &&& within_limit(self.cash_value)
        &&& within_limit(self.cash_available)
        &&& within_limit(self.cash_used)
        &&& forall|i: int|
            0 <= i < self.positions.len() ==> (#[trigger] self.positions[i]).wf()
                && !self.positions[i].is_closed
        &&& forall|i: int, j: int|
            0 <= i < j < self.positions.len() ==> (#[trigger] self.positions[i]).symbol_name@ != (
            #[trigger] self.positions[j]).symbol_name@
        &&& forall|i: int|
            0 <= i < self.positions_closed.len() ==> (#[trigger] self.positions_closed[i]).wf()
                && self.positions_closed[i].is_closed
        &&& self.positions_closed.len() < u64::MAX
    }

    /// All gains booked so far, by open and by closed positions.
    pub open spec fn realized(self) -> int {
        total_booked(self.positions) + total_booked(self.positions_closed)
    }

    /// What the cash value exceeds cash available, cash used and booked
    /// gains by. It is 0 for a new paper account and no operation changes
    /// it.
    pub open spec fn imbalance(self) -> int {
        self.cash_value - (self.cash_available + self.cash_used + self.realized())
    }

    pub open spec fn position_in(self, symbol: Seq<char>) -> Option<Position> {
        match find_position(self.positions, symbol, 0) {
            Some(i) => Some(self.positions[i]),
            None => None,
        }
    }

    /// The number the next position in `symbol` gets.
    pub open spec fn next_id(self, symbol: Seq<char>) -> int {
        count_in_symbol(self.positions_closed, symbol) as int + 1
    }

    /// The state after the open position at index `at` has been closed at
    /// `price`: its whole quantity is booked, it moves to the closed
    /// positions, and its margin returns to cash available together with
    /// the gain.
    pub open spec fn closed_out(self, at: int, price: Price) -> LedgerState {
        let position = self.positions[at];
        let gain = spec_pnl(
            position.side,
            position.average_price as int,
            price as int,
            position.quantity as int,
        );
        LedgerState {
            cash_value: self.cash_value + gain,
            cash_available: self.cash_available + position.margin_used + gain,
            cash_used: self.cash_used - position.margin_used - gain,
            positions: self.positions.remove(at),
            positions_closed: self.positions_closed.push(
                Position {
                    quantity: 0,
                    open_pnl: 0,
                    booked_pnl: (position.booked_pnl + gain) as i128,
                    is_closed: true,
                    margin_used: 0,
                    ..position
                },
            ),
        }
    }

    /// The state after a new position has been opened with `margin`
    /// reserved.
    pub open spec fn opened(
        self,
        symbol_name: String,
        brokerage: Brokerage,
        side: PositionSide,
        quantity: u64,
        price: Price,
        margin: int,
    ) -> LedgerState {
        LedgerState {
            cash_available: self.cash_available - margin,
            cash_used: self.cash_used + margin,
            positions: self.positions.push(
                Position {
                    symbol_name,
                    brokerage,
                    side,
                    quantity,
                    average_price: price,
                    open_pnl: 0,
                    booked_pnl: 0,
                    highest_recoded_price: price,
                    lowest_recoded_price: price,
                    is_closed: false,
                    margin_used: margin as i128,
                    id: self.next_id(symbol_name@) as u64,
                },
            ),
            ..self
        }
    }

    /// The state a fill leads to if the ledger can hold it, before that is
    /// checked; or the reason the fill is refused.
    pub open spec fn fill_candidate(
        self,
        symbol_name: String,
        brokerage: Brokerage,
        quantity: u64,
        price: Price,
        side: OrderSide,
        margin: i128,
    ) -> Result<LedgerState, LedgerError> {
        if quantity == 0 || !price_in_range(price as int) || !(0 <= margin <= CASH_LIMIT) {
            Err(LedgerError::InvalidOrder)
        } else {
            match find_position(self.positions, symbol_name@, 0) {
                None => if self.cash_available < margin {
                    Err(LedgerError::InsufficientFunds)
                } else {
                    Ok(
                        self.opened(
                            symbol_name,
                            brokerage,
                            opens_side(side),
                            quantity,
                            price,
                            margin as int,
                        ),
                    )
                },
                Some(at) => {
                    let position = self.positions[at];
                    if position.side == opens_side(side) {
                        if self.cash_available < margin {
                            Err(LedgerError::InsufficientFunds)
                        } else if position.quantity + quantity > u64::MAX {
                            Err(LedgerError::Overflow)
                        } else {
                            let average = spec_average_price(
                                position.quantity as int,
                                position.average_price as int,
                                quantity as int,
                                price as int,
                            );
                            Ok(
                                LedgerState {
                                    cash_available: self.cash_available - margin,
                                    cash_used: self.cash_used + margin,
                                    positions: self.positions.update(
                                        at,
                                        Position {
                                            quantity: (position.quantity + quantity) as u64,
                                            average_price: average as i64,
                                            open_pnl: spec_pnl(
                                                position.side,
                                                average,
                                                price as int,
                                                position.quantity + quantity,
                                            ) as i128,
                                            margin_used: (position.margin_used + margin) as i128,
                                            ..position
                                        },
                                    ),
                                    ..self
                                },
                            )
                        }
                    } else if quantity < position.quantity {
                        let gain = spec_pnl(
                            position.side,
                            position.average_price as int,
                            price as int,
                            quantity as int,
                        );
                        Ok(
                            LedgerState {
                                cash_value: self.cash_value + gain,
                                cash_available: self.cash_available + gain,
                                cash_used: self.cash_used - gain,
                                positions: self.positions.update(
                                    at,
                                    Position {
                                        quantity: (position.quantity - quantity) as u64,
                                        booked_pnl: (position.booked_pnl + gain) as i128,
                                        open_pnl: spec_pnl(
                                            position.side,
                                            position.average_price as int,
                                            price as int,
                                            position.quantity - quantity,
                                        ) as i128,
                                        ..position
                                    },
                                ),
                                ..self
                            },
                        )
                    } else if quantity == position.quantity {
                        Ok(self.closed_out(at, price))
                    } else {
                        let rest = (quantity - position.quantity) as u64;
                        let share = spec_margin_share(
                            margin as int,
                            rest as int,
                            quantity as int,
                        );
                        let closed = self.closed_out(at, price);
                        if closed.cash_available < share {
                            Err(LedgerError::InsufficientFunds)
                        } else {
                            Ok(
                                closed.opened(
                                    symbol_name,
                                    brokerage,
                                    opens_side(side),
                                    rest,
                                    price,
                                    share,
                                ),
                            )
                        }
                    }
                },
            }
        }
    }

    /// Whether a fill is in order and meets the open position at index
    /// `at`.
    pub open spec fn fill_addresses(
        self,
        symbol_name: String,
        at: int,
        quantity: u64,
        price: Price,
        margin: i128,
    ) -> bool {
        &&& quantity > 0
        &&& price_in_range(price as int)
        &&& 0 <= margin <= CASH_LIMIT
        &&& find_position(self.positions, symbol_name@, 0) == Some(at)
        &&& 0 <= at < self.positions.len()
    }

    /// Whether `after` and `outcome` are what a fill leads to from `self`:
    /// the state the fill gives, or its error and the state unchanged.
    pub open spec fn fill_matches(
        self,
        after: LedgerState,
        outcome: Result<(), LedgerError>,
        symbol_name: String,
        brokerage: Brokerage,
        quantity: u64,
        price: Price,
        side: OrderSide,
        margin: i128,
    ) -> bool {
        match outcome {
            Ok(()) => self.fill(symbol_name, brokerage, quantity, price, side, margin) == Ok::<
                LedgerState,
                LedgerError,
            >(after),
            Err(e) => self.fill(symbol_name, brokerage, quantity, price, side, margin) == Err::<
                LedgerState,
                LedgerError,
            >(e) && after == self,
        }
    }

    /// The outcome of a fill: the new state, or the reason the fill is
    /// refused. A refused fill changes nothing.
    pub open spec fn fill(
        self,
        symbol_name: String,
        brokerage: Brokerage,
        quantity: u64,
        price: Price,
        side: OrderSide,
        margin: i128,
    ) -> Result<LedgerState, LedgerError> {
        match self.fill_candidate(symbol_name, brokerage, quantity, price, side, margin) {
            Ok(next) => if next.fits_after(self) {
                Ok(next)
            } else {
                Err(LedgerError::Overflow)
            },
            Err(e) => Err(e),
        }
    }

    /// Whether `self`, reached from `before` by one operation, can be held:
    /// the cash amounts, and the booked gain and margin of positions the
    /// operation touched, are within the cash limit.
    pub open spec fn fits_after(self, before: LedgerState) -> bool {
        &&& within_limit(self.cash_value)
        &&& within_limit(self.cash_available)
        &&& within_limit(self.cash_used)
        &&& self.positions_closed.len() < u64::MAX
        &&& forall|i: int|
            0 <= i < self.positions.len() ==> within_limit(
                (#[trigger] self.positions[i]).booked_pnl as int,
            ) && self.positions[i].margin_used <= CASH_LIMIT
        &&& (self.positions_closed.len() > 0 ==> within_limit(
            self.positions_closed.last().booked_pnl as int,
        ))
    }

    /// The outcome of closing the position in `symbol` at `price`. With no
    /// position in the symbol nothing changes.
    pub open spec fn exit(self, symbol: Seq<char>, price: Price) -> Result<
        LedgerState,
        LedgerError,
    > {
        if !price_in_range(price as int) {
            Err(LedgerError::InvalidOrder)
        } else {
            match find_position(self.positions, symbol, 0) {
                None => Ok(self),
                Some(at) => if self.closed_out(at, price).fits_after(self) {
                    Ok(self.closed_out(at, price))
                } else {
                    Err(LedgerError::Overflow)
                },
            }
        }
    }

    /// The state after every open position has been revalued with a slice.
    pub open spec fn marked(self, slice: Seq<BaseDataEnum>) -> LedgerState {
        LedgerState {
            positions: Seq::new(
                self.positions.len(),
                |i: int| self.positions[i].spec_mark_all(slice),
            ),
            ..self
        }
    }
}

/// Per-account results of the closed positions.
#[derive(Clone, Copy, Debug, PartialEq, Eq, Structural)]
pub struct LedgerStatistics {
    pub total_trades: u64,
    pub wins: u64,
    pub losses: u64,
    pub break_even: u64,
    /// Wins per hundred trades, in hundredths of a percent, rounded to the
    /// nearest; 0 without trades.
    pub win_rate: u64,
    /// Sum of the gains of winning trades over the magnitude of the sum of
    /// the losses of losing trades, in hundredths, rounded to the nearest;
    /// `None` without a loss or where it cannot be represented.
    pub risk_reward: Option<i128>,
    /// Sum of the booked gains of all closed positions; `None` once the
    /// running sum is beyond the cash limit.
    pub pnl: Option<i128>,
}

/// A ledger for one account of a strategy.
pub struct Ledger {
    account_id: String,
    brokerage: Brokerage,
    currency: AccountCurrency,
    cash_value: i128,
    cash_available: i128,
    cash_used: i128,
    positions: Vec<Position>,
    positions_closed: Vec<Position>,
}

impl View for Ledger {
    type V = LedgerState;

    closed spec fn view(&self) -> LedgerState {
        LedgerState {
            cash_value: self.cash_value as int,
            cash_available: self.cash_available as int,
            cash_used: self.cash_used as int,
            positions: self.positions@,
            positions_closed: self.positions_closed@,
        }
    }
}

impl Ledger {
    /// The invariant of the ledger.
    pub closed spec fn wf(&self) -> bool {
        self@.wf()
    }

    /// The invariant of a ledger is that of its state.
    pub proof fn lemma_wf_view(&self)
        requires
            self.wf(),
        ensures
            self@.wf(),
    {
    }

    pub closed spec fn spec_account_id(&self) -> String {
        self.account_id
    }

    pub closed spec fn spec_brokerage(&self) -> Brokerage {
        self.brokerage
    }

    pub closed spec fn spec_currency(&self) -> AccountCurrency {
        self.currency
    }

    /// A paper account that holds `cash_value` in cash and nothing else.
    /// `None` where the amount is beyond the cash limit.
    pub fn paper_account_init(
        account_id: String,
        brokerage: Brokerage,
        cash_value: i128,
        currency: AccountCurrency,
    ) -> (made: Option<Self>)
        ensures
            made is Some <==> within_limit(cash_value as int),
            made is Some ==> {
                let ledger = made->Some_0;
                &&& ledger.wf()
                &&& ledger@ == (LedgerState {
                    cash_value: cash_value as int,
                    cash_available: cash_value as int,
                    cash_used: 0,
                    positions: Seq::empty(),
                    positions_closed: Seq::empty(),
                })
                &&& ledger@.imbalance() == 0
                &&& ledger.spec_account_id() == account_id
                &&& ledger.spec_brokerage() == brokerage
                &&& ledger.spec_currency() == currency
            },
    {
        if !check_limit(cash_value) {
            return None;
        }
        Some(
            Ledger {
                account_id,
                brokerage,
                currency,
                cash_value,
                cash_available: cash_value,
                cash_used: 0,
                positions: Vec::new(),
                positions_closed: Vec::new(),
            },
        )
    }

    /// A ledger that starts from an account as its broker reports it. The
    /// open positions of the report are taken over where they are well
    /// formed and the first in their symbol; closed ones are not taken over.
    /// `None` where a cash amount is beyond the cash limit.
    pub fn new(account_info: AccountInfo) -> (made: Option<Self>)
        ensures
            made is Some <==> (within_limit(account_info.cash_value as int) && within_limit(
                account_info.cash_available as int,
            ) && within_limit(account_info.cash_used as int)),
            made is Some ==> {
                let ledger = made->Some_0;
                &&& ledger.wf()
                &&& ledger@.cash_value == account_info.cash_value
                &&& ledger@.cash_available == account_info.cash_available
                &&& ledger@.cash_used == account_info.cash_used
                &&& ledger@.positions_closed == Seq::<Position>::empty()
                &&& ledger@.positions == spec_adopt(account_info.positions@)
                &&& ledger.spec_account_id() == account_info.account_id
                &&& ledger.spec_brokerage() == account_info.brokerage
                &&& ledger.spec_currency() == account_info.currency
            },
    {
        if !check_limit(account_info.cash_value) || !check_limit(account_info.cash_available)
            || !check_limit(account_info.cash_used) {
            return None;
        }
        let mut ledger = Ledger {
            account_id: account_info.account_id,
            brokerage: account_info.brokerage,
            currency: account_info.currency,
            cash_value: account_info.cash_value,
            cash_available: account_info.cash_available,
            cash_used: account_info.cash_used,
            positions: Vec::new(),
            positions_closed: Vec::new(),
        };
        let reported = account_info.positions;
        let mut i: usize = 0;
        assert(reported@.take(0) =~= Seq::<Position>::empty());
        while i < reported.len()
            invariant
                i <= reported.len(),
                ledger.wf(),
                ledger.positions@ == spec_adopt(reported@.take(i as int)),
                ledger.positions_closed@ == Seq::<Position>::empty(),
                ledger.cash_value == account_info.cash_value,
                ledger.cash_available == account_info.cash_available,
                ledger.cash_used == account_info.cash_used,
                ledger.account_id == account_info.account_id,
                ledger.brokerage == account_info.brokerage,
                ledger.currency == account_info.currency,
            decreases reported.len() - i,
        {
            proof {
                assert(reported@.take(i + 1).drop_last() =~= reported@.take(i as int));
                lemma_find_position(ledger.positions@, reported@[i as int].symbol_name@, 0);
            }
            let position = &reported[i];
            if position_is_well_formed(position) && !position.is_closed && ledger.find(
                &position.symbol_name,
            ).is_none() {
                ledger.positions.push(position.clone());
            }
            i = i + 1;
        }
        assert(reported@.take(reported.len() as int) =~= reported@);
        Some(ledger)
    }

    pub fn account_id(&self) -> (id: &String)
        ensures
            *id == self.spec_account_id(),
    {
        &self.account_id
    }

    pub fn brokerage(&self) -> (brokerage: Brokerage)
        ensures
            brokerage == self.spec_brokerage(),
    {
        self.brokerage
    }

    pub fn currency(&self) -> (currency: AccountCurrency)
        ensures
            currency == self.spec_currency(),
    {
        self.currency
    }

    pub fn cash_value(&self) -> (amount: i128)
        ensures
            amount == self@.cash_value,
    {
        self.cash_value
    }

    pub fn cash_available(&self) -> (amount: i128)
        ensures
            amount == self@.cash_available,
    {
        self.cash_available
    }

    pub fn cash_used(&self) -> (amount: i128)
        ensures
            amount == self@.cash_used,
    {
        self.cash_used
    }

    /// The open positions.
    pub fn positions(&self) -> (positions: &Vec<Position>)
        ensures
            positions@ == self@.positions,
    {
        &self.positions
    }

    /// The closed positions, in the order they were closed.
    pub fn positions_closed(&self) -> (positions: &Vec<Position>)
        ensures
            positions@ == self@.positions_closed,
    {
        &self.positions_closed
    }

    fn find(&self, symbol_name: &String) -> (at: Option<usize>)
        ensures
            match at {
                Some(i) => find_position(self@.positions, symbol_name@, 0) == Some(i as int) && i
                    < self@.positions.len(),
                None => find_position(self@.positions, symbol_name@, 0) is None,
            },
    {
        let mut i: usize = 0;
        while i < self.positions.len()
            invariant
                i <= self.positions.len(),
                find_position(self.positions@, symbol_name@, 0) == find_position(
                    self.positions@,
                    symbol_name@,
                    i as int,
                ),
            decreases self.positions.len() - i,
        {
            if self.positions[i].symbol_name == *symbol_name {
                return Some(i);
            }
            i = i + 1;
        }
        None
    }

    /// The open position in a symbol, if there is one.
    pub fn position(&self, symbol_name: &String) -> (position: Option<&Position>)
        ensures
            position == (match self@.position_in(symbol_name@) {
                Some(p) => Some(&p),
                None => None,
            }),
    {
        match self.find(symbol_name) {
            Some(i) => Some(&self.positions[i]),
            None => None,
        }
    }

    pub fn is_long(&self, symbol_name: &String) -> (long: bool)
        ensures
            long == (self@.position_in(symbol_name@) is Some && self@.position_in(
                symbol_name@,
            )->Some_0.side == PositionSide::Long),
    {
        match self.find(symbol_name) {
            Some(i) => self.positions[i].side == PositionSide::Long,
            None => false,
        }
    }

    pub fn is_short(&self, symbol_name: &String) -> (short: bool)
        ensures
            short == (self@.position_in(symbol_name@) is Some && self@.position_in(
                symbol_name@,
            )->Some_0.side == PositionSide::Short),
    {
        match self.find(symbol_name) {
            Some(i) => self.positions[i].side == PositionSide::Short,
            None => false,
        }
    }

    pub fn is_flat(&self, symbol_name: &String) -> (flat: bool)
        ensures
            flat == (self@.position_in(symbol_name@) is None),
    {
        self.find(symbol_name).is_none()
    }

    /// The number the next position in a symbol gets: one more than the
    /// number of positions closed in it.
    pub fn generate_id(&self, symbol_name: &String) -> (id: u64)
        requires
            self@.positions_closed.len() < u64::MAX,
        ensures
            id == self@.next_id(symbol_name@),
    {
        let mut count: u64 = 0;
        let mut i: usize = 0;
        assert(self.positions_closed@.take(0) =~= Seq::<Position>::empty());
        while i < self.positions_closed.len()
            invariant
                i <= self.positions_closed.len(),
                self.positions_closed@.len() < u64::MAX,
                count <= i,
                count == count_in_symbol(self.positions_closed@.take(i as int), symbol_name@),
            decreases self.positions_closed.len() - i,
        {
            proof {
                assert(self.positions_closed@.take(i + 1).drop_last()
                    =~= self.positions_closed@.take(i as int));
            }
            if self.positions_closed[i].symbol_name == *symbol_name {
                count = count + 1;
            }
            i = i + 1;
        }
        assert(self.positions_closed@.take(self.positions_closed.len() as int)
            =~= self.positions_closed@);
        count + 1
    }

    fn close_out(&mut self, at: usize, price: Price) -> (outcome: Result<Position, LedgerError>)
        requires
            old(self).wf(),
            at < old(self)@.positions.len(),
            price_in_range(price as int),
        ensures
            final(self).wf(),
            final(self).account_id == old(self).account_id,
            final(self).brokerage == old(self).brokerage,
            final(self).currency == old(self).currency,
            match outcome {
                Ok(closed) => old(self)@.closed_out(at as int, price).fits_after(old(self)@)
                    && final(self)@ == old(self)@.closed_out(at as int, price) && closed
                    == final(self)@.positions_closed.last(),
                Err(e) => e == LedgerError::Overflow && !old(self)@.closed_out(
                    at as int,
                    price,
                ).fits_after(old(self)@) && final(self)@ == old(self)@,
            },
    {
        if self.positions_closed.len() as u64 >= u64::MAX - 1 {
            return Err(LedgerError::Overflow);
        }
        let position = &self.positions[at];
        let gain = pnl(position.side, position.average_price, price, position.quantity);
        let booked = position.booked_pnl + gain;
        let value = self.cash_value + gain;
        let available = self.cash_available + position.margin_used + gain;
        let used = self.cash_used - position.margin_used - gain;
        proof {
            let next = self@.closed_out(at as int, price);
            assert(next.positions_closed.last().booked_pnl == booked);
            assert forall|i: int| 0 <= i < next.positions.len() implies within_limit(
                (#[trigger] next.positions[i]).booked_pnl as int,
            ) && next.positions[i].margin_used <= CASH_LIMIT by {
                if i < at {
                    assert(next.positions[i] == self@.positions[i]);
                } else {
                    assert(next.positions[i] == self@.positions[i + 1]);
                }
            }
        }
        if !check_limit(booked) || !check_limit(value) || !check_limit(available) || !check_limit(
            used,
        ) {
            return Err(LedgerError::Overflow);
        }
        let mut closed = self.positions.remove(at);
        closed.quantity = 0;
        closed.open_pnl = 0;
        closed.booked_pnl = booked;
        closed.is_closed = true;
        closed.margin_used = 0;
        self.cash_value = value;
        self.cash_available = available;
        self.cash_used = used;
        self.positions_closed.push(closed.clone());
        proof {
            lemma_closed_out_keeps_wf(old(self)@, at as int, price);
        }
        Ok(closed)
    }

    fn open(
        &mut self,
        symbol_name: &String,
        side: PositionSide,
        quantity: u64,
        price: Price,
        margin: i128,
    ) -> (opened: bool)
        requires
            old(self).wf(),
            quantity > 0,
            price_in_range(price as int),
            0 <= margin <= CASH_LIMIT,
            find_position(old(self)@.positions, symbol_name@, 0) is None,
            old(self)@.cash_available >= margin,
        ensures
            final(self).wf(),
            final(self).account_id == old(self).account_id,
            final(self).brokerage == old(self).brokerage,
            final(self).currency == old(self).currency,
            opened == (within_limit(old(self)@.cash_available - margin) && within_limit(
                old(self)@.cash_used + margin,
            )),
            opened ==> final(self)@ == old(self)@.opened(
                *symbol_name,
                old(self).brokerage,
                side,
                quantity,
                price,
                margin as int,
            ),
            !opened ==> final(self)@ == old(self)@,
    {
        let available = self.cash_available - margin;
        let used = self.cash_used + margin;
        if !check_limit(available) || !check_limit(used) {
            return false;
        }
        let id = self.generate_id(symbol_name);
        let mut position = Position::enter(
            symbol_name.clone(),
            self.brokerage,
            side,
            quantity,
            price,
            id,
        );
        position.margin_used = margin;
        proof {
            lemma_find_position(self@.positions, symbol_name@, 0);
        }
        self.cash_available = available;
        self.cash_used = used;
        self.positions.push(position);
        true
    }

    fn add_to(
        &mut self,
        at: usize,
        symbol_name: &String,
        quantity: u64,
        price: Price,
        side: OrderSide,
        margin_required: i128,
    ) -> (outcome: Result<(), LedgerError>)
        requires
            old(self).wf(),
            old(self)@.fill_addresses(*symbol_name, at as int, quantity, price, margin_required),
            old(self)@.positions[at as int].side == opens_side(side),
        ensures
            final(self).account_id == old(self).account_id,
            final(self).brokerage == old(self).brokerage,
            final(self).currency == old(self).currency,
            old(self)@.fill_matches(
                final(self)@,
                outcome,
                *symbol_name,
                old(self).brokerage,
                quantity,
                price,
                side,
                margin_required,
            ),
    {
        let position = self.positions[at].clone();
        assert(position.wf());
        if self.cash_available < margin_required {
            return Err(LedgerError::InsufficientFunds);
        }
        let total = match position.quantity.checked_add(quantity) {
            Some(total) => total,
            None => {
                return Err(LedgerError::Overflow);
            },
        };
        let average = average_price(position.quantity, position.average_price, quantity, price);
        let available = self.cash_available - margin_required;
        let used = self.cash_used + margin_required;
        let margin = position.margin_used + margin_required;
        let mut next = position;
        next.quantity = total;
        next.average_price = average;
        next.open_pnl = pnl(next.side, average, price, total);
        next.margin_used = margin;
        proof {
            let candidate = self@.fill_candidate(
                *symbol_name,
                self.brokerage,
                quantity,
                price,
                side,
                margin_required,
            )->Ok_0;
            assert(candidate.positions[at as int] == next);
            lemma_updated_fits(self@, candidate, at as int);
        }
        if !check_limit(available) || !check_limit(used) || margin > CASH_LIMIT {
            return Err(LedgerError::Overflow);
        }
        self.cash_available = available;
        self.cash_used = used;
        self.positions.set(at, next);
        Ok(())
    }

    fn reduce(
        &mut self,
        at: usize,
        symbol_name: &String,
        quantity: u64,
        price: Price,
        side: OrderSide,
        margin_required: i128,
    ) -> (outcome: Result<(), LedgerError>)
        requires
            old(self).wf(),
            old(self)@.fill_addresses(*symbol_name, at as int, quantity, price, margin_required),
            old(self)@.positions[at as int].side != opens_side(side),
            quantity < old(self)@.positions[at as int].quantity,
        ensures
            final(self).account_id == old(self).account_id,
            final(self).brokerage == old(self).brokerage,
            final(self).currency == old(self).currency,
            old(self)@.fill_matches(
                final(self)@,
                outcome,
                *symbol_name,
                old(self).brokerage,
                quantity,
                price,
                side,
                margin_required,
            ),
    {
        let position = self.positions[at].clone();
        assert(position.wf());
        let gain = pnl(position.side, position.average_price, price, quantity);
        let booked = position.booked_pnl + gain;
        let value = self.cash_value + gain;
        let available = self.cash_available + gain;
        let used = self.cash_used - gain;
        let mut next = position;
        next.quantity = next.quantity - quantity;
        next.booked_pnl = booked;
        next.open_pnl = pnl(next.side, next.average_price, price, next.quantity);
        proof {
            let candidate = self@.fill_candidate(
                *symbol_name,
                self.brokerage,
                quantity,
                price,
                side,
                margin_required,
            )->Ok_0;
            assert(candidate.positions[at as int] == next);
            lemma_updated_fits(self@, candidate, at as int);
        }
        if !check_limit(booked) || !check_limit(value) || !check_limit(available) || !check_limit(
            used,
        ) {
            return Err(LedgerError::Overflow);
        }
        self.cash_value = value;
        self.cash_available = available;
        self.cash_used = used;
        self.positions.set(at, next);
        Ok(())
    }

    fn flip(
        &mut self,
        at: usize,
        symbol_name: &String,
        quantity: u64,
        price: Price,
        side: OrderSide,
        margin_required: i128,
    ) -> (outcome: Result<(), LedgerError>)
        requires
            old(self).wf(),
            old(self)@.fill_addresses(*symbol_name, at as int, quantity, price, margin_required),
            old(self)@.positions[at as int].side != opens_side(side),
            quantity > old(self)@.positions[at as int].quantity,
        ensures
            final(self).account_id == old(self).account_id,
            final(self).brokerage == old(self).brokerage,
            final(self).currency == old(self).currency,
            old(self)@.fill_matches(
                final(self)@,
                outcome,
                *symbol_name,
                old(self).brokerage,
                quantity,
                price,
                side,
                margin_required,
            ),
    {
        let position = self.positions[at].clone();
        assert(position.wf());
        let wanted = match side {
            OrderSide::Buy => PositionSide::Long,
            OrderSide::Sell => PositionSide::Short,
        };
        let rest = quantity - position.quantity;
        let share = margin_share(margin_required, rest, quantity);
        let gain = pnl(position.side, position.average_price, price, position.quantity);
        if self.cash_available + position.margin_used + gain < share {
            return Err(LedgerError::InsufficientFunds);
        }
        let ghost closed = self@.closed_out(at as int, price);
        let ghost target = closed.opened(
            *symbol_name,
            self.brokerage,
            wanted,
            rest,
            price,
            share as int,
        );
        let booked = position.booked_pnl + gain;
        let value = self.cash_value + gain;
        let available = self.cash_available + position.margin_used + gain - share;
        let used = self.cash_used - position.margin_used - gain + share;
        proof {
            lemma_closed_out_keeps_wf(self@, at as int, price);
            assert(target.positions.drop_last() =~= closed.positions);
            lemma_flip_fits(self@, closed, target);
        }
        if !check_limit(available) || !check_limit(used) || !check_limit(value) || !check_limit(
            booked,
        ) || self.positions_closed.len() as u64 >= u64::MAX - 1 {
            return Err(LedgerError::Overflow);
        }
        let mut done = self.positions.remove(at);
        done.quantity = 0;
        done.open_pnl = 0;
        done.booked_pnl = booked;
        done.is_closed = true;
        done.margin_used = 0;
        self.positions_closed.push(done);
        let id = self.generate_id(symbol_name);
        let mut fresh = Position::enter(
            symbol_name.clone(),
            self.brokerage,
            wanted,
            rest,
            price,
            id,
        );
        fresh.margin_used = share;
        self.positions.push(fresh);
        self.cash_value = value;
        self.cash_available = available;
        self.cash_used = used;
        assert(self@.positions_closed =~= target.positions_closed);
        assert(self@.positions =~= target.positions);
        Ok(())
    }

    /// Applies a fill of `quantity` units of `symbol_name` at `price` on
    /// `side`. `margin_required` is the margin the broker asks for the
    /// quantity of the order.
    pub fn update_or_create_paper_position(
        &mut self,
        symbol_name: &String,
        quantity: u64,
        price: Price,
        side: OrderSide,
        margin_required: i128,
    ) -> (outcome: Result<(), LedgerError>)
        requires
            old(self).wf(),
        ensures
            final(self).wf(),
            final(self).spec_account_id() == old(self).spec_account_id(),
            final(self).spec_brokerage() == old(self).spec_brokerage(),
            final(self).spec_currency() == old(self).spec_currency(),
            old(self)@.fill_matches(
                final(self)@,
                outcome,
                *symbol_name,
                old(self).spec_brokerage(),
                quantity,
                price,
                side,
                margin_required,
            ),
            final(self)@.imbalance() == old(self)@.imbalance(),
    {
        proof {
            lemma_fill_keeps_balance(
                self@,
                *symbol_name,
                self.brokerage,
                quantity,
                price,
                side,
                margin_required,
            );
        }
        if quantity == 0 || !check_price(price) || margin_required < 0 || margin_required
            > CASH_LIMIT {
            return Err(LedgerError::InvalidOrder);
        }
        let wanted = match side {
            OrderSide::Buy => PositionSide::Long,
            OrderSide::Sell => PositionSide::Short,
        };
        let at = match self.find(symbol_name) {
            Some(at) => at,
            None => {
                if self.cash_available < margin_required {
                    return Err(LedgerError::InsufficientFunds);
                }
                return if self.open(symbol_name, wanted, quantity, price, margin_required) {
                    Ok(())
                } else {
                    Err(LedgerError::Overflow)
                };
            },
        };
        let held = self.positions[at].quantity;
        if self.positions[at].side == wanted {
            self.add_to(at, symbol_name, quantity, price, side, margin_required)
        } else if quantity < held {
            self.reduce(at, symbol_name, quantity, price, side, margin_required)
        } else if quantity == held {
            match self.close_out(at, price) {
                Ok(_) => Ok(()),
                Err(e) => Err(e),
            }
        } else {
            self.flip(at, symbol_name, quantity, price, side, margin_required)
        }
    }

    /// Closes the position in a symbol at `price`, books its gain and frees
    /// its margin. Returns the closed position; `None` where the account
    /// holds nothing in the symbol.
    pub fn exit_position_paper(&mut self, symbol_name: &String, price: Price) -> (outcome: Result<
        Option<Position>,
        LedgerError,
    >)
        requires
            old(self).wf(),
        ensures
            final(self).wf(),
            final(self).spec_account_id() == old(self).spec_account_id(),
            final(self).spec_brokerage() == old(self).spec_brokerage(),
            final(self).spec_currency() == old(self).spec_currency(),
            match outcome {
                Ok(closed) => old(self)@.exit(symbol_name@, price) == Ok::<
                    LedgerState,
                    LedgerError,
                >(final(self)@) && closed == (if old(self)@.position_in(symbol_name@) is Some {
                    Some(final(self)@.positions_closed.last())
                } else {
                    None
                }),
                Err(e) => old(self)@.exit(symbol_name@, price) == Err::<LedgerState, LedgerError>(e)
                    && final(self)@ == old(self)@,
            },
            final(self)@.imbalance() == old(self)@.imbalance(),
    {
        proof {
            lemma_exit_keeps_balance(self@, symbol_name@, price);
        }
        if !check_price(price) {
            return Err(LedgerError::InvalidOrder);
        }
        match self.find(symbol_name) {
            None => Ok(None),
            Some(at) => {
                proof {
                    lemma_find_position(self@.positions, symbol_name@, 0);
                }
                match self.close_out(at, price) {
                    Ok(closed) => Ok(Some(closed)),
                    Err(e) => Err(e),
                }
            },
        }
    }

    /// Revalues every open position with the data of a slice.
    pub fn on_data_update(&mut self, time_slice: &Vec<BaseDataEnum>)
        requires
            old(self).wf(),
        ensures
            final(self).wf(),
            final(self)@ == old(self)@.marked(time_slice@),
            final(self)@.imbalance() == old(self)@.imbalance(),
            final(self).spec_account_id() == old(self).spec_account_id(),
            final(self).spec_brokerage() == old(self).spec_brokerage(),
            final(self).spec_currency() == old(self).spec_currency(),
    {
        let mut i: usize = 0;
        let ghost slice = time_slice@;
        while i < self.positions.len()
            invariant
                i <= self.positions.len(),
                slice == time_slice@,
                self.positions.len() == old(self).positions.len(),
                self.cash_value == old(self).cash_value,
                self.cash_available == old(self).cash_available,
                self.cash_used == old(self).cash_used,
                self.positions_closed == old(self).positions_closed,
                self.account_id == old(self).account_id,
                self.brokerage == old(self).brokerage,
                self.currency == old(self).currency,
                old(self)@.wf(),
                forall|j: int|
                    0 <= j < i ==> (#[trigger] self.positions@[j])
                        == old(self).positions@[j].spec_mark_all(slice),
                forall|j: int|
                    i <= j < self.positions.len() ==> (#[trigger] self.positions@[j])
                        == old(self).positions@[j],
            decreases self.positions.len() - i,
        {
            let mut position = self.positions[i].clone();
            assert(old(self)@.positions[i as int].wf());
            position.update_base_data(time_slice);
            self.positions.set(i, position);
            i = i + 1;
        }
        proof {
            assert(self@.positions =~= old(self)@.marked(slice).positions);
            lemma_marked_keeps_balance(old(self)@, slice);
        }
    }

    /// Results of the closed positions of the account.
    pub fn print(&self) -> (statistics: LedgerStatistics)
        requires
            self.wf(),
        ensures
            statistics == spec_statistics(self@.positions_closed),
    {
        let mut wins: u64 = 0;
        let mut losses: u64 = 0;
        let mut win_pnl: Option<i128> = Some(0);
        let mut loss_pnl: Option<i128> = Some(0);
        let mut total: Option<i128> = Some(0);
        let mut i: usize = 0;
        let ghost closed = self.positions_closed@;
        assert(closed.take(0) =~= Seq::<Position>::empty());
        while i < self.positions_closed.len()
            invariant
                i <= self.positions_closed.len(),
                closed == self.positions_closed@,
                self@.wf(),
                wins == count_wins(closed.take(i as int)),
                losses == count_losses(closed.take(i as int)),
                wins + losses <= i,
                win_pnl == running_total(closed.take(i as int), 1),
                loss_pnl == running_total(closed.take(i as int), -1),
                total == running_total(closed.take(i as int), 0),
                win_pnl is Some ==> win_pnl->Some_0 >= 0,
                loss_pnl is Some ==> loss_pnl->Some_0 <= 0,
            decreases self.positions_closed.len() - i,
        {
            proof {
                assert(closed.take(i + 1).drop_last() =~= closed.take(i as int));
                assert(closed[i as int].wf());
            }
            let booked = self.positions_closed[i].booked_pnl;
            if booked > 0 {
                wins = wins + 1;
                win_pnl = add_capped(win_pnl, booked);
            } else if booked < 0 {
                losses = losses + 1;
                loss_pnl = add_capped(loss_pnl, booked);
            }
            total = add_capped(total, booked);
            i = i + 1;
        }
        assert(closed.take(closed.len() as int) =~= closed);
        let total_trades = self.positions_closed.len() as u64;
        proof {
            lemma_win_rate_bound(wins as int, total_trades as int);
        }
        let win_rate = match ratio_hundredths(100 * (wins as i128), total_trades as i128) {
            Some(rate) => rate as u64,
            None => 0,
        };
        let risk_reward = match (win_pnl, loss_pnl) {
            (Some(won), Some(lost)) => if lost < 0 {
                ratio_hundredths(won, -lost)
            } else {
                None
            },
            _ => None,
        };
        LedgerStatistics {
            total_trades,
            wins,
            losses,
            break_even: total_trades - wins - losses,
            win_rate,
            risk_reward,
            pnl: total,
        }
    }
}

/// The booked gain of a position if it counts towards a total: every
/// position counts for `which == 0`, only those that gained for a positive
/// `which`, only those that lost for a negative one.
pub open spec fn counted(position: Position, which: int) -> int {
    if which == 0 || (which > 0 && position.booked_pnl > 0) || (which < 0 && position.booked_pnl
        < 0) {
        position.booked_pnl as int
    } else {
        0
    }
}

/// The total of the counted gains, summed in order; `None` once a partial
/// sum is beyond the cash limit.
pub open spec fn running_total(positions: Seq<Position>, which: int) -> Option<i128>
    decreases positions.len(),
{
    if positions.len() == 0 {
        Some(0)
    } else {
        match running_total(positions.drop_last(), which) {
            Some(sum) => capped(sum + counted(positions.last(), which)),
            None => None,
        }
    }
}

/// The results of a sequence of closed positions.
pub open spec fn spec_statistics(closed: Seq<Position>) -> LedgerStatistics {
    let wins = count_wins(closed);
    let losses = count_losses(closed);
    LedgerStatistics {
        total_trades: closed.len() as u64,
        wins: wins as u64,
        losses: losses as u64,
        break_even: (closed.len() - wins - losses) as u64,
        win_rate: spec_ratio_hundredths(100 * (wins as int), closed.len() as int) as u64,
        risk_reward: match (running_total(closed, 1), running_total(closed, -1)) {
            (Some(won), Some(lost)) => if lost < 0 {
                spec_checked_ratio(won as int, -lost)
            } else {
                None
            },
            _ => None,
        },
        pnl: running_total(closed, 0),
    }
}

/// `amount` where it is within the cash limit.
pub open spec fn capped(amount: int) -> Option<i128> {
    if within_limit(amount) {
        Some(amount as i128)
    } else {
        None
    }
}

fn add_capped(sum: Option<i128>, amount: i128) -> (next: Option<i128>)
    requires
        within_limit(amount as int),
        sum is Some ==> within_limit(sum->Some_0 as int),
    ensures
        next == (match sum {
            Some(s) => capped(s + amount),
            None => None,
        }),
{
    match sum {
        Some(s) => {
            let t = s + amount;
            if check_limit(t) {
                Some(t)
            } else {
                None
            }
        },
        None => None,
    }
}

/// `100 * numerator / denominator`, rounded to the nearest whole number,
/// halves up; 0 where the denominator is not positive.
pub open spec fn spec_ratio_hundredths(numerator: int, denominator: int) -> int {
    if denominator > 0 {
        (200 * numerator + denominator) / (2 * denominator)
    } else {
        0
    }
}

/// The ratio in hundredths where the denominator is positive and the
/// doubled, scaled numerator can be represented.
pub open spec fn spec_checked_ratio(numerator: int, denominator: int) -> Option<i128> {
    if denominator > 0 && 200 * numerator + denominator <= i128::MAX {
        Some(spec_ratio_hundredths(numerator, denominator) as i128)
    } else {
        None
    }
}

fn ratio_hundredths(numerator: i128, denominator: i128) -> (ratio: Option<i128>)
    requires
        0 <= numerator <= CASH_LIMIT,
        0 <= denominator <= CASH_LIMIT,
    ensures
        ratio == spec_checked_ratio(numerator as int, denominator as int),
{
    if denominator <= 0 {
        return None;
    }
    let scaled = match numerator.checked_mul(200) {
        Some(scaled) => scaled,
        None => {
            return None;
        },
    };
    let shifted = match scaled.checked_add(denominator) {
        Some(shifted) => shifted,
        None => {
            return None;
        },
    };
    proof {
        vstd::arithmetic::div_mod::lemma_fundamental_div_mod(shifted as int, 2 * denominator);
        vstd::arithmetic::div_mod::lemma_mod_bound(shifted as int, 2 * denominator);
        vstd::arithmetic::div_mod::lemma_div_pos_is_pos(shifted as int, 2 * denominator);
    }
    Some(shifted / (2 * denominator))
}

/// The win rate is at most a hundred percent.
pub proof fn lemma_win_rate_bound(wins: int, trades: int)
    requires
        0 <= wins <= trades,
    ensures
        0 <= spec_ratio_hundredths(100 * wins, trades) <= 10000,
{
    if trades > 0 {
        let n = 200 * (100 * wins) + trades;
        let d = 2 * trades;
        vstd::arithmetic::div_mod::lemma_fundamental_div_mod(n, d);
        vstd::arithmetic::div_mod::lemma_mod_bound(n, d);
        vstd::arithmetic::div_mod::lemma_div_pos_is_pos(n, d);
        assert(n / d <= 10000) by (nonlinear_arith)
            requires
                n == d * (n / d) + n % d,
                0 <= n % d,
                n <= 20001 * trades,
                d == 2 * trades,
                trades > 0,
        ;
    }
}

pub open spec fn count_wins(positions: Seq<Position>) -> nat
    decreases positions.len(),
{
    if positions.len() == 0 {
        0
    } else {
        count_wins(positions.drop_last()) + (if positions.last().booked_pnl > 0 {
            1nat
        } else {
            0nat
        })
    }
}

pub open spec fn count_losses(positions: Seq<Position>) -> nat
    decreases positions.len(),
{
    if positions.len() == 0 {
        0
    } else {
        count_losses(positions.drop_last()) + (if positions.last().booked_pnl < 0 {
            1nat
        } else {
            0nat
        })
    }
}

/// The reported positions a ledger takes over: those that are open and well
/// formed, and the first in their symbol.
pub open spec fn spec_adopt(reported: Seq<Position>) -> Seq<Position>
    decreases reported.len(),
{
    if reported.len() == 0 {
        Seq::empty()
    } else {
        let kept = spec_adopt(reported.drop_last());
        let position = reported.last();
        if position.wf() && !position.is_closed && find_position(kept, position.symbol_name@, 0)
            is None {
            kept.push(position)
        } else {
            kept
        }
    }
}

fn position_is_well_formed(position: &Position) -> (ok: bool)
    ensures
        ok == position.wf(),
{
    check_price(position.average_price) && check_limit(position.open_pnl) && check_limit(
        position.booked_pnl,
    ) && 0 <= position.margin_used && position.margin_used <= CASH_LIMIT && (!position.is_closed
        || (position.quantity == 0 && position.open_pnl == 0)) && (position.is_closed
        || position.quantity > 0)
}

fn margin_share(margin: i128, part: u64, whole: u64) -> (share: i128)
    requires
        0 <= margin <= CASH_LIMIT,
        0 < part < whole,
    ensures
        share == spec_margin_share(margin as int, part as int, whole as int),
        0 <= share <= margin,
{
    proof {
        lemma_margin_share_bounds(margin as int, part as int, whole as int);
        assert(0 <= margin * part <= CASH_LIMIT * u64::MAX) by (nonlinear_arith)
            requires
                0 <= margin <= CASH_LIMIT,
                0 < part <= u64::MAX,
        ;
    }
    match margin.checked_mul(part as i128) {
        Some(product) => product / (whole as i128),
        None => share_wide(margin, part, whole),
    }
}

/// The share of a margin too large to multiply directly, computed from its
/// quotient and remainder by `whole`.
fn share_wide(margin: i128, part: u64, whole: u64) -> (share: i128)
    requires
        0 <= margin <= CASH_LIMIT,
        0 < part < whole,
    ensures
        share == spec_margin_share(margin as int, part as int, whole as int),
{
    let quotient: u128 = (margin as u128) / (whole as u128);
    let remainder: u128 = (margin as u128) % (whole as u128);
    let ghost m = margin as int;
    let ghost p = part as int;
    let ghost w = whole as int;
    let ghost q = m / w;
    let ghost r = m % w;
    let ghost a = (r * p) / w;
    let ghost b = (r * p) % w;
    proof {
        vstd::arithmetic::div_mod::lemma_fundamental_div_mod(m, w);
        vstd::arithmetic::div_mod::lemma_mod_bound(m, w);
        assert(0 <= q * p <= m) by (nonlinear_arith)
            requires
                m == w * q + r,
                0 <= r < w,
                0 < p < w,
                m >= 0,
        ;
        assert(0 <= r * p < w * w) by (nonlinear_arith)
            requires
                0 <= r < w,
                0 < p < w,
        ;
        assert(w * w <= u64::MAX * u64::MAX) by (nonlinear_arith)
            requires
                0 < w <= u64::MAX,
        ;
        vstd::arithmetic::div_mod::lemma_fundamental_div_mod(r * p, w);
        vstd::arithmetic::div_mod::lemma_mod_bound(r * p, w);
        assert(m * p == w * (q * p + a) + b) by (nonlinear_arith)
            requires
                m == w * q + r,
                r * p == w * a + b,
        ;
        vstd::arithmetic::div_mod::lemma_fundamental_div_mod_converse(m * p, w, q * p + a, b);
        lemma_margin_share_bounds(m, p, w);
    }
    let whole_part: u128 = quotient * (part as u128);
    assert(whole_part == q * p);
    let scaled: u128 = remainder * (part as u128);
    assert(scaled == r * p);
    let rest_part: u128 = scaled / (whole as u128);
    assert(rest_part == a);
    (whole_part + rest_part) as i128
}

/// A share of a margin is not negative and not more than the margin.
pub proof fn lemma_margin_share_bounds(margin: int, part: int, whole: int)
    requires
        margin >= 0,
        0 < part < whole,
    ensures
        0 <= spec_margin_share(margin, part, whole) <= margin,
{
    let product = margin * part;
    assert(0 <= product <= margin * whole) by (nonlinear_arith)
        requires
            product == margin * part,
            margin >= 0,
            0 < part < whole,
    ;
    vstd::arithmetic::div_mod::lemma_fundamental_div_mod(product, whole);
    vstd::arithmetic::div_mod::lemma_mod_bound(product, whole);
    let share = product / whole;
    assert(0 <= share <= margin) by (nonlinear_arith)
        requires
            product == whole * share + product % whole,
            0 <= product % whole < whole,
            0 <= product <= margin * whole,
            whole > 0,
    ;
}

/// What `find_position` finds: the first position in the symbol from `from`
/// on, or nothing if no position from there on is in the symbol.
pub proof fn lemma_find_position(positions: Seq<Position>, symbol: Seq<char>, from: int)
    requires
        0 <= from,
    ensures
        match find_position(positions, symbol, from) {
            Some(at) => from <= at < positions.len() && positions[at].symbol_name@ == symbol
                && forall|j: int| from <= j < at ==> (#[trigger] positions[j]).symbol_name@ != symbol,
            None => forall|j: int|
                from <= j < positions.len() ==> (#[trigger] positions[j]).symbol_name@ != symbol,
        },
    decreases positions.len() - from,
{
    if from < positions.len() && positions[from].symbol_name@ != symbol {
        lemma_find_position(positions, symbol, from + 1);
    }
}

proof fn lemma_removed_has_no_position(positions: Seq<Position>, symbol: Seq<char>, at: int)
    requires
        find_position(positions, symbol, 0) == Some(at),
        forall|i: int, j: int|
            0 <= i < j < positions.len() ==> (#[trigger] positions[i]).symbol_name@ != (
            #[trigger] positions[j]).symbol_name@,
    ensures
        find_position(positions.remove(at), symbol, 0) is None,
{
    lemma_find_position(positions, symbol, 0);
    let rest = positions.remove(at);
    lemma_find_position(rest, symbol, 0);
    if find_position(rest, symbol, 0) is Some {
        let k = find_position(rest, symbol, 0)->Some_0;
        if k < at {
            assert(rest[k] == positions[k]);
        } else {
            assert(rest[k] == positions[k + 1]);
            assert(positions[at].symbol_name@ != positions[k + 1].symbol_name@);
        }
    }
}

/// The booked total of a sequence with one more position.
pub proof fn lemma_total_booked_push(positions: Seq<Position>, position: Position)
    ensures
        total_booked(positions.push(position)) == total_booked(positions) + position.booked_pnl,
{
    assert(positions.push(position).drop_last() =~= positions);
}

/// The booked total of a sequence with one position replaced.
pub proof fn lemma_total_booked_update(positions: Seq<Position>, at: int, position: Position)
    requires
        0 <= at < positions.len(),
    ensures
        total_booked(positions.update(at, position)) == total_booked(positions)
            - positions[at].booked_pnl + position.booked_pnl,
    decreases positions.len(),
{
    let updated = positions.update(at, position);
    if at == positions.len() - 1 {
        assert(updated.drop_last() =~= positions.drop_last());
    } else {
        assert(updated.drop_last() =~= positions.drop_last().update(at, position));
        lemma_total_booked_update(positions.drop_last(), at, position);
    }
}

/// The booked total of a sequence with one position taken out.
pub proof fn lemma_total_booked_remove(positions: Seq<Position>, at: int)
    requires
        0 <= at < positions.len(),
    ensures
        total_booked(positions.remove(at)) == total_booked(positions) - positions[at].booked_pnl,
    decreases positions.len(),
{
    let removed = positions.remove(at);
    if at == positions.len() - 1 {
        assert(removed =~= positions.drop_last());
    } else {
        assert(removed.drop_last() =~= positions.drop_last().remove(at));
        assert(removed.last() == positions.last());
        lemma_total_booked_remove(positions.drop_last(), at);
    }
}

proof fn lemma_updated_fits(before: LedgerState, after: LedgerState, at: int)
    requires
        before.wf(),
        0 <= at < before.positions.len(),
        after.positions == before.positions.update(at, after.positions[at]),
        after.positions_closed == before.positions_closed,
    ensures
        after.fits_after(before) <==> (within_limit(after.cash_value) && within_limit(
            after.cash_available,
        ) && within_limit(after.cash_used) && within_limit(after.positions[at].booked_pnl as int)
            && after.positions[at].margin_used <= CASH_LIMIT),
{
    assert forall|i: int| 0 <= i < after.positions.len() && i != at implies within_limit(
        (#[trigger] after.positions[i]).booked_pnl as int,
    ) && after.positions[i].margin_used <= CASH_LIMIT by {
        assert(after.positions[i] == before.positions[i]);
        assert(before.positions[i].wf());
    }
    if before.positions_closed.len() > 0 {
        assert(before.positions_closed[before.positions_closed.len() - 1].wf());
    }
}

proof fn lemma_flip_fits(before: LedgerState, closed: LedgerState, target: LedgerState)
    requires
        before.wf(),
        closed.positions_closed.len() == before.positions_closed.len() + 1,
        target.positions_closed == closed.positions_closed,
        target.positions.len() == closed.positions.len() + 1,
        target.positions.drop_last() == closed.positions,
        target.positions.last().booked_pnl == 0,
        0 <= target.positions.last().margin_used <= CASH_LIMIT,
        target.cash_value == closed.cash_value,
        forall|i: int|
            0 <= i < closed.positions.len() ==> within_limit(
                (#[trigger] closed.positions[i]).booked_pnl as int,
            ) && closed.positions[i].margin_used <= CASH_LIMIT,
    ensures
        target.fits_after(before) <==> (within_limit(target.cash_value) && within_limit(
            target.cash_available,
        ) && within_limit(target.cash_used) && target.positions_closed.len() < u64::MAX
            && within_limit(target.positions_closed.last().booked_pnl as int)),
{
    assert forall|i: int| 0 <= i < target.positions.len() implies within_limit(
        (#[trigger] target.positions[i]).booked_pnl as int,
    ) && target.positions[i].margin_used <= CASH_LIMIT by {
        if i < closed.positions.len() {
            assert(target.positions[i] == target.positions.drop_last()[i]);
        }
    }
}

/// Closing a position out keeps the invariant, where the result can be
/// held, and does not change the imbalance.
pub proof fn lemma_closed_out_keeps_wf(state: LedgerState, at: int, price: Price)
    requires
        state.wf(),
        0 <= at < state.positions.len(),
        price_in_range(price as int),
    ensures
        state.closed_out(at, price).imbalance() == state.imbalance(),
        state.closed_out(at, price).fits_after(state) ==> state.closed_out(at, price).wf(),
        forall|i: int|
            0 <= i < state.closed_out(at, price).positions.len() ==> within_limit(
                (#[trigger] state.closed_out(at, price).positions[i]).booked_pnl as int,
            ) && state.closed_out(at, price).positions[i].margin_used <= CASH_LIMIT,
        state.closed_out(at, price).positions_closed.len() == state.positions_closed.len() + 1,
{
    let next = state.closed_out(at, price);
    let position = state.positions[at];
    assert(position.wf());
    lemma_pnl_within_limit(
        position.side,
        position.average_price as int,
        price as int,
        position.quantity as int,
    );
    lemma_total_booked_remove(state.positions, at);
    lemma_total_booked_push(state.positions_closed, next.positions_closed.last());
    assert forall|i: int| 0 <= i < next.positions.len() implies (#[trigger] next.positions[i]).wf()
        && !next.positions[i].is_closed by {
        if i < at {
            assert(next.positions[i] == state.positions[i]);
        } else {
            assert(next.positions[i] == state.positions[i + 1]);
        }
    }
    assert forall|i: int, j: int| 0 <= i < j < next.positions.len() implies (
    #[trigger] next.positions[i]).symbol_name@ != (#[trigger] next.positions[j]).symbol_name@ by {
        let a = if i < at {
            i
        } else {
            i + 1
        };
        let b = if j < at {
            j
        } else {
            j + 1
        };
        assert(next.positions[i] == state.positions[a]);
        assert(next.positions[j] == state.positions[b]);
    }
    if next.fits_after(state) {
        assert forall|i: int| 0 <= i < next.positions_closed.len() implies (
        #[trigger] next.positions_closed[i]).wf() && next.positions_closed[i].is_closed by {
            if i < state.positions_closed.len() {
                assert(next.positions_closed[i] == state.positions_closed[i]);
            }
        }
    }
}

proof fn lemma_opened_keeps_wf(
    state: LedgerState,
    symbol_name: String,
    brokerage: Brokerage,
    side: PositionSide,
    quantity: u64,
    price: Price,
    margin: int,
)
    requires
        state.wf(),
        quantity > 0,
        price_in_range(price as int),
        0 <= margin <= CASH_LIMIT,
        find_position(state.positions, symbol_name@, 0) is None,
    ensures
        state.opened(symbol_name, brokerage, side, quantity, price, margin).imbalance()
            == state.imbalance(),
        (within_limit(state.cash_available - margin) && within_limit(state.cash_used + margin))
            ==> state.opened(symbol_name, brokerage, side, quantity, price, margin).wf(),
{
    let next = state.opened(symbol_name, brokerage, side, quantity, price, margin);
    lemma_total_booked_push(state.positions, next.positions.last());
    lemma_find_position(state.positions, symbol_name@, 0);
    assert forall|i: int| 0 <= i < next.positions.len() implies (#[trigger] next.positions[i]).wf()
        && !next.positions[i].is_closed by {
        if i < state.positions.len() {
            assert(next.positions[i] == state.positions[i]);
        }
    }
    assert forall|i: int, j: int| 0 <= i < j < next.positions.len() implies (
    #[trigger] next.positions[i]).symbol_name@ != (#[trigger] next.positions[j]).symbol_name@ by {
        assert(next.positions[i] == state.positions[i]);
        if j < state.positions.len() {
            assert(next.positions[j] == state.positions[j]);
        }
    }
}

/// A fill that the ledger accepts keeps its invariant and its
/// imbalance: cash value stays equal to cash available plus cash used plus
/// all booked gains, up to what it differed by before.
pub proof fn lemma_fill_keeps_balance(
    state: LedgerState,
    symbol_name: String,
    brokerage: Brokerage,
    quantity: u64,
    price: Price,
    side: OrderSide,
    margin: i128,
)
    requires
        state.wf(),
    ensures
        match state.fill(symbol_name, brokerage, quantity, price, side, margin) {
            Ok(next) => next.wf() && next.imbalance() == state.imbalance(),
            Err(_) => true,
        },
{
    let outcome = state.fill(symbol_name, brokerage, quantity, price, side, margin);
    if outcome is Ok {
        let next = outcome->Ok_0;
        lemma_find_position(state.positions, symbol_name@, 0);
        match find_position(state.positions, symbol_name@, 0) {
            None => {
                lemma_opened_keeps_wf(
                    state,
                    symbol_name,
                    brokerage,
                    opens_side(side),
                    quantity,
                    price,
                    margin as int,
                );
            },
            Some(at) => {
                let position = state.positions[at];
                assert(position.wf());
                if position.side == opens_side(side) || quantity < position.quantity {
                    lemma_total_booked_update(state.positions, at, next.positions[at]);
                    if position.side == opens_side(side) {
                        lemma_average_between(
                            position.quantity as int,
                            position.average_price as int,
                            quantity as int,
                            price as int,
                        );
                    }
                    lemma_pnl_within_limit(
                        next.positions[at].side,
                        next.positions[at].average_price as int,
                        price as int,
                        next.positions[at].quantity as int,
                    );
                    assert forall|i: int| 0 <= i < next.positions.len() implies (
                    #[trigger] next.positions[i]).wf() && !next.positions[i].is_closed by {
                        if i != at {
                            assert(next.positions[i] == state.positions[i]);
                        }
                    }
                    assert forall|i: int, j: int| 0 <= i < j < next.positions.len() implies (
                    #[trigger] next.positions[i]).symbol_name@ != (
                    #[trigger] next.positions[j]).symbol_name@ by {
                        assert(next.positions[i].symbol_name == state.positions[i].symbol_name);
                        assert(next.positions[j].symbol_name == state.positions[j].symbol_name);
                    }
                } else if quantity == position.quantity {
                    lemma_closed_out_keeps_wf(state, at, price);
                } else {
                    let closed = state.closed_out(at, price);
                    lemma_closed_out_keeps_wf(state, at, price);
                    lemma_removed_has_no_position(state.positions, symbol_name@, at);
                    let rest = (quantity - position.quantity) as u64;
                    let share = spec_margin_share(margin as int, rest as int, quantity as int);
                    lemma_margin_share_bounds(margin as int, rest as int, quantity as int);
                    lemma_flip_keeps_wf(
                        state,
                        closed,
                        symbol_name,
                        brokerage,
                        opens_side(side),
                        rest,
                        price,
                        share,
                    );
                }
            },
        }
    }
}

proof fn lemma_flip_keeps_wf(
    state: LedgerState,
    closed: LedgerState,
    symbol_name: String,
    brokerage: Brokerage,
    side: PositionSide,
    quantity: u64,
    price: Price,
    margin: int,
)
    requires
        state.wf(),
        quantity > 0,
        price_in_range(price as int),
        0 <= margin <= CASH_LIMIT,
        find_position(closed.positions, symbol_name@, 0) is None,
        closed.imbalance() == state.imbalance(),
        closed.opened(symbol_name, brokerage, side, quantity, price, margin).fits_after(state),
        closed.positions_closed.len() > 0,
        forall|i: int|
            0 <= i < closed.positions.len() ==> (#[trigger] closed.positions[i]).wf()
                && !closed.positions[i].is_closed,
        forall|i: int, j: int|
            0 <= i < j < closed.positions.len() ==> (#[trigger] closed.positions[i]).symbol_name@
                != (#[trigger] closed.positions[j]).symbol_name@,
        forall|i: int|
            0 <= i < closed.positions_closed.len() - 1 ==> (
            #[trigger] closed.positions_closed[i]).wf() && closed.positions_closed[i].is_closed,
        closed.positions_closed.last().is_closed,
        closed.positions_closed.last().quantity == 0,
        closed.positions_closed.last().open_pnl == 0,
        closed.positions_closed.last().margin_used == 0,
        price_in_range(closed.positions_closed.last().average_price as int),
    ensures
        closed.opened(symbol_name, brokerage, side, quantity, price, margin).wf(),
        closed.opened(symbol_name, brokerage, side, quantity, price, margin).imbalance()
            == state.imbalance(),
{
    let next = closed.opened(symbol_name, brokerage, side, quantity, price, margin);
    lemma_total_booked_push(closed.positions, next.positions.last());
    lemma_find_position(closed.positions, symbol_name@, 0);
    assert forall|i: int| 0 <= i < next.positions.len() implies (#[trigger] next.positions[i]).wf()
        && !next.positions[i].is_closed by {
        if i < closed.positions.len() {
            assert(next.positions[i] == closed.positions[i]);
        }
    }
    assert forall|i: int, j: int| 0 <= i < j < next.positions.len() implies (
    #[trigger] next.positions[i]).symbol_name@ != (#[trigger] next.positions[j]).symbol_name@ by {
        assert(next.positions[i] == closed.positions[i]);
        if j < closed.positions.len() {
            assert(next.positions[j] == closed.positions[j]);
        }
    }
    assert forall|i: int| 0 <= i < next.positions_closed.len() implies (
    #[trigger] next.positions_closed[i]).wf() && next.positions_closed[i].is_closed by {
        if i == next.positions_closed.len() - 1 {
            assert(next.positions_closed[i] == closed.positions_closed.last());
        }
    }
}

/// The gain of a position in the price domain is within the cash limit.
pub proof fn lemma_pnl_within_limit(side: PositionSide, entry: int, price: int, quantity: int)
    requires
        price_in_range(entry),
        price_in_range(price),
        0 <= quantity <= u64::MAX,
    ensures
        within_limit(spec_pnl(side, entry, price, quantity)),
{
    let d = price - entry;
    assert(-2 * crate::base_data::MAX_PRICE * u64::MAX <= d * quantity <= 2
        * crate::base_data::MAX_PRICE * u64::MAX) by (nonlinear_arith)
        requires
            -2 * crate::base_data::MAX_PRICE <= d <= 2 * crate::base_data::MAX_PRICE,
            0 <= quantity <= u64::MAX,
    ;
}

/// Closing a position keeps the invariant and the imbalance.
pub proof fn lemma_exit_keeps_balance(state: LedgerState, symbol: Seq<char>, price: Price)
    requires
        state.wf(),
    ensures
        match state.exit(symbol, price) {
            Ok(next) => next.wf() && next.imbalance() == state.imbalance(),
            Err(_) => true,
        },
{
    if state.exit(symbol, price) is Ok {
        lemma_find_position(state.positions, symbol, 0);
        match find_position(state.positions, symbol, 0) {
            Some(at) => lemma_closed_out_keeps_wf(state, at, price),
            None => {},
        }
    }
}

/// Revaluing the open positions keeps the invariant and the imbalance.
pub proof fn lemma_marked_keeps_balance(state: LedgerState, slice: Seq<BaseDataEnum>)
    requires
        state.wf(),
    ensures
        state.marked(slice).wf(),
        state.marked(slice).imbalance() == state.imbalance(),
{
    let next = state.marked(slice);
    assert forall|i: int| 0 <= i < next.positions.len() implies (#[trigger] next.positions[i]).wf()
        && !next.positions[i].is_closed && next.positions[i].booked_pnl
        == state.positions[i].booked_pnl && next.positions[i].symbol_name
        == state.positions[i].symbol_name by {
        assert(state.positions[i].wf());
        lemma_mark_keeps_holdings(state.positions[i], slice);
    }
    assert forall|i: int, j: int| 0 <= i < j < next.positions.len() implies (
    #[trigger] next.positions[i]).symbol_name@ != (#[trigger] next.positions[j]).symbol_name@ by {
        assert(next.positions[i].symbol_name == state.positions[i].symbol_name);
        assert(next.positions[j].symbol_name == state.positions[j].symbol_name);
    }
    lemma_same_booked_same_total(state.positions, next.positions);
}

proof fn lemma_same_booked_same_total(a: Seq<Position>, b: Seq<Position>)
    requires
        a.len() == b.len(),
        forall|i: int| 0 <= i < a.len() ==> (#[trigger] a[i]).booked_pnl == b[i].booked_pnl,
    ensures
        total_booked(a) == total_booked(b),
    decreases a.len(),
{
    if a.len() > 0 {
        assert(a.last().booked_pnl == b.last().booked_pnl);
        assert forall|i: int| 0 <= i < a.drop_last().len() implies (
        #[trigger] a.drop_last()[i]).booked_pnl == b.drop_last()[i].booked_pnl by {
            assert(a.drop_last()[i] == a[i]);
        }
        lemma_same_booked_same_total(a.drop_last(), b.drop_last());
    }
}

/// A fill of exactly the quantity held, on the other side, is never refused
/// for want of funds; where the ledger can hold the result, the position is
/// closed with nothing left: the account is flat in the symbol, and the
/// closed position holds no quantity and has booked the gain of the whole
/// quantity.
pub proof fn lemma_equal_opposite_fill_closes(
    state: LedgerState,
    symbol_name: String,
    brokerage: Brokerage,
    price: Price,
    side: OrderSide,
    margin: i128,
)
    requires
        state.wf(),
        state.position_in(symbol_name@) is Some,
        state.position_in(symbol_name@)->Some_0.side != opens_side(side),
        price_in_range(price as int),
        0 <= margin <= CASH_LIMIT,
    ensures
        ({
            let held = state.position_in(symbol_name@)->Some_0;
            let outcome = state.fill(symbol_name, brokerage, held.quantity, price, side, margin);
            &&& outcome != Err::<LedgerState, LedgerError>(LedgerError::InsufficientFunds)
            &&& outcome != Err::<LedgerState, LedgerError>(LedgerError::InvalidOrder)
            &&& outcome is Ok ==> {
                let next = outcome->Ok_0;
                let closed = next.positions_closed.last();
                &&& next.position_in(symbol_name@) is None
                &&& next.positions.len() == state.positions.len() - 1
                &&& next.positions_closed.len() == state.positions_closed.len() + 1
                &&& closed.is_closed
                &&& closed.quantity == 0
                &&& closed.open_pnl == 0
                &&& closed.booked_pnl == held.booked_pnl + spec_pnl(
                    held.side,
                    held.average_price as int,
                    price as int,
                    held.quantity as int,
                )
            }
        }),
{
    lemma_find_position(state.positions, symbol_name@, 0);
    let at = find_position(state.positions, symbol_name@, 0)->Some_0;
    assert(state.positions[at].wf());
    lemma_removed_has_no_position(state.positions, symbol_name@, at);
}

/// One fill against a position: so many units at such a price.
pub struct Reduction {
    pub quantity: u64,
    pub price: Price,
}

/// The position after a fill on the other side of at most the quantity
/// held: the gain of the filled quantity is booked; a fill of the whole
/// quantity closes the position.
pub open spec fn spec_reduce(position: Position, quantity: u64, price: Price) -> Position {
    let gain = spec_pnl(
        position.side,
        position.average_price as int,
        price as int,
        quantity as int,
    );
    if quantity < position.quantity {
        Position {
            quantity: (position.quantity - quantity) as u64,
            booked_pnl: (position.booked_pnl + gain) as i128,
            open_pnl: spec_pnl(
                position.side,
                position.average_price as int,
                price as int,
                position.quantity - quantity,
            ) as i128,
            ..position
        }
    } else {
        Position {
            quantity: 0,
            open_pnl: 0,
            booked_pnl: (position.booked_pnl + gain) as i128,
            is_closed: true,
            margin_used: 0,
            ..position
        }
    }
}

/// The position after a sequence of reductions.
pub open spec fn reduce_all(position: Position, reductions: Seq<Reduction>) -> Position
    decreases reductions.len(),
{
    if reductions.len() == 0 {
        position
    } else {
        spec_reduce(
            reduce_all(position, reductions.drop_last()),
            reductions.last().quantity,
            reductions.last().price,
        )
    }
}

/// The sum of the gains of the reductions, each on its own quantity at its
/// own price against the entry price of the position.
pub open spec fn reduction_gains(position: Position, reductions: Seq<Reduction>) -> int
    decreases reductions.len(),
{
    if reductions.len() == 0 {
        0
    } else {
        reduction_gains(position, reductions.drop_last()) + spec_pnl(
            position.side,
            position.average_price as int,
            reductions.last().price as int,
            reductions.last().quantity as int,
        )
    }
}

/// Whether each reduction is one the ledger applies: the position is still
/// open when it arrives, it takes at most what is held, its price is in the
/// domain, and what is booked stays within the cash limit.
pub open spec fn reductions_apply(position: Position, reductions: Seq<Reduction>) -> bool
    decreases reductions.len(),
{
    reductions.len() == 0 || {
        let before = reduce_all(position, reductions.drop_last());
        let last = reductions.last();
        &&& reductions_apply(position, reductions.drop_last())
        &&& !before.is_closed
        &&& 0 < last.quantity <= before.quantity
        &&& price_in_range(last.price as int)
        &&& within_limit(
            before.booked_pnl + spec_pnl(
                before.side,
                before.average_price as int,
                last.price as int,
                last.quantity as int,
            ),
        )
    }
}

/// What a position has booked is what it had booked before plus the sum of
/// the gains of the reductions applied to it; for a position that starts
/// with nothing booked and is then closed, the booked gain is exactly the
/// sum of the gains of its reductions.
pub proof fn lemma_booked_is_sum_of_reductions(position: Position, reductions: Seq<Reduction>)
    requires
        position.wf(),
        reductions_apply(position, reductions),
    ensures
        reduce_all(position, reductions).booked_pnl == position.booked_pnl + reduction_gains(
            position,
            reductions,
        ),
        reduce_all(position, reductions).side == position.side,
        reduce_all(position, reductions).average_price == position.average_price,
        reduce_all(position, reductions).symbol_name == position.symbol_name,
        reduce_all(position, reductions).id == position.id,
    decreases reductions.len(),
{
    if reductions.len() > 0 {
        lemma_booked_is_sum_of_reductions(position, reductions.drop_last());
    }
}

/// A fill on the other side of at most the quantity held is a reduction of
/// the position: a smaller fill leaves the reduced position open in its
/// place, a fill of the whole quantity appends the reduced position to the
/// closed positions.
pub proof fn lemma_opposite_fill_is_reduction(
    state: LedgerState,
    symbol_name: String,
    brokerage: Brokerage,
    quantity: u64,
    price: Price,
    side: OrderSide,
    margin: i128,
)
    requires
        state.wf(),
        state.position_in(symbol_name@) is Some,
        state.position_in(symbol_name@)->Some_0.side != opens_side(side),
        0 < quantity <= state.position_in(symbol_name@)->Some_0.quantity,
        state.fill(symbol_name, brokerage, quantity, price, side, margin) is Ok,
    ensures
        ({
            let held = state.position_in(symbol_name@)->Some_0;
            let next = state.fill(symbol_name, brokerage, quantity, price, side, margin)->Ok_0;
            if quantity < held.quantity {
                next.position_in(symbol_name@) == Some(spec_reduce(held, quantity, price))
                    && next.positions_closed == state.positions_closed
            } else {
                next.position_in(symbol_name@) is None && next.positions_closed
                    == state.positions_closed.push(spec_reduce(held, quantity, price))
            }
        }),
{
    lemma_find_position(state.positions, symbol_name@, 0);
    let at = find_position(state.positions, symbol_name@, 0)->Some_0;
    let held = state.positions[at];
    let next = state.fill(symbol_name, brokerage, quantity, price, side, margin)->Ok_0;
    if quantity < held.quantity {
        lemma_find_position(next.positions, symbol_name@, 0);
        assert(next.positions[at].symbol_name@ == symbol_name@);
        assert forall|j: int| 0 <= j < at implies (#[trigger] next.positions[j]).symbol_name@
            != symbol_name@ by {
            assert(next.positions[j] == state.positions[j]);
        }
    } else {
        lemma_removed_has_no_position(state.positions, symbol_name@, at);
    }
}

} // verus!
