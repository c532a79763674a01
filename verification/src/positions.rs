//! Positions: what an account holds in one symbol, and what it has earned.
//!
//! Profit and loss is counted in price points times units and is exact.

use crate::base_data::{price_in_range, BaseDataEnum, OrderSide, Price, MAX_PRICE};
use vstd::prelude::*;

verus! {

/// Amounts of money are kept within this magnitude, so that sums of a few
/// of them cannot leave the range of `i128`.
pub const CASH_LIMIT: i128 = 0x100_0000_0000_0000_0000_0000_0000_0000;

pub open spec fn within_limit(amount: int) -> bool {
    -CASH_LIMIT <= amount <= CASH_LIMIT
}

pub fn check_limit(amount: i128) -> (ok: bool)
    ensures
        ok == within_limit(amount as int),
{
    -CASH_LIMIT <= amount && amount <= CASH_LIMIT
}

/// The broker an account is held with.
#[derive(Clone, Copy, Debug, PartialEq, Eq, Structural, Hash)]
pub enum Brokerage {
    Test,
    Rithmic,
    Oanda,
    Bitget,
}

/// The direction of a position.
#[derive(Clone, Copy, Debug, PartialEq, Eq, Structural, Hash)]
pub enum PositionSide {
    Long,
    Short,
}

/// +1 for a long position, which gains when the price rises; -1 for a short
/// one.
pub open spec fn side_sign(side: PositionSide) -> int {
    match side {
        PositionSide::Long => 1,
        PositionSide::Short => -1,
    }
}

/// The position side that a fill on `side` opens.
pub open spec fn opens_side(side: OrderSide) -> PositionSide {
    match side {
        OrderSide::Buy => PositionSide::Long,
        OrderSide::Sell => PositionSide::Short,
    }
}

/// What `quantity` units entered at `entry` have gained at `price`.
pub open spec fn spec_pnl(side: PositionSide, entry: int, price: int, quantity: int) -> int {
    side_sign(side) * ((price - entry) * quantity)
}

/// What `quantity` units entered at `entry` have gained at `price`.
pub fn pnl(side: PositionSide, entry: Price, price: Price, quantity: u64) -> (gain: i128)
    requires
        price_in_range(entry as int),
        price_in_range(price as int),
    ensures
        gain == spec_pnl(side, entry as int, price as int, quantity as int),
        -2 * MAX_PRICE * u64::MAX <= gain <= 2 * MAX_PRICE * u64::MAX,
        within_limit(gain as int),
{
    let move_: i128 = price as i128 - entry as i128;
    proof {
        let d = price - entry;
        let q = quantity as int;
        assert(-2 * MAX_PRICE * u64::MAX <= d * q <= 2 * MAX_PRICE * u64::MAX)
            by (nonlinear_arith)
            requires
                -2 * MAX_PRICE <= d <= 2 * MAX_PRICE,
                0 <= q <= u64::MAX,
        ;
    }
    let gross: i128 = move_ * (quantity as i128);
    match side {
        PositionSide::Long => gross,
        PositionSide::Short => -gross,
    }
}

/// The price at which `old_quantity` units bought at `old_price` and
/// `quantity` units bought at `price` were bought on average, rounded down
/// to a whole price point.
pub open spec fn spec_average_price(
    old_quantity: int,
    old_price: int,
    quantity: int,
    price: int,
) -> int {
    (old_quantity * old_price + quantity * price) / (old_quantity + quantity)
}

/// The average lies between the two prices.
pub proof fn lemma_average_between(old_quantity: int, old_price: int, quantity: int, price: int)
    requires
        old_quantity >= 0,
        quantity >= 0,
        old_quantity + quantity > 0,
    ensures
        old_price <= price ==> old_price <= spec_average_price(
            old_quantity,
            old_price,
            quantity,
            price,
        ) <= price,
        price <= old_price ==> price <= spec_average_price(
            old_quantity,
            old_price,
            quantity,
            price,
        ) <= old_price,
{
    let total = old_quantity + quantity;
    let sum = old_quantity * old_price + quantity * price;
    let lo = if old_price <= price {
        old_price
    } else {
        price
    };
    let hi = if old_price <= price {
        price
    } else {
        old_price
    };
    assert(total * lo <= sum <= total * hi) by (nonlinear_arith)
        requires
            total == old_quantity + quantity,
            sum == old_quantity * old_price + quantity * price,
            old_quantity >= 0,
            quantity >= 0,
            lo <= old_price <= hi,
            lo <= price <= hi,
    ;
    vstd::arithmetic::div_mod::lemma_fundamental_div_mod(sum, total);
    vstd::arithmetic::div_mod::lemma_mod_bound(sum, total);
    let avg = sum / total;
    assert(lo <= avg <= hi) by (nonlinear_arith)
        requires
            total > 0,
            sum == total * avg + sum % total,
            0 <= sum % total < total,
            total * lo <= sum <= total * hi,
    ;
}

/// The average entry price after `quantity` more units at `price`.
pub fn average_price(old_quantity: u64, old_price: Price, quantity: u64, price: Price) -> (average:
    Price)
    requires
        price_in_range(old_price as int),
        price_in_range(price as int),
        old_quantity + quantity > 0,
    ensures
        average == spec_average_price(
            old_quantity as int,
            old_price as int,
            quantity as int,
            price as int,
        ),
        price_in_range(average as int),
{
    proof {
        lemma_average_between(old_quantity as int, old_price as int, quantity as int, price as int);
        let a = old_quantity as int;
        let b = quantity as int;
        let x = old_price as int;
        let y = price as int;
        assert(-MAX_PRICE * u64::MAX <= a * x <= MAX_PRICE * u64::MAX) by (nonlinear_arith)
            requires
                0 <= a <= u64::MAX,
                -MAX_PRICE <= x <= MAX_PRICE,
        ;
        assert(-MAX_PRICE * u64::MAX <= b * y <= MAX_PRICE * u64::MAX) by (nonlinear_arith)
            requires
                0 <= b <= u64::MAX,
                -MAX_PRICE <= y <= MAX_PRICE,
        ;
    }
    let sum: i128 = (old_quantity as i128) * (old_price as i128) + (quantity as i128) * (
    price as i128);
    let total: i128 = old_quantity as i128 + quantity as i128;
    match sum.checked_div_euclid(total) {
        Some(average) => average as i64,
        None => vstd::pervasive::unreached(),
    }
}

/// What an account holds in one symbol.
#[derive(Debug, PartialEq, Eq)]
pub struct Position {
    pub symbol_name: String,
    pub brokerage: Brokerage,
    pub side: PositionSide,
    pub quantity: u64,
    pub average_price: Price,
    /// Gain of the open quantity at the last price seen.
    pub open_pnl: i128,
    /// Gain realised by the fills that reduced the position.
    pub booked_pnl: i128,
    pub highest_recoded_price: Price,
    pub lowest_recoded_price: Price,
    pub is_closed: bool,
    /// Margin reserved for the position.
    pub margin_used: i128,
    /// The number of the position among those of its symbol, from 1.
    pub id: u64,
}

impl Clone for Position {
    fn clone(&self) -> (copy: Self)
        ensures
            copy == *self,
    {
        Position {
            symbol_name: self.symbol_name.clone(),
            brokerage: self.brokerage,
            side: self.side,
            quantity: self.quantity,
            average_price: self.average_price,
            open_pnl: self.open_pnl,
            booked_pnl: self.booked_pnl,
            highest_recoded_price: self.highest_recoded_price,
            lowest_recoded_price: self.lowest_recoded_price,
            is_closed: self.is_closed,
            margin_used: self.margin_used,
            id: self.id,
        }
    }
}

/// The price at which a datum values a position: the trade price, the close
/// of a candle, and for quotes and quote bars the ask for a long position
/// and the bid for a short one. Fundamentals carry no price.
pub open spec fn spec_mark_price(data: BaseDataEnum, side: PositionSide) -> Option<Price> {
    match data {
        BaseDataEnum::Tick(x) => Some(x.price),
        BaseDataEnum::Price(x) => Some(x.price),
        BaseDataEnum::Candle(x) => Some(x.close),
        BaseDataEnum::Quote(x) => Some(
            match side {
                PositionSide::Long => x.ask,
                PositionSide::Short => x.bid,
            },
        ),
        BaseDataEnum::QuoteBar(x) => Some(
            match side {
                PositionSide::Long => x.ask_close,
                PositionSide::Short => x.bid_close,
            },
        ),
        BaseDataEnum::Fundamental(_) => None,
    }
}

/// The highest and lowest price a datum shows to a position.
pub open spec fn spec_extremes(data: BaseDataEnum, side: PositionSide) -> (Price, Price) {
    match data {
        BaseDataEnum::Candle(x) => (x.high, x.low),
        BaseDataEnum::QuoteBar(x) => match side {
            PositionSide::Long => (x.ask_high, x.ask_low),
            PositionSide::Short => (x.bid_high, x.bid_low),
        },
        _ => match spec_mark_price(data, side) {
            Some(p) => (p, p),
            None => (0, 0),
        },
    }
}

impl Position {
    /// An open position: in the domain, with something held.
    pub open spec fn wf(self) -> bool {
        &&& price_in_range(self.average_price as int)
        &&& within_limit(self.open_pnl as int)
        &&& within_limit(self.booked_pnl as int)
        &&& 0 <= self.margin_used <= CASH_LIMIT
        &&& (self.is_closed ==> self.quantity == 0 && self.open_pnl == 0)
        &&& (!self.is_closed ==> self.quantity > 0)
    }

    /// A new position that has earned nothing yet.
    pub fn enter(
        symbol_name: String,
        brokerage: Brokerage,
        side: PositionSide,
        quantity: u64,
        average_price: Price,
        id: u64,
    ) -> (position: Self)
        ensures
            position == (Position {
                symbol_name,
                brokerage,
                side,
                quantity,
                average_price,
                open_pnl: 0,
                booked_pnl: 0,
                highest_recoded_price: average_price,
                lowest_recoded_price: average_price,
                is_closed: false,
                margin_used: 0,
                id,
            }),
    {
        Position {
            symbol_name,
            brokerage,
            side,
            quantity,
            average_price,
            open_pnl: 0,
            booked_pnl: 0,
            highest_recoded_price: average_price,
            lowest_recoded_price: average_price,
            is_closed: false,
            margin_used: 0,
            id,
        }
    }

    /// Whether a datum revalues the position: the position is open, the
    /// datum is of its symbol, and it carries prices that lie in the domain.
    pub open spec fn marks(self, data: BaseDataEnum) -> bool {
        &&& !self.is_closed
        &&& data.spec_symbol().name@ == self.symbol_name@
        &&& spec_mark_price(data, self.side) is Some
        &&& data.well_formed()
    }

    /// The position after one datum. A datum that marks it moves the
    /// recorded extremes and sets the open gain to the gain at the datum's
    /// price; any other datum changes nothing.
    pub open spec fn spec_mark(self, data: BaseDataEnum) -> Position {
        if self.marks(data) {
            let price = spec_mark_price(data, self.side)->Some_0;
            let (high, low) = spec_extremes(data, self.side);
            Position {
                highest_recoded_price: if high > self.highest_recoded_price {
                    high
                } else {
                    self.highest_recoded_price
                },
                lowest_recoded_price: if low < self.lowest_recoded_price {
                    low
                } else {
                    self.lowest_recoded_price
                },
                open_pnl: spec_pnl(
                    self.side,
                    self.average_price as int,
                    price as int,
                    self.quantity as int,
                ) as i128,
                ..self
            }
        } else {
            self
        }
    }

    /// The position after the data of a slice, in order.
    pub open spec fn spec_mark_all(self, slice: Seq<BaseDataEnum>) -> Position
        decreases slice.len(),
    {
        if slice.len() == 0 {
            self
        } else {
            self.spec_mark_all(slice.drop_last()).spec_mark(slice.last())
        }
    }

    fn mark(&mut self, data: &BaseDataEnum)
        requires
            old(self).wf(),
        ensures
            final(self).wf(),
            *final(self) == old(self).spec_mark(*data),
    {
        if self.is_closed || !data.is_well_formed() {
            return ;
        }
        if !(data.symbol().name == self.symbol_name) {
            return ;
        }
        let (price, high, low) = match data {
            BaseDataEnum::Tick(x) => (x.price, x.price, x.price),
            BaseDataEnum::Price(x) => (x.price, x.price, x.price),
            BaseDataEnum::Candle(x) => (x.close, x.high, x.low),
            BaseDataEnum::Quote(x) => match self.side {
                PositionSide::Long => (x.ask, x.ask, x.ask),
                PositionSide::Short => (x.bid, x.bid, x.bid),
            },
            BaseDataEnum::QuoteBar(x) => match self.side {
                PositionSide::Long => (x.ask_close, x.ask_high, x.ask_low),
                PositionSide::Short => (x.bid_close, x.bid_high, x.bid_low),
            },
            BaseDataEnum::Fundamental(_) => {
                return ;
            },
        };
        if high > self.highest_recoded_price {
            self.highest_recoded_price = high;
        }
        if low < self.lowest_recoded_price {
            self.lowest_recoded_price = low;
        }
        self.open_pnl = pnl(self.side, self.average_price, price, self.quantity);
    }

    /// Revalues the position with the data of a slice.
    pub fn update_base_data(&mut self, time_slice: &Vec<BaseDataEnum>)
        requires
            old(self).wf(),
        ensures
            final(self).wf(),
            *final(self) == old(self).spec_mark_all(time_slice@),
    {
        let mut i: usize = 0;
        assert(time_slice@.take(0) =~= Seq::<BaseDataEnum>::empty());
        while i < time_slice.len()
            invariant
                i <= time_slice.len(),
                self.wf(),
                *self == old(self).spec_mark_all(time_slice@.take(i as int)),
            decreases time_slice.len() - i,
        {
            proof {
                assert(time_slice@.take(i + 1).drop_last() =~= time_slice@.take(i as int));
            }
            self.mark(&time_slice[i]);
            i = i + 1;
        }
        assert(time_slice@.take(time_slice.len() as int) =~= time_slice@);
    }
}

/// Revaluing a position books nothing and leaves its identity, side,
/// quantity, entry price and margin alone.
pub proof fn lemma_mark_keeps_holdings(position: Position, slice: Seq<BaseDataEnum>)
    requires
        position.wf(),
    ensures
        position.spec_mark_all(slice).wf(),
        position.spec_mark_all(slice).booked_pnl == position.booked_pnl,
        position.spec_mark_all(slice).quantity == position.quantity,
        position.spec_mark_all(slice).side == position.side,
        position.spec_mark_all(slice).average_price == position.average_price,
        position.spec_mark_all(slice).margin_used == position.margin_used,
        position.spec_mark_all(slice).symbol_name == position.symbol_name,
        position.spec_mark_all(slice).is_closed == position.is_closed,
        position.spec_mark_all(slice).id == position.id,
    decreases slice.len(),
{
    if slice.len() > 0 {
        lemma_mark_keeps_holdings(position, slice.drop_last());
        let before = position.spec_mark_all(slice.drop_last());
        let data = slice.last();
        if before.marks(data) {
            let price = spec_mark_price(data, before.side)->Some_0;
            let d = price - before.average_price;
            let q = before.quantity as int;
            assert(-2 * MAX_PRICE * u64::MAX <= d * q <= 2 * MAX_PRICE * u64::MAX)
                by (nonlinear_arith)
                requires
                    -2 * MAX_PRICE <= d <= 2 * MAX_PRICE,
                    0 <= q <= u64::MAX,
            ;
        }
    }
}

} // verus!
