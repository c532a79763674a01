//! What a broker tells about a symbol.

use crate::base_data::Price;
use crate::ledgers::AccountCurrency;
use vstd::prelude::*;

verus! {

/// The exchange a future trades on.
#[derive(Clone, Copy, Debug, PartialEq, Eq, Structural, Hash)]
pub enum FuturesExchange {
    CBOT,
    CME,
    COMEX,
    NYMEX,
    MGEX,
    NYBOT,
}

/// How a symbol is priced.
#[derive(Debug, PartialEq, Eq)]
pub struct SymbolInfo {
    pub symbol_name: String,
    pub pnl_currency: AccountCurrency,
    pub value_per_tick: Price,
    pub tick_size: Price,
    pub decimal_accuracy: u32,
}

impl SymbolInfo {
    pub fn new(
        symbol_name: String,
        pnl_currency: AccountCurrency,
        value_per_tick: Price,
        tick_size: Price,
        decimal_accuracy: u32,
    ) -> (info: Self)
        ensures
            info == (SymbolInfo {
                symbol_name,
                pnl_currency,
                value_per_tick,
                tick_size,
                decimal_accuracy,
            }),
    {
        Self { symbol_name, pnl_currency, value_per_tick, tick_size, decimal_accuracy }
    }
}

impl Clone for SymbolInfo {
    fn clone(&self) -> (copy: Self)
        ensures
            copy == *self,
    {
        SymbolInfo {
            symbol_name: self.symbol_name.clone(),
            pnl_currency: self.pnl_currency,
            value_per_tick: self.value_per_tick,
            tick_size: self.tick_size,
            decimal_accuracy: self.decimal_accuracy,
        }
    }
}

/// What a trade costs.
#[derive(Clone, Copy, Debug, PartialEq, Eq, Structural)]
pub struct CommissionInfo {
    /// The commission per side, in price points.
    pub per_side: Price,
    pub currency: AccountCurrency,
}

/// The contract of a future that is the front month.
#[derive(Debug, PartialEq, Eq)]
pub struct FrontMonthInfo {
    pub exchange: FuturesExchange,
    pub symbol_name: String,
    pub symbol_code: String,
}

impl Clone for FrontMonthInfo {
    fn clone(&self) -> (copy: Self)
        ensures
            copy == *self,
    {
        FrontMonthInfo {
            exchange: self.exchange,
            symbol_name: self.symbol_name.clone(),
            symbol_code: self.symbol_code.clone(),
        }
    }
}

} // verus!
