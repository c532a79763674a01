//! What a strategy has from its broker: the margin for a position, and
//! the requests for what the broker knows, with the reading of their
//! answers.
//!
//! Brokers quote in decimal numbers. The arithmetic on them is that of the
//! `rust_decimal` crate and is taken on trust from it: this module names
//! its results and proves how the margin is put together from them.

use crate::ledgers::{AccountCurrency, AccountInfo};
use crate::messages::data_server_messaging::{DataServerRequest, DataServerResponse, FundForgeError};
use crate::positions::Brokerage;
use crate::symbol_info::{CommissionInfo, SymbolInfo};
use rust_decimal::Decimal;
use vstd::arithmetic::power::pow;
use vstd::prelude::*;

verus! {

/// The largest scale of a decimal number.
pub const MAX_SCALE: u32 = 28;

/// The largest magnitude of the mantissa of a decimal number: 96 bits.
pub const MAX_MANTISSA: i128 = 0xFFFF_FFFF_FFFF_FFFF_FFFF_FFFF;

/// A decimal number: `mantissa / 10^scale`.
#[derive(Clone, Copy, Debug, PartialEq, Eq, Structural)]
pub struct Amount {
    pub mantissa: i128,
    pub scale: u32,
}

impl Amount {
    /// Whether the number is one the decimal arithmetic can take.
    pub open spec fn valid(self) -> bool {
        self.scale <= MAX_SCALE && -MAX_MANTISSA <= self.mantissa <= MAX_MANTISSA
    }

    pub fn is_valid(&self) -> (ok: bool)
        ensures
            ok == self.valid(),
    {
        self.scale <= MAX_SCALE && -MAX_MANTISSA <= self.mantissa && self.mantissa
            <= MAX_MANTISSA
    }

    /// The whole number `n`.
    pub fn whole(n: i64) -> (amount: Self)
        ensures
            amount == (Amount { mantissa: n as i128, scale: 0 }),
            amount.valid(),
    {
        Amount { mantissa: n as i128, scale: 0 }
    }

    /// The number as a count of units of `10^-accuracy`, rounded down.
    pub open spec fn spec_units(self, accuracy: u32) -> int {
        if accuracy >= self.scale {
            self.mantissa * pow(10, (accuracy - self.scale) as nat)
        } else {
            (self.mantissa as int) / pow(10, (self.scale - accuracy) as nat)
        }
    }

    /// The number as a count of units of `10^-accuracy`, rounded down;
    /// `None` where the number is not valid, the accuracy is beyond the
    /// largest scale, or the count does not fit.
    pub fn units(&self, accuracy: u32) -> (count: Option<i128>)
        ensures
            count == (if self.valid() && accuracy <= MAX_SCALE && i128::MIN <= self.spec_units(
                accuracy,
            ) <= i128::MAX {
                Some(self.spec_units(accuracy) as i128)
            } else {
                None
            }),
    {
        if !self.is_valid() || accuracy > MAX_SCALE {
            return None;
        }
        let mut steps: u32 = if accuracy >= self.scale {
            accuracy - self.scale
        } else {
            self.scale - accuracy
        };
        let total = steps;
        let mut factor: i128 = 1;
        proof {
            vstd::arithmetic::power::lemma_pow0(10);
            lemma_ten_to_the_28();
        }
        while steps > 0
            invariant
                steps <= total <= MAX_SCALE,
                factor == pow(10, (total - steps) as nat),
                1 <= factor,
                factor <= pow(10, 28),
                pow(10, 28) == 10000000000000000000000000000int,
            decreases steps,
        {
            proof {
                vstd::arithmetic::power::lemma_pow1(10);
                vstd::arithmetic::power::lemma_pow_adds(10, (total - steps) as nat, 1);
                vstd::arithmetic::power::lemma_pow_increases(10, (total - steps + 1) as nat, 28);
            }
            factor = factor * 10;
            steps = steps - 1;
        }
        if accuracy >= self.scale {
            self.mantissa.checked_mul(factor)
        } else {
            self.mantissa.checked_div_euclid(factor)
        }
    }
}

proof fn lemma_ten_to_the_28()
    ensures
        pow(10, 28) == 10000000000000000000000000000int,
{
    reveal_with_fuel(pow, 8);
    assert(pow(10, 7) == 10000000);
    vstd::arithmetic::power::lemma_pow_adds(10, 7, 7);
    assert(pow(10, 14) == 100000000000000int);
    vstd::arithmetic::power::lemma_pow_adds(10, 14, 14);
}

/// The product of two decimal numbers as `Decimal::checked_mul` computes
/// it: mantissa and scale, or nothing where it overflows.
pub uninterp spec fn decimal_product(a_mantissa: i128, a_scale: u32, b_mantissa: i128, b_scale: u32) -> Option<(i128, u32)>;

/// The quotient of two decimal numbers as `Decimal::checked_div` computes
/// it: mantissa and scale, or nothing where it overflows or the divisor is
/// zero.
pub uninterp spec fn decimal_quotient(a_mantissa: i128, a_scale: u32, b_mantissa: i128, b_scale: u32) -> Option<(i128, u32)>;

/// Mantissa and scale as an amount.
pub open spec fn as_amount(parts: Option<(i128, u32)>) -> Option<Amount> {
    match parts {
        Some((mantissa, scale)) => Some(Amount { mantissa, scale }),
        None => None,
    }
}

/// The product of two amounts.
pub open spec fn spec_times(a: Amount, b: Amount) -> Option<Amount> {
    as_amount(decimal_product(a.mantissa, a.scale, b.mantissa, b.scale))
}

/// The quotient of two amounts.
pub open spec fn spec_over(a: Amount, b: Amount) -> Option<Amount> {
    as_amount(decimal_quotient(a.mantissa, a.scale, b.mantissa, b.scale))
}

/// `Decimal::checked_mul` on the numbers made by
/// `Decimal::from_i128_with_scale`: the product as the crate computes it,
/// read back with `mantissa` and `scale`. A decimal number has a mantissa
/// of at most 96 bits and a scale of at most 28.
#[verifier::external_body]
pub(crate) fn times(a: Amount, b: Amount) -> (product: Option<Amount>)
    requires
        a.valid(),
        b.valid(),
    ensures
        product == as_amount(decimal_product(a.mantissa, a.scale, b.mantissa, b.scale)),
        product is Some ==> product->Some_0.valid(),
{
    let x = Decimal::from_i128_with_scale(a.mantissa, a.scale);
    let y = Decimal::from_i128_with_scale(b.mantissa, b.scale);
    match x.checked_mul(y) {
        Some(d) => Some(Amount { mantissa: d.mantissa(), scale: d.scale() }),
        None => None,
    }
}

/// `Decimal::checked_div` on the numbers made by
/// `Decimal::from_i128_with_scale`: the quotient as the crate computes it,
/// read back with `mantissa` and `scale`. A decimal number has a mantissa
/// of at most 96 bits and a scale of at most 28.
#[verifier::external_body]
pub(crate) fn over(a: Amount, b: Amount) -> (quotient: Option<Amount>)
    requires
        a.valid(),
        b.valid(),
    ensures
        quotient == as_amount(decimal_quotient(a.mantissa, a.scale, b.mantissa, b.scale)),
        quotient is Some ==> quotient->Some_0.valid(),
{
    let x = Decimal::from_i128_with_scale(a.mantissa, a.scale);
    let y = Decimal::from_i128_with_scale(b.mantissa, b.scale);
    match x.checked_div(y) {
        Some(d) => Some(Amount { mantissa: d.mantissa(), scale: d.scale() }),
        None => None,
    }
}

/// Why no margin could be computed.
#[derive(Clone, Copy, Debug, PartialEq, Eq, Structural)]
pub enum MarginError {
    /// An argument is not a number the decimal arithmetic can take.
    InvalidAmount,
    /// The broker does not know the symbol.
    SymbolNotFound,
    /// The margin is beyond what a decimal number can hold, or a division
    /// by zero was asked for.
    Arithmetic,
}

/// What a broker knows about a symbol that bears on its margin.
#[derive(Clone, Copy, Debug, PartialEq, Eq, Structural)]
pub struct MarginTerms {
    /// The margin per contract in US dollars, for brokers that quote one.
    pub per_contract: Option<Amount>,
    /// The divisor of the position value, for brokers that quote leverage.
    pub divisor: Option<Amount>,
}

/// The leverage of the test broker.
pub const TEST_LEVERAGE: i64 = 30;

/// `x * y`, where there is an `x`.
pub open spec fn then_times(x: Option<Amount>, y: Amount) -> Option<Amount> {
    match x {
        Some(x) => spec_times(x, y),
        None => None,
    }
}

/// `x / y`, where there is an `x`.
pub open spec fn then_over(x: Option<Amount>, y: Amount) -> Option<Amount> {
    match x {
        Some(x) => spec_over(x, y),
        None => None,
    }
}

/// The value of a position in the currency of the account, for a broker
/// that quotes leverage.
///
/// A position in a currency pair whose base is the account currency is
/// worth its quantity; one whose quote currency is the account currency is
/// worth quantity times price; any other is worth quantity over price,
/// converted. A position in anything but a currency pair is worth quantity
/// times price, converted.
pub open spec fn spec_position_value(
    quantity: Amount,
    price: Amount,
    account_currency: AccountCurrency,
    base_currency: Option<AccountCurrency>,
    position_currency: AccountCurrency,
    conversion_rate: Amount,
) -> Option<Amount> {
    match base_currency {
        Some(base) => if account_currency == base {
            Some(quantity)
        } else if account_currency == position_currency {
            spec_times(quantity, price)
        } else {
            then_times(spec_over(quantity, price), conversion_rate)
        },
        None => then_times(spec_times(quantity, price), conversion_rate),
    }
}

/// The intraday margin a broker asks for `quantity` at `price`.
///
/// The test broker asks a thirtieth of the converted position value. A
/// broker that quotes a margin per contract asks that margin times the
/// quantity, converted, and nothing for a symbol it quotes none for. A
/// broker that quotes leverage asks the position value over the divisor of
/// the symbol, and does not know a symbol without divisor. The last asks
/// the converted position value.
pub open spec fn spec_intraday_margin(
    brokerage: Brokerage,
    terms: MarginTerms,
    quantity: Amount,
    price: Amount,
    account_currency: AccountCurrency,
    base_currency: Option<AccountCurrency>,
    position_currency: AccountCurrency,
    conversion_rate: Amount,
) -> Result<Option<Amount>, MarginError> {
    let valid = quantity.valid() && price.valid() && conversion_rate.valid() && (
    terms.per_contract is Some ==> terms.per_contract->Some_0.valid()) && (terms.divisor is Some
        ==> terms.divisor->Some_0.valid());
    let converted = then_times(spec_times(quantity, price), conversion_rate);
    if !valid {
        Err(MarginError::InvalidAmount)
    } else {
        match brokerage {
            Brokerage::Test => settled(
                then_over(converted, Amount { mantissa: TEST_LEVERAGE as i128, scale: 0 }),
            ),
            Brokerage::Rithmic => match terms.per_contract {
                Some(margin) => settled(
                    then_times(spec_times(margin, quantity), conversion_rate),
                ),
                None => Ok(None),
            },
            Brokerage::Oanda => match terms.divisor {
                Some(divisor) => settled(
                    then_over(
                        spec_position_value(
                            quantity,
                            price,
                            account_currency,
                            base_currency,
                            position_currency,
                            conversion_rate,
                        ),
                        divisor,
                    ),
                ),
                None => Err(MarginError::SymbolNotFound),
            },
            Brokerage::Bitget => settled(converted),
        }
    }
}

/// A margin that was computed, or the error that it could not be.
pub open spec fn settled(margin: Option<Amount>) -> Result<Option<Amount>, MarginError> {
    match margin {
        Some(m) => Ok(Some(m)),
        None => Err(MarginError::Arithmetic),
    }
}

fn settle(margin: Option<Amount>) -> (outcome: Result<Option<Amount>, MarginError>)
    ensures
        outcome == settled(margin),
{
    match margin {
        Some(m) => Ok(Some(m)),
        None => Err(MarginError::Arithmetic),
    }
}

fn and_times(x: Option<Amount>, y: Amount) -> (product: Option<Amount>)
    requires
        x is Some ==> x->Some_0.valid(),
        y.valid(),
    ensures
        product == then_times(x, y),
        product is Some ==> product->Some_0.valid(),
{
    match x {
        Some(x) => times(x, y),
        None => None,
    }
}

fn and_over(x: Option<Amount>, y: Amount) -> (quotient: Option<Amount>)
    requires
        x is Some ==> x->Some_0.valid(),
        y.valid(),
    ensures
        quotient == then_over(x, y),
        quotient is Some ==> quotient->Some_0.valid(),
{
    match x {
        Some(x) => over(x, y),
        None => None,
    }
}

impl Brokerage {
    /// The intraday margin the broker asks for `quantity` of a symbol at
    /// `price`, in the currency of the account.
    pub fn intraday_margin_required(
        &self,
        terms: MarginTerms,
        quantity: Amount,
        price: Amount,
        account_currency: AccountCurrency,
        base_currency: Option<AccountCurrency>,
        position_currency: AccountCurrency,
        conversion_rate: Amount,
    ) -> (margin: Result<Option<Amount>, MarginError>)
        ensures
            margin == spec_intraday_margin(
                *self,
                terms,
                quantity,
                price,
                account_currency,
                base_currency,
                position_currency,
                conversion_rate,
            ),
            margin is Ok && margin->Ok_0 is Some ==> margin->Ok_0->Some_0.valid(),
    {
        let per_contract_ok = match terms.per_contract {
            Some(m) => m.is_valid(),
            None => true,
        };
        let divisor_ok = match terms.divisor {
            Some(d) => d.is_valid(),
            None => true,
        };
        if !quantity.is_valid() || !price.is_valid() || !conversion_rate.is_valid() || !per_contract_ok
            || !divisor_ok {
            return Err(MarginError::InvalidAmount);
        }
        match self {
            Brokerage::Test => settle(
                and_over(
                    and_times(times(quantity, price), conversion_rate),
                    Amount::whole(TEST_LEVERAGE),
                ),
            ),
            Brokerage::Rithmic => match terms.per_contract {
                Some(margin) => settle(and_times(times(margin, quantity), conversion_rate)),
                None => Ok(None),
            },
            Brokerage::Oanda => match terms.divisor {
                Some(divisor) => {
                    let value = match base_currency {
                        Some(base) => if account_currency == base {
                            Some(quantity)
                        } else if account_currency == position_currency {
                            times(quantity, price)
                        } else {
                            and_times(over(quantity, price), conversion_rate)
                        },
                        None => and_times(times(quantity, price), conversion_rate),
                    };
                    settle(and_over(value, divisor))
                },
                None => Err(MarginError::SymbolNotFound),
            },
            Brokerage::Bitget => settle(and_times(times(quantity, price), conversion_rate)),
        }
    }
}

/// What is said of a response that does not answer the request.
pub open spec fn spec_wrong_response() -> Seq<char> {
    "Incorrect response received at callback"@
}

fn wrong_response() -> (error: FundForgeError)
    ensures
        error matches FundForgeError::ClientSideErrorDebug(text) && text@ == spec_wrong_response(),
{
    FundForgeError::ClientSideErrorDebug("Incorrect response received at callback".to_owned())
}

/// Whether `read` is what the answer to a request yields: the payload of
/// the response that answers it, the error of an error response, and for
/// any other response the complaint that it is the wrong one.
pub open spec fn is_reading<T>(
    read: Result<T, FundForgeError>,
    payload: Option<T>,
    response: DataServerResponse,
) -> bool {
    match payload {
        Some(value) => read == Ok::<T, FundForgeError>(value),
        None => match response {
            DataServerResponse::Error { callback_id, error } => read == Err::<T, FundForgeError>(
                error,
            ),
            _ => read matches Err(FundForgeError::ClientSideErrorDebug(text)) && text@
                == spec_wrong_response(),
        },
    }
}

impl Brokerage {
    /// The request for what the broker knows about a symbol.
    pub fn symbol_info(&self, symbol_name: String) -> (request: DataServerRequest)
        ensures
            request == (DataServerRequest::SymbolInfo {
                callback_id: 0,
                brokerage: *self,
                symbol_name,
            }),
    {
        DataServerRequest::SymbolInfo { callback_id: 0, brokerage: *self, symbol_name }
    }

    /// The request for the accounts held with the broker.
    pub fn accounts(&self) -> (request: DataServerRequest)
        ensures
            request == (DataServerRequest::Accounts { callback_id: 0, brokerage: *self }),
    {
        DataServerRequest::Accounts { callback_id: 0, brokerage: *self }
    }

    /// The request for the names of the symbols the broker trades, as of an
    /// instant written out, or as of now.
    pub fn symbol_names(&self, callback_id: u64, time: Option<String>) -> (request:
        DataServerRequest)
        ensures
            request == (DataServerRequest::SymbolNames { callback_id, brokerage: *self, time }),
    {
        DataServerRequest::SymbolNames { callback_id, brokerage: *self, time }
    }

    /// The request for what a trade in a symbol costs.
    pub fn commission_info(&self, symbol_name: String) -> (request: DataServerRequest)
        ensures
            request == (DataServerRequest::CommissionInfo {
                callback_id: 0,
                brokerage: *self,
                symbol_name,
            }),
    {
        DataServerRequest::CommissionInfo { callback_id: 0, brokerage: *self, symbol_name }
    }

    /// The request for the state of an account.
    pub fn account_info(&self, account_id: String) -> (request: DataServerRequest)
        ensures
            request == (DataServerRequest::AccountInfo {
                callback_id: 0,
                brokerage: *self,
                account_id,
            }),
    {
        DataServerRequest::AccountInfo { callback_id: 0, brokerage: *self, account_id }
    }
}

/// Reads the answer to a request for symbol information.
pub fn read_symbol_info(response: DataServerResponse) -> (read: Result<SymbolInfo, FundForgeError>)
    ensures
        is_reading(
            read,
            match response {
                DataServerResponse::SymbolInfo { callback_id, symbol_info } => Some(symbol_info),
                _ => None,
            },
            response,
        ),
{
    match response {
        DataServerResponse::SymbolInfo { callback_id, symbol_info } => Ok(symbol_info),
        DataServerResponse::Error { callback_id, error } => Err(error),
        _ => Err(wrong_response()),
    }
}

/// Reads the answer to a request for the accounts of a broker.
pub fn read_accounts(response: DataServerResponse) -> (read: Result<Vec<String>, FundForgeError>)
    ensures
        is_reading(
            read,
            match response {
                DataServerResponse::Accounts { callback_id, accounts } => Some(accounts),
                _ => None,
            },
            response,
        ),
{
    match response {
        DataServerResponse::Accounts { callback_id, accounts } => Ok(accounts),
        DataServerResponse::Error { callback_id, error } => Err(error),
        _ => Err(wrong_response()),
    }
}

/// Reads the answer to a request for the symbol names of a broker.
pub fn read_symbol_names(response: DataServerResponse) -> (read: Result<
    Vec<String>,
    FundForgeError,
>)
    ensures
        is_reading(
            read,
            match response {
                DataServerResponse::SymbolNames { callback_id, symbol_names } => Some(
                    symbol_names,
                ),
                _ => None,
            },
            response,
        ),
{
    match response {
        DataServerResponse::SymbolNames { callback_id, symbol_names } => Ok(symbol_names),
        DataServerResponse::Error { callback_id, error } => Err(error),
        _ => Err(wrong_response()),
    }
}

/// Reads the answer to a request for commission information.
pub fn read_commission_info(response: DataServerResponse) -> (read: Result<
    CommissionInfo,
    FundForgeError,
>)
    ensures
        is_reading(
            read,
            match response {
                DataServerResponse::CommissionInfo { callback_id, commission_info } => Some(
                    commission_info,
                ),
                _ => None,
            },
            response,
        ),
{
    match response {
        DataServerResponse::CommissionInfo { callback_id, commission_info } => Ok(
            commission_info,
        ),
        DataServerResponse::Error { callback_id, error } => Err(error),
        _ => Err(wrong_response()),
    }
}

/// Reads the answer to a request for the state of an account.
pub fn read_account_info(response: DataServerResponse) -> (read: Result<
    AccountInfo,
    FundForgeError,
>)
    ensures
        is_reading(
            read,
            match response {
                DataServerResponse::AccountInfo { callback_id, account_info } => Some(
                    account_info,
                ),
                _ => None,
            },
            response,
        ),
{
    match response {
        DataServerResponse::AccountInfo { callback_id, account_info } => Ok(account_info),
        DataServerResponse::Error { callback_id, error } => Err(error),
        _ => Err(wrong_response()),
    }
}

} // verus!
