//! Requests to the data server and its responses.
//!
//! A request that expects a response carries a callback id; the response
//! carries the same id. Messages of a stream carry none.

use crate::base_data::{OrderSide, Price};
use crate::ledgers::{AccountCurrency, AccountInfo};
use crate::orders::{OrderRequest, OrderUpdateEvent};
use crate::positions::{Brokerage, PositionSide};
use crate::strategy_events::StrategyMode;
use crate::subscriptions::{
    BaseDataType, DataSubscription, DataVendor, MarketType, SubscriptionResolutionType, Symbol,
};
use crate::symbol_info::{CommissionInfo, FrontMonthInfo, FuturesExchange, SymbolInfo};
use vstd::prelude::*;
use vstd::string::StringExecFns;

verus! {

/// What the server answers to a stream request.
#[derive(Debug, PartialEq, Eq)]
pub enum StreamResponse {
    SubscribeBaseData(DataSubscription),
    CreateConsolidator { primary: DataSubscription, secondary: DataSubscription },
    UnSubscribeBaseData(DataSubscription),
}

/// The cash of an account.
#[derive(Clone, Copy, Debug, PartialEq, Eq, Structural)]
pub struct AccountState {
    pub balance: i128,
    pub equity_used: i128,
    pub equity_available: i128,
}

/// A request to start or stop a stream.
#[derive(Debug, PartialEq, Eq)]
pub enum StreamRequest {
    Subscribe(DataSubscription),
    Unsubscribe(DataSubscription),
}

/// An account at a broker.
#[derive(Debug, PartialEq, Eq)]
pub struct Account {
    pub brokerage: Brokerage,
    pub account_id: String,
}

/// What went wrong.
#[derive(Debug, PartialEq, Eq)]
pub enum FundForgeError {
    /// The API key used to authenticate the request is invalid.
    InvalidApiKey,
    /// The type of request is invalid.
    InvalidRequestType(String),
    /// The server failed.
    ServerErrorDebug(String),
    /// The client failed.
    ClientSideErrorDebug(String),
    /// Something failed and it is not known where.
    UnknownBlameError(String),
    /// There is no connection to the vendor or broker.
    ConnectionNotFound(String),
}

impl FundForgeError {
    /// The text that goes before the detail of the error.
    pub open spec fn spec_prefix(self) -> Seq<char> {
        match self {
            FundForgeError::InvalidApiKey => "InvalidApiKey"@,
            FundForgeError::InvalidRequestType(_) => "InvalidRequestType: "@,
            FundForgeError::ServerErrorDebug(_) => "ServerErrorDebug: "@,
            FundForgeError::ClientSideErrorDebug(_) => "ClientSideErrorDebug: "@,
            FundForgeError::UnknownBlameError(_) => "UnknownBlameError: "@,
            FundForgeError::ConnectionNotFound(_) => "ConnectionNotFound: "@,
        }
    }

    /// The detail of the error; empty where it has none.
    pub open spec fn spec_detail(self) -> Seq<char> {
        match self {
            FundForgeError::InvalidApiKey => Seq::empty(),
            FundForgeError::InvalidRequestType(detail) => detail@,
            FundForgeError::ServerErrorDebug(detail) => detail@,
            FundForgeError::ClientSideErrorDebug(detail) => detail@,
            FundForgeError::UnknownBlameError(detail) => detail@,
            FundForgeError::ConnectionNotFound(detail) => detail@,
        }
    }

    /// The error in words: its kind, then its detail.
    pub fn message(&self) -> (text: String)
        ensures
            text@ == self.spec_prefix() + self.spec_detail(),
    {
        match self {
            FundForgeError::InvalidApiKey => {
                let text = String::from_str("InvalidApiKey");
                assert(text@ =~= self.spec_prefix() + self.spec_detail());
                text
            },
            FundForgeError::InvalidRequestType(detail) => String::from_str(
                "InvalidRequestType: ",
            ).concat(detail.as_str()),
            FundForgeError::ServerErrorDebug(detail) => String::from_str(
                "ServerErrorDebug: ",
            ).concat(detail.as_str()),
            FundForgeError::ClientSideErrorDebug(detail) => String::from_str(
                "ClientSideErrorDebug: ",
            ).concat(detail.as_str()),
            FundForgeError::UnknownBlameError(detail) => String::from_str(
                "UnknownBlameError: ",
            ).concat(detail.as_str()),
            FundForgeError::ConnectionNotFound(detail) => String::from_str(
                "ConnectionNotFound: ",
            ).concat(detail.as_str()),
        }
    }
}

/// What a strategy asks of the data server.
#[derive(Debug, PartialEq, Eq)]
#[allow(inconsistent_fields)]
pub enum DataServerRequest {
    Register(StrategyMode),
    SymbolsVendor {
        callback_id: u64,
        data_vendor: DataVendor,
        market_type: MarketType,
        time: Option<String>,
    },
    BaseDataTypes { callback_id: u64, data_vendor: DataVendor },
    Resolutions { callback_id: u64, data_vendor: DataVendor, market_type: MarketType },
    WarmUpResolutions { callback_id: u64, data_vendor: DataVendor, market_type: MarketType },
    AccountInfo { callback_id: u64, brokerage: Brokerage, account_id: String },
    Markets { callback_id: u64, data_vendor: DataVendor },
    TickSize { callback_id: u64, data_vendor: DataVendor, symbol_name: String },
    DecimalAccuracy { callback_id: u64, data_vendor: DataVendor, symbol_name: String },
    SymbolInfo { callback_id: u64, brokerage: Brokerage, symbol_name: String },
    StreamRequest { request: StreamRequest },
    OrderRequest { request: OrderRequest },
    PrimarySubscriptionFor { callback_id: u64, subscription: DataSubscription },
    CommissionInfo { callback_id: u64, brokerage: Brokerage, symbol_name: String },
    ExchangeRate {
        callback_id: u64,
        from_currency: AccountCurrency,
        to_currency: AccountCurrency,
        date_time_string: String,
        data_vendor: DataVendor,
        side: OrderSide,
    },
    GetCompressedHistoricalData {
        callback_id: u64,
        subscriptions: Vec<DataSubscription>,
        from_time: String,
        to_time: String,
    },
    FrontMonthInfo {
        callback_id: u64,
        symbol_name: String,
        exchange: FuturesExchange,
        brokerage: Brokerage,
    },
    Accounts { callback_id: u64, brokerage: Brokerage },
    SymbolNames { callback_id: u64, brokerage: Brokerage, time: Option<String> },
    RegisterStreamer { port: u16, secs: u64, subsec: u32 },
}

impl DataServerRequest {
    /// Whether the request expects a response, and so carries a callback
    /// id.
    pub open spec fn expects_response(self) -> bool {
        !(self is Register || self is StreamRequest || self is OrderRequest
            || self is RegisterStreamer)
    }

    /// The callback id of the request, if it carries one.
    pub open spec fn spec_callback_id(self) -> Option<u64> {
        match self {
            DataServerRequest::SymbolsVendor { callback_id, .. } => Some(callback_id),
            DataServerRequest::BaseDataTypes { callback_id, .. } => Some(callback_id),
            DataServerRequest::Resolutions { callback_id, .. } => Some(callback_id),
            DataServerRequest::WarmUpResolutions { callback_id, .. } => Some(callback_id),
            DataServerRequest::AccountInfo { callback_id, .. } => Some(callback_id),
            DataServerRequest::Markets { callback_id, .. } => Some(callback_id),
            DataServerRequest::TickSize { callback_id, .. } => Some(callback_id),
            DataServerRequest::DecimalAccuracy { callback_id, .. } => Some(callback_id),
            DataServerRequest::SymbolInfo { callback_id, .. } => Some(callback_id),
            DataServerRequest::PrimarySubscriptionFor { callback_id, .. } => Some(callback_id),
            DataServerRequest::CommissionInfo { callback_id, .. } => Some(callback_id),
            DataServerRequest::ExchangeRate { callback_id, .. } => Some(callback_id),
            DataServerRequest::GetCompressedHistoricalData { callback_id, .. } => Some(
                callback_id,
            ),
            DataServerRequest::FrontMonthInfo { callback_id, .. } => Some(callback_id),
            DataServerRequest::Accounts { callback_id, .. } => Some(callback_id),
            DataServerRequest::SymbolNames { callback_id, .. } => Some(callback_id),
            _ => None,
        }
    }

    /// The request with its callback id set to `id`; a request that carries
    /// none is unchanged.
    pub open spec fn spec_with_callback_id(self, id: u64) -> DataServerRequest {
        match self {
            DataServerRequest::SymbolsVendor { callback_id, data_vendor, market_type, time } =>
                DataServerRequest::SymbolsVendor { callback_id: id, data_vendor, market_type, time },
            DataServerRequest::BaseDataTypes { callback_id, data_vendor } =>
                DataServerRequest::BaseDataTypes { callback_id: id, data_vendor },
            DataServerRequest::Resolutions { callback_id, data_vendor, market_type } =>
                DataServerRequest::Resolutions { callback_id: id, data_vendor, market_type },
            DataServerRequest::WarmUpResolutions { callback_id, data_vendor, market_type } =>
                DataServerRequest::WarmUpResolutions { callback_id: id, data_vendor, market_type },
            DataServerRequest::AccountInfo { callback_id, brokerage, account_id } =>
                DataServerRequest::AccountInfo { callback_id: id, brokerage, account_id },
            DataServerRequest::Markets { callback_id, data_vendor } => DataServerRequest::Markets {
                callback_id: id,
                data_vendor,
            },
            DataServerRequest::TickSize { callback_id, data_vendor, symbol_name } =>
                DataServerRequest::TickSize { callback_id: id, data_vendor, symbol_name },
            DataServerRequest::DecimalAccuracy { callback_id, data_vendor, symbol_name } =>
                DataServerRequest::DecimalAccuracy { callback_id: id, data_vendor, symbol_name },
            DataServerRequest::SymbolInfo { callback_id, brokerage, symbol_name } =>
                DataServerRequest::SymbolInfo { callback_id: id, brokerage, symbol_name },
            DataServerRequest::PrimarySubscriptionFor { callback_id, subscription } =>
                DataServerRequest::PrimarySubscriptionFor { callback_id: id, subscription },
            DataServerRequest::CommissionInfo { callback_id, brokerage, symbol_name } =>
                DataServerRequest::CommissionInfo { callback_id: id, brokerage, symbol_name },
            DataServerRequest::ExchangeRate {
                callback_id,
                from_currency,
                to_currency,
                date_time_string,
                data_vendor,
                side,
            } => DataServerRequest::ExchangeRate {
                callback_id: id,
                from_currency,
                to_currency,
                date_time_string,
                data_vendor,
                side,
            },
            DataServerRequest::GetCompressedHistoricalData {
                callback_id,
                subscriptions,
                from_time,
                to_time,
            } => DataServerRequest::GetCompressedHistoricalData {
                callback_id: id,
                subscriptions,
                from_time,
                to_time,
            },
            DataServerRequest::FrontMonthInfo { callback_id, symbol_name, exchange, brokerage } =>
                DataServerRequest::FrontMonthInfo { callback_id: id, symbol_name, exchange, brokerage },
            DataServerRequest::Accounts { callback_id, brokerage } => DataServerRequest::Accounts {
                callback_id: id,
                brokerage,
            },
            DataServerRequest::SymbolNames { callback_id, brokerage, time } =>
                DataServerRequest::SymbolNames { callback_id: id, brokerage, time },
            other => other,
        }
    }

    /// Sets the callback id of a request that carries one.
    pub fn set_callback_id(&mut self, id: u64)
        ensures
            *final(self) == old(self).spec_with_callback_id(id),
    {
        match self {
            DataServerRequest::SymbolsVendor { callback_id, .. } => {
                *callback_id = id
            },
            DataServerRequest::Resolutions { callback_id, .. } => {
                *callback_id = id
            },
            DataServerRequest::AccountInfo { callback_id, .. } => {
                *callback_id = id
            },
            DataServerRequest::BaseDataTypes { callback_id, .. } => {
                *callback_id = id
            },
            DataServerRequest::Markets { callback_id, .. } => {
                *callback_id = id
            },
            DataServerRequest::TickSize { callback_id, .. } => {
                *callback_id = id
            },
            DataServerRequest::DecimalAccuracy { callback_id, .. } => {
                *callback_id = id
            },
            DataServerRequest::SymbolInfo { callback_id, .. } => {
                *callback_id = id
            },
            DataServerRequest::StreamRequest { .. } => {},
            DataServerRequest::Register(_) => {},
            DataServerRequest::OrderRequest { .. } => {},
            DataServerRequest::Accounts { callback_id, .. } => {
                *callback_id = id
            },
            DataServerRequest::PrimarySubscriptionFor { callback_id, .. } => {
                *callback_id = id
            },
            DataServerRequest::SymbolNames { callback_id, .. } => {
                *callback_id = id
            },
            DataServerRequest::RegisterStreamer { .. } => {},
            DataServerRequest::CommissionInfo { callback_id, .. } => {
                *callback_id = id
            },
            DataServerRequest::WarmUpResolutions { callback_id, .. } => {
                *callback_id = id
            },
            DataServerRequest::ExchangeRate { callback_id, .. } => {
                *callback_id = id
            },
            DataServerRequest::GetCompressedHistoricalData { callback_id, .. } => {
                *callback_id = id
            },
            DataServerRequest::FrontMonthInfo { callback_id, .. } => {
                *callback_id = id
            },
        }
    }

    /// The callback id of the request, if it carries one.
    pub fn get_callback_id(&self) -> (id: Option<u64>)
        ensures
            id == self.spec_callback_id(),
    {
        match self {
            DataServerRequest::SymbolsVendor { callback_id, .. } => Some(*callback_id),
            DataServerRequest::BaseDataTypes { callback_id, .. } => Some(*callback_id),
            DataServerRequest::Resolutions { callback_id, .. } => Some(*callback_id),
            DataServerRequest::WarmUpResolutions { callback_id, .. } => Some(*callback_id),
            DataServerRequest::AccountInfo { callback_id, .. } => Some(*callback_id),
            DataServerRequest::Markets { callback_id, .. } => Some(*callback_id),
            DataServerRequest::TickSize { callback_id, .. } => Some(*callback_id),
            DataServerRequest::DecimalAccuracy { callback_id, .. } => Some(*callback_id),
            DataServerRequest::SymbolInfo { callback_id, .. } => Some(*callback_id),
            DataServerRequest::PrimarySubscriptionFor { callback_id, .. } => Some(*callback_id),
            DataServerRequest::CommissionInfo { callback_id, .. } => Some(*callback_id),
            DataServerRequest::ExchangeRate { callback_id, .. } => Some(*callback_id),
            DataServerRequest::GetCompressedHistoricalData { callback_id, .. } => Some(
                *callback_id,
            ),
            DataServerRequest::FrontMonthInfo { callback_id, .. } => Some(*callback_id),
            DataServerRequest::Accounts { callback_id, .. } => Some(*callback_id),
            DataServerRequest::SymbolNames { callback_id, .. } => Some(*callback_id),
            _ => None,
        }
    }
}

/// What the server may answer to a subscription.
#[derive(Debug, PartialEq, Eq)]
pub enum SubscriptionResponse {
    CreateConsolidator { callback_id: u64, base_subscription: DataSubscription },
    Subscribed { callback_id: u64 },
    UnableToSubscribe { callback_id: u64 },
}

/// What the data server says to a strategy.
#[derive(Debug, PartialEq, Eq)]
pub enum DataServerResponse {
    CompressedHistoricalData { callback_id: u64, payload: Vec<Vec<u8>> },
    Symbols { callback_id: u64, symbols: Vec<Symbol>, market_type: MarketType },
    BaseDataTypes { callback_id: u64, base_data_types: Vec<BaseDataType> },
    Resolutions {
        callback_id: u64,
        subscription_resolutions_types: Vec<SubscriptionResolutionType>,
        market_type: MarketType,
    },
    ExchangeRate { callback_id: u64, rate: Price },
    Error { callback_id: u64, error: FundForgeError },
    AsyncError { error: FundForgeError },
    AccountInfo { callback_id: u64, account_info: AccountInfo },
    Markets { callback_id: u64, markets: Vec<MarketType> },
    TickSize { callback_id: u64, tick_size: Price },
    DecimalAccuracy { callback_id: u64, accuracy: u32 },
    ValuePerTick { callback_id: u64, currency: AccountCurrency, price: Price },
    SymbolInfo { callback_id: u64, symbol_info: SymbolInfo },
    SymbolInfoMany { callback_id: u64, info_vec: Vec<SymbolInfo> },
    SubscribeResponse { success: bool, subscription: DataSubscription, reason: Option<String> },
    UnSubscribeResponse { success: bool, subscription: DataSubscription, reason: Option<String> },
    FrontMonthInfo { callback_id: u64, info: FrontMonthInfo },
    SymbolNames { callback_id: u64, symbol_names: Vec<String> },
    Accounts { callback_id: u64, accounts: Vec<String> },
    PrimarySubscriptionFor { callback_id: u64, primary_subscription: DataSubscription },
    OrderUpdates { event: OrderUpdateEvent, time: String },
    RegistrationResponse(u16),
    CommissionInfo { callback_id: u64, commission_info: CommissionInfo },
    LiveAccountUpdates {
        account: Account,
        cash_value: i128,
        cash_available: i128,
        cash_used: i128,
    },
    LivePositionUpdates {
        symbol_name: String,
        symbol_code: String,
        account: Account,
        open_quantity: u64,
        average_price: Price,
        side: PositionSide,
        open_pnl: i128,
        time: String,
    },
}

impl DataServerResponse {
    /// The callback id of the response; `None` for the messages of a
    /// stream, which answer no request.
    pub open spec fn spec_callback_id(self) -> Option<u64> {
        match self {
            DataServerResponse::CompressedHistoricalData { callback_id, .. } => Some(callback_id),
            DataServerResponse::Symbols { callback_id, .. } => Some(callback_id),
            DataServerResponse::BaseDataTypes { callback_id, .. } => Some(callback_id),
            DataServerResponse::Resolutions { callback_id, .. } => Some(callback_id),
            DataServerResponse::ExchangeRate { callback_id, .. } => Some(callback_id),
            DataServerResponse::Error { callback_id, .. } => Some(callback_id),
            DataServerResponse::AccountInfo { callback_id, .. } => Some(callback_id),
            DataServerResponse::Markets { callback_id, .. } => Some(callback_id),
            DataServerResponse::TickSize { callback_id, .. } => Some(callback_id),
            DataServerResponse::DecimalAccuracy { callback_id, .. } => Some(callback_id),
            DataServerResponse::ValuePerTick { callback_id, .. } => Some(callback_id),
            DataServerResponse::SymbolInfo { callback_id, .. } => Some(callback_id),
            DataServerResponse::SymbolInfoMany { callback_id, .. } => Some(callback_id),
            DataServerResponse::FrontMonthInfo { callback_id, .. } => Some(callback_id),
            DataServerResponse::SymbolNames { callback_id, .. } => Some(callback_id),
            DataServerResponse::Accounts { callback_id, .. } => Some(callback_id),
            DataServerResponse::PrimarySubscriptionFor { callback_id, .. } => Some(callback_id),
            DataServerResponse::CommissionInfo { callback_id, .. } => Some(callback_id),
            _ => None,
        }
    }

    pub fn get_callback_id(&self) -> (id: Option<u64>)
        ensures
            id == self.spec_callback_id(),
    {
        match self {
            DataServerResponse::Symbols { callback_id, .. } => Some(*callback_id),
            DataServerResponse::Resolutions { callback_id, .. } => Some(*callback_id),
            DataServerResponse::Error { callback_id, .. } => Some(*callback_id),
            DataServerResponse::AccountInfo { callback_id, .. } => Some(*callback_id),
            DataServerResponse::Markets { callback_id, .. } => Some(*callback_id),
            DataServerResponse::TickSize { callback_id, .. } => Some(*callback_id),
            DataServerResponse::DecimalAccuracy { callback_id, .. } => Some(*callback_id),
            DataServerResponse::ValuePerTick { callback_id, .. } => Some(*callback_id),
            DataServerResponse::SymbolInfo { callback_id, .. } => Some(*callback_id),
            DataServerResponse::SymbolInfoMany { callback_id, .. } => Some(*callback_id),
            DataServerResponse::BaseDataTypes { callback_id, .. } => Some(*callback_id),
            DataServerResponse::SubscribeResponse { .. } => None,
            DataServerResponse::UnSubscribeResponse { .. } => None,
            DataServerResponse::Accounts { callback_id, .. } => Some(*callback_id),
            DataServerResponse::OrderUpdates { .. } => None,
            DataServerResponse::PrimarySubscriptionFor { callback_id, .. } => Some(*callback_id),
            DataServerResponse::SymbolNames { callback_id, .. } => Some(*callback_id),
            DataServerResponse::RegistrationResponse(_) => None,
            DataServerResponse::CommissionInfo { callback_id, .. } => Some(*callback_id),
            DataServerResponse::FrontMonthInfo { callback_id, .. } => Some(*callback_id),
            DataServerResponse::LiveAccountUpdates { .. } => None,
            DataServerResponse::LivePositionUpdates { .. } => None,
            DataServerResponse::AsyncError { .. } => None,
            DataServerResponse::ExchangeRate { callback_id, .. } => Some(*callback_id),
            DataServerResponse::CompressedHistoricalData { callback_id, .. } => Some(*callback_id),
        }
    }
}

/// What the server makes of a message on a connection that has not
/// registered yet.
#[derive(Debug, PartialEq, Eq)]
pub enum Registration {
    /// The connection is registered in `mode`; `reply` is what the server
    /// answers, if it answers.
    Registered { mode: StrategyMode, reply: Option<DataServerResponse> },
    /// The message is not a registration; the server goes on waiting for
    /// one.
    Waiting,
}

/// The registration of a connection. Only a registration registers; the
/// server answers it with the stream id of the connection where the
/// strategy runs live, and with nothing where it is a backtest.
pub open spec fn spec_register_connection(request: DataServerRequest, stream_name: u16) -> Registration {
    match request {
        DataServerRequest::Register(mode) => Registration::Registered {
            mode,
            reply: if mode == StrategyMode::Backtest {
                None
            } else {
                Some(DataServerResponse::RegistrationResponse(stream_name))
            },
        },
        _ => Registration::Waiting,
    }
}

/// Takes the first message of a connection.
pub fn register_connection(request: &DataServerRequest, stream_name: u16) -> (registration:
    Registration)
    ensures
        registration == spec_register_connection(*request, stream_name),
{
    match request {
        DataServerRequest::Register(mode) => Registration::Registered {
            mode: *mode,
            reply: match mode {
                StrategyMode::Backtest => None,
                _ => Some(DataServerResponse::RegistrationResponse(stream_name)),
            },
        },
        _ => Registration::Waiting,
    }
}

/// A request that expects a response carries the id it was given, and
/// nothing else about it has changed; setting the id twice is the same as
/// setting the last id; a request that expects no response is unchanged.
pub proof fn lemma_callback_id_is_kept(request: DataServerRequest, id: u64, other: u64)
    ensures
        request.spec_callback_id() is Some <==> request.expects_response(),
        request.expects_response() ==> request.spec_with_callback_id(id).spec_callback_id()
            == Some(id),
        !request.expects_response() ==> request.spec_with_callback_id(id) == request,
        request.spec_with_callback_id(other).spec_with_callback_id(id)
            == request.spec_with_callback_id(id),
        request.spec_callback_id() == Some(id) ==> request.spec_with_callback_id(id) == request,
{
}

} // verus!
