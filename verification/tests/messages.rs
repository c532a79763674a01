use fund_forge::base_data::OrderSide;
use fund_forge::ledgers::AccountCurrency;
use fund_forge::messages::data_server_messaging::{
    register_connection, DataServerRequest, DataServerResponse, FundForgeError, Registration,
    StreamRequest,
};
use fund_forge::messages::framing::{frame, unframe, Unframed};
use fund_forge::positions::Brokerage;
use fund_forge::resolution::Resolution;
use fund_forge::strategy_events::StrategyMode;
use fund_forge::subscriptions::{BaseDataType, DataSubscription, DataVendor, MarketType};
use fund_forge::symbol_info::{CommissionInfo, FrontMonthInfo, FuturesExchange, SymbolInfo};

fn sub() -> DataSubscription {
    DataSubscription::new("ES".to_string(), DataVendor::Test, Resolution::Ticks(1), BaseDataType::Ticks, MarketType::Futures)
}

fn with_callback() -> Vec<DataServerRequest> {
    let v = DataVendor::Test;
    let b = Brokerage::Test;
    let s = || "ES".to_string();
    vec![
        DataServerRequest::SymbolsVendor { callback_id: 0, data_vendor: v, market_type: MarketType::Forex, time: None },
        DataServerRequest::BaseDataTypes { callback_id: 0, data_vendor: v },
        DataServerRequest::Resolutions { callback_id: 0, data_vendor: v, market_type: MarketType::Forex },
        DataServerRequest::WarmUpResolutions { callback_id: 0, data_vendor: v, market_type: MarketType::Forex },
        DataServerRequest::AccountInfo { callback_id: 0, brokerage: b, account_id: s() },
        DataServerRequest::Markets { callback_id: 0, data_vendor: v },
        DataServerRequest::TickSize { callback_id: 0, data_vendor: v, symbol_name: s() },
        DataServerRequest::DecimalAccuracy { callback_id: 0, data_vendor: v, symbol_name: s() },
        DataServerRequest::SymbolInfo { callback_id: 0, brokerage: b, symbol_name: s() },
        DataServerRequest::PrimarySubscriptionFor { callback_id: 0, subscription: sub() },
        DataServerRequest::CommissionInfo { callback_id: 0, brokerage: b, symbol_name: s() },
        DataServerRequest::ExchangeRate {
            callback_id: 0,
            from_currency: AccountCurrency::AUD,
            to_currency: AccountCurrency::USD,
            date_time_string: s(),
            data_vendor: v,
            side: OrderSide::Buy,
        },
        DataServerRequest::GetCompressedHistoricalData { callback_id: 0, subscriptions: vec![sub()], from_time: s(), to_time: s() },
        DataServerRequest::FrontMonthInfo { callback_id: 0, symbol_name: s(), exchange: FuturesExchange::CME, brokerage: b },
        DataServerRequest::Accounts { callback_id: 0, brokerage: b },
        DataServerRequest::SymbolNames { callback_id: 0, brokerage: b, time: Some(s()) },
    ]
}

#[test]
fn callback_id_is_set_where_a_response_is_expected() {
    for mut request in with_callback() {
        assert_eq!(request.get_callback_id(), Some(0));
        request.set_callback_id(77);
        assert_eq!(request.get_callback_id(), Some(77));
    }
    let mut tick_size = DataServerRequest::TickSize { callback_id: 1, data_vendor: DataVendor::Test, symbol_name: "ES".to_string() };
    tick_size.set_callback_id(9);
    assert_eq!(tick_size, DataServerRequest::TickSize { callback_id: 9, data_vendor: DataVendor::Test, symbol_name: "ES".to_string() });
}

#[test]
fn requests_without_response_keep_no_callback_id() {
    let without = vec![
        DataServerRequest::Register(StrategyMode::Live),
        DataServerRequest::StreamRequest { request: StreamRequest::Subscribe(sub()) },
        DataServerRequest::RegisterStreamer { port: 1, secs: 2, subsec: 3 },
    ];
    for mut request in without {
        request.set_callback_id(5);
        assert_eq!(request.get_callback_id(), None);
    }
    let mut register = DataServerRequest::RegisterStreamer { port: 1, secs: 2, subsec: 3 };
    register.set_callback_id(5);
    assert_eq!(register, DataServerRequest::RegisterStreamer { port: 1, secs: 2, subsec: 3 });
}

#[test]
fn responses_echo_callback_id_and_streams_carry_none() {
    assert_eq!(DataServerResponse::TickSize { callback_id: 4, tick_size: 25 }.get_callback_id(), Some(4));
    assert_eq!(
        DataServerResponse::Error { callback_id: 8, error: FundForgeError::InvalidApiKey }.get_callback_id(),
        Some(8)
    );
    assert_eq!(
        DataServerResponse::CompressedHistoricalData { callback_id: 3, payload: vec![vec![1]] }.get_callback_id(),
        Some(3)
    );
    assert_eq!(DataServerResponse::RegistrationResponse(7).get_callback_id(), None);
    assert_eq!(
        DataServerResponse::AsyncError { error: FundForgeError::ServerErrorDebug("x".to_string()) }.get_callback_id(),
        None
    );
    assert_eq!(
        DataServerResponse::SubscribeResponse { success: true, subscription: sub(), reason: None }.get_callback_id(),
        None
    );
    assert_eq!(
        DataServerResponse::CommissionInfo {
            callback_id: 2,
            commission_info: CommissionInfo { per_side: 1, currency: AccountCurrency::USD }
        }
        .get_callback_id(),
        Some(2)
    );
}

#[test]
fn errors_read_as_kind_and_detail() {
    assert_eq!(FundForgeError::InvalidApiKey.message(), "InvalidApiKey");
    assert_eq!(FundForgeError::InvalidRequestType("x".to_string()).message(), "InvalidRequestType: x");
    assert_eq!(FundForgeError::ServerErrorDebug("down".to_string()).message(), "ServerErrorDebug: down");
    assert_eq!(FundForgeError::ClientSideErrorDebug("bad".to_string()).message(), "ClientSideErrorDebug: bad");
    assert_eq!(FundForgeError::UnknownBlameError("?".to_string()).message(), "UnknownBlameError: ?");
    assert_eq!(FundForgeError::ConnectionNotFound("rithmic".to_string()).message(), "ConnectionNotFound: rithmic");
}

#[test]
fn frames_round_trip() {
    let payload: Vec<u8> = (0..300).map(|i| (i % 251) as u8).collect();
    let mut bytes = frame(&payload).unwrap();
    assert_eq!(&bytes[..4], &[0, 0, 1, 44]);
    assert_eq!(bytes.len(), 304);
    assert_eq!(unframe(&bytes[..3].to_vec()), Unframed::Incomplete);
    assert_eq!(unframe(&bytes[..303].to_vec()), Unframed::Incomplete);
    bytes.extend_from_slice(&[9, 9]);
    assert_eq!(unframe(&bytes), Unframed::Frame { payload: payload.clone(), consumed: 304 });
    assert_eq!(frame(&vec![]), Some(vec![0, 0, 0, 0]));
    assert_eq!(unframe(&vec![0, 0, 0, 0]), Unframed::Frame { payload: vec![], consumed: 4 });
    assert_eq!(unframe(&vec![1, 2, 3, 4, 5]), Unframed::Incomplete);
    assert_eq!(unframe(&vec![0, 1, 0, 0]), Unframed::Incomplete);
}

#[test]
fn symbol_info_holds_what_it_is_given() {
    let info = SymbolInfo::new("ES".to_string(), AccountCurrency::USD, 1_250, 25, 2);
    assert_eq!(info.symbol_name, "ES");
    assert_eq!((info.value_per_tick, info.tick_size, info.decimal_accuracy), (1_250, 25, 2));
    assert_eq!(info.clone(), info);
    let front = FrontMonthInfo { exchange: FuturesExchange::CME, symbol_name: "ES".to_string(), symbol_code: "ESZ4".to_string() };
    assert_eq!(front.clone(), front);
}

#[test]
fn only_live_registrations_are_answered() {
    assert_eq!(
        register_connection(&DataServerRequest::Register(StrategyMode::Backtest), 7),
        Registration::Registered { mode: StrategyMode::Backtest, reply: None }
    );
    assert_eq!(
        register_connection(&DataServerRequest::Register(StrategyMode::Live), 7),
        Registration::Registered {
            mode: StrategyMode::Live,
            reply: Some(DataServerResponse::RegistrationResponse(7))
        }
    );
    assert_eq!(
        register_connection(&DataServerRequest::Register(StrategyMode::LivePaperTrading), 8),
        Registration::Registered {
            mode: StrategyMode::LivePaperTrading,
            reply: Some(DataServerResponse::RegistrationResponse(8))
        }
    );
    assert_eq!(
        register_connection(&DataServerRequest::Markets { callback_id: 1, data_vendor: DataVendor::Test }, 7),
        Registration::Waiting
    );
}
