use fund_forge::brokerage::{
    read_account_info, read_accounts, read_commission_info, read_symbol_info, read_symbol_names,
    Amount, MarginError, MarginTerms, MAX_MANTISSA,
};
use fund_forge::ledgers::{AccountCurrency, AccountInfo};
use fund_forge::messages::data_server_messaging::{
    DataServerRequest, DataServerResponse, FundForgeError,
};
use fund_forge::symbol_info::{CommissionInfo, SymbolInfo};
use fund_forge::positions::Brokerage;

fn n(mantissa: i128, scale: u32) -> Amount {
    Amount { mantissa, scale }
}

fn no_terms() -> MarginTerms {
    MarginTerms { per_contract: None, divisor: None }
}

fn value(amount: Amount) -> (i128, u32) {
    // compare as numbers, whatever scale the arithmetic settled on
    let mut m = amount.mantissa;
    let mut s = amount.scale;
    while s > 0 && m % 10 == 0 {
        m /= 10;
        s -= 1;
    }
    (m, s)
}

fn margin(brokerage: Brokerage, terms: MarginTerms, base: Option<AccountCurrency>, account: AccountCurrency) -> Result<Option<Amount>, MarginError> {
    brokerage.intraday_margin_required(terms, n(2, 0), n(15005, 1), account, base, AccountCurrency::JPY, n(5, 1))
}

#[test]
fn test_broker_asks_a_thirtieth_of_the_converted_value() {
    let m = margin(Brokerage::Test, no_terms(), None, AccountCurrency::USD).unwrap().unwrap();
    // 2 * 1500.5 * 0.5 / 30 = 50.01666...
    assert_eq!(m.units(2), Some(5001));
    assert_eq!(m.units(0), Some(50));
    let m = Brokerage::Test.intraday_margin_required(
        no_terms(),
        n(3, 0),
        n(100, 0),
        AccountCurrency::USD,
        None,
        AccountCurrency::USD,
        n(1, 0),
    )
    .unwrap()
    .unwrap();
    assert_eq!(value(m), (10, 0));
}

#[test]
fn per_contract_margin_scales_with_quantity() {
    let terms = MarginTerms { per_contract: Some(n(40, 0)), divisor: None };
    let m = margin(Brokerage::Rithmic, terms, None, AccountCurrency::USD).unwrap().unwrap();
    assert_eq!(value(m), (40, 0));
    assert_eq!(margin(Brokerage::Rithmic, no_terms(), None, AccountCurrency::USD), Ok(None));
}

#[test]
fn leverage_broker_values_the_position_by_currency() {
    let terms = MarginTerms { per_contract: None, divisor: Some(n(20, 0)) };
    let in_base = margin(Brokerage::Oanda, terms, Some(AccountCurrency::EUR), AccountCurrency::EUR).unwrap().unwrap();
    assert_eq!(value(in_base), (1, 1));
    let in_quote = margin(Brokerage::Oanda, terms, Some(AccountCurrency::EUR), AccountCurrency::JPY).unwrap().unwrap();
    assert_eq!(value(in_quote), (15005, 2));
    let other = margin(Brokerage::Oanda, terms, Some(AccountCurrency::EUR), AccountCurrency::USD).unwrap().unwrap();
    assert_eq!(other.units(12), Some(33_322_225));
    let no_pair = margin(Brokerage::Oanda, terms, None, AccountCurrency::USD).unwrap().unwrap();
    assert_eq!(value(no_pair), (750_25, 3));
    assert_eq!(margin(Brokerage::Oanda, no_terms(), None, AccountCurrency::USD), Err(MarginError::SymbolNotFound));
}

#[test]
fn last_broker_asks_the_converted_value() {
    let m = margin(Brokerage::Bitget, no_terms(), None, AccountCurrency::USD).unwrap().unwrap();
    assert_eq!(value(m), (15005, 1));
}

#[test]
fn margin_errors() {
    let bad = n(1, 29);
    assert_eq!(
        Brokerage::Test.intraday_margin_required(no_terms(), bad, n(1, 0), AccountCurrency::USD, None, AccountCurrency::USD, n(1, 0)),
        Err(MarginError::InvalidAmount)
    );
    assert_eq!(
        Brokerage::Test.intraday_margin_required(no_terms(), n(MAX_MANTISSA + 1, 0), n(1, 0), AccountCurrency::USD, None, AccountCurrency::USD, n(1, 0)),
        Err(MarginError::InvalidAmount)
    );
    let big = n(MAX_MANTISSA, 0);
    assert_eq!(
        Brokerage::Bitget.intraday_margin_required(no_terms(), big, big, AccountCurrency::USD, None, AccountCurrency::USD, n(1, 0)),
        Err(MarginError::Arithmetic)
    );
    let zero_divisor = MarginTerms { per_contract: None, divisor: Some(n(0, 0)) };
    assert_eq!(margin(Brokerage::Oanda, zero_divisor, None, AccountCurrency::USD), Err(MarginError::Arithmetic));
    assert!(n(5, 28).is_valid());
    assert!(!n(5, 29).is_valid());
    assert_eq!(Amount::whole(-7), n(-7, 0));
    assert_eq!(n(-15, 1).units(0), Some(-2));
    assert_eq!(n(15, 1).units(3), Some(1500));
    assert_eq!(n(MAX_MANTISSA, 0).units(28), None);
    assert_eq!(n(1, 29).units(0), None);
    assert_eq!(n(1, 0).units(29), None);
}

#[test]
fn broker_requests_and_their_answers() {
    let b = Brokerage::Bitget;
    assert_eq!(
        b.symbol_info("ES".to_string()),
        DataServerRequest::SymbolInfo { callback_id: 0, brokerage: b, symbol_name: "ES".to_string() }
    );
    assert_eq!(b.accounts(), DataServerRequest::Accounts { callback_id: 0, brokerage: b });
    assert_eq!(
        b.symbol_names(4, None),
        DataServerRequest::SymbolNames { callback_id: 4, brokerage: b, time: None }
    );
    assert_eq!(
        b.commission_info("ES".to_string()),
        DataServerRequest::CommissionInfo { callback_id: 0, brokerage: b, symbol_name: "ES".to_string() }
    );
    assert_eq!(
        b.account_info("a".to_string()),
        DataServerRequest::AccountInfo { callback_id: 0, brokerage: b, account_id: "a".to_string() }
    );
    let info = SymbolInfo::new("ES".to_string(), AccountCurrency::USD, 1, 1, 2);
    assert_eq!(read_symbol_info(DataServerResponse::SymbolInfo { callback_id: 1, symbol_info: info.clone() }), Ok(info));
    let wrong = || FundForgeError::ClientSideErrorDebug("Incorrect response received at callback".to_string());
    assert_eq!(read_symbol_info(DataServerResponse::RegistrationResponse(1)), Err(wrong()));
    assert_eq!(
        read_accounts(DataServerResponse::Error { callback_id: 1, error: FundForgeError::InvalidApiKey }),
        Err(FundForgeError::InvalidApiKey)
    );
    assert_eq!(read_accounts(DataServerResponse::Accounts { callback_id: 1, accounts: vec!["a".to_string()] }), Ok(vec!["a".to_string()]));
    assert_eq!(read_symbol_names(DataServerResponse::SymbolNames { callback_id: 1, symbol_names: vec![] }), Ok(vec![]));
    assert_eq!(read_symbol_names(DataServerResponse::RegistrationResponse(1)), Err(wrong()));
    let commission = CommissionInfo { per_side: 2, currency: AccountCurrency::USD };
    assert_eq!(read_commission_info(DataServerResponse::CommissionInfo { callback_id: 1, commission_info: commission }), Ok(commission));
    assert_eq!(read_commission_info(DataServerResponse::TickSize { callback_id: 1, tick_size: 1 }), Err(wrong()));
    let account = AccountInfo {
        account_id: "a".to_string(),
        brokerage: b,
        cash_value: 1,
        cash_available: 1,
        currency: AccountCurrency::USD,
        cash_used: 0,
        positions: vec![],
        positions_closed: vec![],
        is_hedging: false,
    };
    assert!(read_account_info(DataServerResponse::AccountInfo { callback_id: 1, account_info: account }).is_ok());
    assert_eq!(read_account_info(DataServerResponse::RegistrationResponse(1)), Err(wrong()));
}
