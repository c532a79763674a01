use fund_forge::base_data::{BaseDataEnum, OrderSide, Quote, Tick};
use fund_forge::ledgers::{AccountCurrency, AccountInfo, Ledger, LedgerError};
use fund_forge::positions::{
    average_price, pnl, Brokerage, Position, PositionSide, CASH_LIMIT,
};
use fund_forge::subscriptions::{DataVendor, MarketType, Symbol};

fn name() -> String {
    "ES".to_string()
}

fn paper(cash: i128) -> Ledger {
    Ledger::paper_account_init("acct".to_string(), Brokerage::Test, cash, AccountCurrency::USD)
        .unwrap()
}

fn balanced(ledger: &Ledger) -> bool {
    let booked: i128 = ledger
        .positions()
        .iter()
        .chain(ledger.positions_closed().iter())
        .map(|p| p.booked_pnl)
        .sum();
    ledger.cash_value() == ledger.cash_available() + ledger.cash_used() + booked
}

fn tick(symbol: &str, price: i64, time: i64) -> BaseDataEnum {
    let symbol = Symbol::new(symbol.to_string(), DataVendor::Test, MarketType::Futures);
    BaseDataEnum::Tick(Tick::new(symbol, price, time, 1, None))
}

#[test]
fn paper_account_starts_in_cash() {
    let ledger = paper(100_000);
    assert_eq!(ledger.cash_value(), 100_000);
    assert_eq!(ledger.cash_available(), 100_000);
    assert_eq!(ledger.cash_used(), 0);
    assert!(ledger.is_flat(&name()));
    assert!(!ledger.is_long(&name()));
    assert!(!ledger.is_short(&name()));
    assert_eq!(ledger.account_id(), "acct");
    assert_eq!(ledger.brokerage(), Brokerage::Test);
    assert_eq!(ledger.currency(), AccountCurrency::USD);
    assert!(Ledger::paper_account_init(
        "a".to_string(),
        Brokerage::Test,
        CASH_LIMIT + 1,
        AccountCurrency::USD
    )
    .is_none());
}

#[test]
fn opening_reserves_margin() {
    let mut ledger = paper(100_000);
    assert_eq!(
        ledger.update_or_create_paper_position(&name(), 2, 5_000, OrderSide::Buy, 300),
        Ok(())
    );
    assert!(ledger.is_long(&name()));
    let p = ledger.position(&name()).unwrap();
    assert_eq!((p.quantity, p.average_price, p.side), (2, 5_000, PositionSide::Long));
    assert_eq!((p.open_pnl, p.booked_pnl, p.margin_used, p.id), (0, 0, 300, 1));
    assert_eq!(ledger.cash_used(), 300);
    assert_eq!(ledger.cash_available(), 99_700);
    assert_eq!(ledger.cash_value(), 100_000);
    assert!(balanced(&ledger));
}

#[test]
fn same_side_fill_averages_price() {
    let mut ledger = paper(100_000);
    ledger.update_or_create_paper_position(&name(), 1, 100, OrderSide::Sell, 10).unwrap();
    ledger.update_or_create_paper_position(&name(), 3, 120, OrderSide::Sell, 30).unwrap();
    let p = ledger.position(&name()).unwrap();
    assert_eq!((p.quantity, p.average_price, p.side), (4, 115, PositionSide::Short));
    assert_eq!(p.open_pnl, (115 - 120) * 4);
    assert_eq!(p.margin_used, 40);
    assert_eq!(ledger.cash_used(), 40);
    assert!(balanced(&ledger));
    assert_eq!(average_price(2, 10, 1, 11), 10);
    assert_eq!(average_price(1, -10, 2, -11), -11);
}

#[test]
fn partial_reduction_books_gain_of_reduced_quantity() {
    let mut ledger = paper(1_000);
    ledger.update_or_create_paper_position(&name(), 5, 100, OrderSide::Buy, 50).unwrap();
    ledger.update_or_create_paper_position(&name(), 2, 110, OrderSide::Sell, 20).unwrap();
    let p = ledger.position(&name()).unwrap();
    assert_eq!((p.quantity, p.booked_pnl, p.open_pnl), (3, 20, 30));
    assert_eq!(p.margin_used, 50);
    assert_eq!(ledger.cash_value(), 1_020);
    assert_eq!(ledger.cash_available(), 970);
    assert_eq!(ledger.cash_used(), 30);
    assert!(balanced(&ledger));
    assert!(ledger.positions_closed().is_empty());
}

#[test]
fn equal_opposite_fill_closes_with_zero_residual() {
    let mut ledger = paper(1_000);
    ledger.update_or_create_paper_position(&name(), 5, 100, OrderSide::Sell, 50).unwrap();
    ledger.update_or_create_paper_position(&name(), 5, 90, OrderSide::Buy, 50).unwrap();
    assert!(ledger.is_flat(&name()));
    assert!(ledger.positions().is_empty());
    let closed = &ledger.positions_closed()[0];
    assert!(closed.is_closed);
    assert_eq!((closed.quantity, closed.open_pnl, closed.booked_pnl), (0, 0, 50));
    assert_eq!(ledger.cash_value(), 1_050);
    assert_eq!(ledger.cash_available(), 1_050);
    assert_eq!(ledger.cash_used(), -50);
    assert!(balanced(&ledger));
}

#[test]
fn opposite_side_flip_closes_then_opens_residual() {
    let mut ledger = paper(100_000);
    ledger.update_or_create_paper_position(&name(), 1, 5_000, OrderSide::Buy, 100).unwrap();
    assert_eq!(
        ledger.update_or_create_paper_position(&name(), 3, 4_800, OrderSide::Sell, 300),
        Ok(())
    );
    assert_eq!(ledger.positions_closed().len(), 1);
    let closed = &ledger.positions_closed()[0];
    assert_eq!(closed.side, PositionSide::Long);
    assert_eq!(closed.booked_pnl, (4_800 - 5_000) * 1);
    assert!(closed.is_closed);
    let p = ledger.position(&name()).unwrap();
    assert_eq!((p.side, p.quantity, p.average_price), (PositionSide::Short, 2, 4_800));
    assert_eq!(p.margin_used, 200);
    assert_eq!(p.id, 2);
    assert_eq!(ledger.cash_used(), 200 - (4_800 - 5_000));
    assert!(balanced(&ledger));
}

#[test]
fn fills_are_refused_exactly_when_they_should_be() {
    let mut ledger = paper(100);
    assert_eq!(
        ledger.update_or_create_paper_position(&name(), 1, 10, OrderSide::Buy, 101),
        Err(LedgerError::InsufficientFunds)
    );
    assert_eq!(
        ledger.update_or_create_paper_position(&name(), 0, 10, OrderSide::Buy, 1),
        Err(LedgerError::InvalidOrder)
    );
    assert_eq!(
        ledger.update_or_create_paper_position(&name(), 1, i64::MAX, OrderSide::Buy, 1),
        Err(LedgerError::InvalidOrder)
    );
    assert_eq!(
        ledger.update_or_create_paper_position(&name(), 1, 10, OrderSide::Buy, -1),
        Err(LedgerError::InvalidOrder)
    );
    assert!(ledger.is_flat(&name()));
    assert_eq!(ledger.cash_available(), 100);
    ledger.update_or_create_paper_position(&name(), u64::MAX, 10, OrderSide::Buy, 1).unwrap();
    assert_eq!(
        ledger.update_or_create_paper_position(&name(), 1, 10, OrderSide::Buy, 1),
        Err(LedgerError::Overflow)
    );
    assert_eq!(ledger.position(&name()).unwrap().quantity, u64::MAX);
    assert!(matches!(ledger.exit_position_paper(&name(), i64::MIN), Err(LedgerError::InvalidOrder)));
}

#[test]
fn exit_books_gain_and_frees_margin() {
    let mut ledger = paper(100_000);
    ledger.update_or_create_paper_position(&name(), 2, 5_000, OrderSide::Buy, 300).unwrap();
    let closed = ledger.exit_position_paper(&name(), 5_200).unwrap().unwrap();
    assert_eq!(closed.booked_pnl, 400);
    assert!(closed.is_closed);
    assert_eq!(ledger.cash_available(), 100_000 + 400);
    assert_eq!(ledger.cash_value(), 100_400);
    assert!(ledger.is_flat(&name()));
    assert!(balanced(&ledger));
    assert_eq!(ledger.exit_position_paper(&name(), 5_200).unwrap().map(|p| p.id), None);
    assert_eq!(ledger.generate_id(&name()), 2);
    assert_eq!(ledger.generate_id(&"NQ".to_string()), 1);
}

#[test]
fn slices_revalue_open_positions() {
    let mut ledger = paper(100_000);
    ledger.update_or_create_paper_position(&name(), 2, 5_000, OrderSide::Buy, 300).unwrap();
    ledger.update_or_create_paper_position(&"NQ".to_string(), 1, 100, OrderSide::Sell, 1).unwrap();
    let quote = BaseDataEnum::Quote(Quote::new(
        Symbol::new("NQ".to_string(), DataVendor::Test, MarketType::Futures),
        95,
        93,
        1,
        1,
        0,
        3,
    ));
    ledger.on_data_update(&vec![tick("ES", 5_100, 1), tick("ES", 4_900, 2), quote, tick("CL", 1, 4)]);
    let es = ledger.position(&name()).unwrap();
    assert_eq!(es.open_pnl, (4_900 - 5_000) * 2);
    assert_eq!((es.highest_recoded_price, es.lowest_recoded_price), (5_100, 4_900));
    let nq = ledger.position(&"NQ".to_string()).unwrap();
    assert_eq!(nq.open_pnl, 100 - 93);
    assert_eq!((nq.highest_recoded_price, nq.lowest_recoded_price), (100, 93));
    assert!(balanced(&ledger));
}

#[test]
fn position_ignores_data_once_closed() {
    let mut p = Position::enter(name(), Brokerage::Test, PositionSide::Long, 1, 10, 1);
    p.update_base_data(&vec![tick("ES", 12, 1)]);
    assert_eq!(p.open_pnl, 2);
    p.is_closed = true;
    p.quantity = 0;
    p.open_pnl = 0;
    p.update_base_data(&vec![tick("ES", 20, 2)]);
    assert_eq!(p.open_pnl, 0);
    assert_eq!(p.highest_recoded_price, 12);
    assert_eq!(pnl(PositionSide::Short, 50, 48, 3), 6);
    assert_eq!(pnl(PositionSide::Long, 50, 48, 1), -2);
}

#[test]
fn statistics_count_wins_and_losses() {
    let mut ledger = paper(100_000);
    let trades = [(100, 110), (100, 90), (100, 100), (100, 130)];
    for (entry, exit) in trades {
        ledger.update_or_create_paper_position(&name(), 1, entry, OrderSide::Buy, 1).unwrap();
        ledger.exit_position_paper(&name(), exit).unwrap();
    }
    let s = ledger.print();
    assert_eq!((s.total_trades, s.wins, s.losses, s.break_even), (4, 2, 1, 1));
    assert_eq!(s.win_rate, 5_000);
    assert_eq!(s.risk_reward, Some(400));
    assert_eq!(s.pnl, Some(30));
    let empty = paper(1).print();
    assert_eq!((empty.total_trades, empty.win_rate, empty.risk_reward, empty.pnl), (0, 0, None, Some(0)));
}

#[test]
fn ledger_adopts_reported_open_positions() {
    let open = Position::enter(name(), Brokerage::Test, PositionSide::Long, 3, 10, 7);
    let duplicate = Position::enter(name(), Brokerage::Test, PositionSide::Short, 1, 10, 8);
    let mut broken = Position::enter("NQ".to_string(), Brokerage::Test, PositionSide::Long, 0, 10, 1);
    broken.is_closed = false;
    let info = AccountInfo {
        account_id: "live".to_string(),
        brokerage: Brokerage::Rithmic,
        cash_value: 500,
        cash_available: 400,
        currency: AccountCurrency::EUR,
        cash_used: 100,
        positions: vec![open, duplicate, broken],
        positions_closed: vec![],
        is_hedging: false,
    };
    let ledger = Ledger::new(info).unwrap();
    assert_eq!(ledger.positions().len(), 1);
    assert!(ledger.is_long(&name()));
    assert_eq!((ledger.cash_value(), ledger.cash_available(), ledger.cash_used()), (500, 400, 100));
    assert_eq!(ledger.brokerage(), Brokerage::Rithmic);
}
