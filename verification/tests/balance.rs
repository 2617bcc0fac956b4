use expenses_monitor_be::domain::{CategoryKind, Date, DateTime};
use expenses_monitor_be::features::balance::{
    build_balance_query, get_balance, BalanceOutcome, BalanceQuery, BalanceResponse,
};
use expenses_monitor_be::features::payments::{
    create_payment, CategoryIdentifier, CreatePaymentRequest, WriteOutcome,
};
use expenses_monitor_be::features::wallets::get_wallet_id_by_name;
use expenses_monitor_be::sql::Bind;
use expenses_monitor_be::store::Store;

fn pay(store: &mut Store, merchant: &str, category: &str, amount: i32, date: (i32, u8, u8), wallet: Option<&str>) {
    let request = CreatePaymentRequest {
        description: Some(merchant.to_string()),
        category_id: CategoryIdentifier::Name(category.to_string()),
        amount_in_cents: amount,
        merchant_name: merchant.to_string(),
        accounting_date: DateTime {
            date: Date { year: date.0, month: date.1, day: date.2 },
            second: 36000,
            nanosecond: 0,
        },
        wallet: wallet.map(|w| w.to_string()),
        tags: None,
    };
    assert!(matches!(create_payment(store, request), WriteOutcome::Saved(_)));
}

fn query(wallet: Option<&str>, start: Option<(i32, u8, u8)>, end: Option<(i32, u8, u8)>) -> BalanceQuery {
    BalanceQuery {
        wallet_name: wallet.map(|w| w.to_string()),
        start_date: start.map(|d| Date { year: d.0, month: d.1, day: d.2 }),
        end_date: end.map(|d| Date { year: d.0, month: d.1, day: d.2 }),
    }
}

fn balance(store: &mut Store, q: BalanceQuery) -> BalanceResponse {
    match get_balance(store, q) {
        BalanceOutcome::Balance(b) => b,
        other => panic!("no balance: {:?}", other),
    }
}

#[test]
fn balance_get_balance_returns_zero_when_no_payments() {
    let mut store = Store::new();
    let outcome = get_balance(&mut store, query(None, None, None));
    assert_eq!(outcome.status(), 200);
    let b = balance(&mut store, query(None, None, None));
    assert_eq!(b.total_in_cents, 0);
    assert_eq!(b.income_in_cents, 0);
    assert_eq!(b.expenses_in_cents, 0);
}

#[test]
fn get_balance_calculates_total_income_and_expenses() {
    let mut store = Store::new();
    store.add_category("salary".to_string(), None, CategoryKind::Income).unwrap();
    pay(&mut store, "Salary", "salary", 100000, (2026, 1, 15), None);
    pay(&mut store, "Grocery Store", "food", -50000, (2026, 1, 16), None);
    pay(&mut store, "Restaurant", "food", -30000, (2026, 1, 17), None);
    let b = balance(&mut store, query(None, None, None));
    assert_eq!(b.total_in_cents, 20000);
    assert_eq!(b.income_in_cents, 100000);
    assert_eq!(b.expenses_in_cents, -80000);
    assert_eq!(b.income_in_cents + b.expenses_in_cents, b.total_in_cents);
}

#[test]
fn get_balance_filters_by_start_date() {
    let mut store = Store::new();
    pay(&mut store, "Old Payment", "food", -10000, (2025, 12, 1), None);
    pay(&mut store, "New Payment", "food", -5000, (2026, 1, 15), None);
    let b = balance(&mut store, query(None, Some((2026, 1, 1)), None));
    assert_eq!(b.total_in_cents, -5000);
    assert_eq!(b.expenses_in_cents, -5000);
}

#[test]
fn get_balance_filters_by_date_range() {
    let mut store = Store::new();
    store.add_category("salary".to_string(), None, CategoryKind::Income).unwrap();
    pay(&mut store, "Before", "food", -10000, (2025, 12, 15), None);
    pay(&mut store, "In Range", "salary", 50000, (2026, 1, 15), None);
    pay(&mut store, "After", "food", -20000, (2026, 2, 15), None);
    let b = balance(&mut store, query(None, Some((2026, 1, 1)), Some((2026, 1, 31))));
    assert_eq!(b.total_in_cents, 50000);
    assert_eq!(b.income_in_cents, 50000);
    assert_eq!(b.expenses_in_cents, 0);
}

#[test]
fn get_balance_filters_by_end_date() {
    let mut store = Store::new();
    store.add_category("salary".to_string(), None, CategoryKind::Income).unwrap();
    pay(&mut store, "Early Payment", "salary", 30000, (2026, 1, 10), None);
    pay(&mut store, "Late Payment", "food", -10000, (2026, 2, 10), None);
    let b = balance(&mut store, query(None, None, Some((2026, 1, 31))));
    assert_eq!(b.total_in_cents, 30000);
    assert_eq!(b.income_in_cents, 30000);
    assert_eq!(b.expenses_in_cents, 0);
}

#[test]
fn the_end_date_bounds_at_its_first_instant() {
    let mut store = Store::new();
    pay(&mut store, "Morning", "food", -700, (2026, 1, 31), None);
    let b = balance(&mut store, query(None, None, Some((2026, 1, 31))));
    assert_eq!(b.total_in_cents, 0);
    let b = balance(&mut store, query(None, Some((2026, 1, 31)), None));
    assert_eq!(b.total_in_cents, -700);
}

#[test]
fn a_payment_under_a_new_category_counts_as_an_expense() {
    let mut store = Store::new();
    pay(&mut store, "Market", "food", -1000, (2026, 3, 1), None);
    let b = balance(&mut store, query(None, None, None));
    assert_eq!(b.expenses_in_cents, -1000);
    assert_eq!(b.total_in_cents, -1000);
    assert_eq!(b.income_in_cents, 0);
}

#[test]
fn the_balance_of_a_wallet_counts_its_payments_only() {
    let mut store = Store::new();
    let cash = store.add_wallet("test_wallet".to_string());
    store.add_wallet("other".to_string()).unwrap();
    pay(&mut store, "One", "food", -500, (2026, 3, 1), Some("test_wallet"));
    pay(&mut store, "Two", "food", -1000, (2026, 3, 2), Some("other"));
    pay(&mut store, "Three", "food", -40, (2026, 3, 3), None);
    let b = balance(&mut store, query(Some("test_wallet"), None, None));
    assert_eq!(b.total_in_cents, -500);
    assert_eq!(get_wallet_id_by_name(&mut store, "test_wallet"), cash);
    assert_eq!(get_wallet_id_by_name(&mut store, "Test_wallet"), None);
}

#[test]
fn the_balance_of_an_unknown_wallet_is_not_found() {
    let mut store = Store::new();
    let outcome = get_balance(&mut store, query(Some("nowhere"), None, None));
    assert_eq!(outcome, BalanceOutcome::WalletNotFound);
    assert_eq!(outcome.status(), 404);
}

#[test]
fn the_balance_query_has_a_clause_for_each_bound_that_is_given() {
    let none = build_balance_query(None, None, None);
    assert!(none.binds.is_empty());
    assert!(none.sql.ends_with("JOIN expenses.categories c ON p.category_id = c.id "));
    let end_only = build_balance_query(None, None, Some(Date { year: 2026, month: 1, day: 31 }));
    assert!(end_only.sql.ends_with(" WHERE p.accounting_date <= $1"));
    assert_eq!(end_only.binds.len(), 1);
    let all = build_balance_query(
        Some(7),
        Some(Date { year: 2026, month: 1, day: 1 }),
        Some(Date { year: 2026, month: 1, day: 31 }),
    );
    assert!(all.sql.ends_with(
        " WHERE p.wallet_id = $1 AND p.accounting_date >= $2 AND p.accounting_date <= $3"
    ));
    assert_eq!(all.binds.len(), 3);
    assert!(matches!(all.binds[0], Bind::Id(7)));
    match &all.binds[2] {
        Bind::Date(date) => assert_eq!(*date, Date { year: 2026, month: 1, day: 31 }),
        other => panic!("unexpected: {:?}", other),
    }
}
