use expenses_monitor_be::domain::{CategoryKind, Date, DateTime};
use expenses_monitor_be::features::payments::{
    assemble, build_list_query, create_payment, delete_payment, get_categories,
    get_recent_payments, page_offset, CategoryDto, CategoryIdentifier, CategoryQuery,
    CreatePaymentRequest, DeleteOutcome, ListOutcome, PaginationParams, PaymentFilters,
    PaymentResponseDto, Predicate, TagDto, WriteOutcome,
};
use expenses_monitor_be::sql::Bind;
use expenses_monitor_be::store::{PaymentListRow, Store, StoreError};

fn at(year: i32, month: u8, day: u8, second: u32) -> DateTime {
    DateTime { date: Date { year, month, day }, second, nanosecond: 0 }
}

fn pay(
    store: &mut Store,
    merchant: &str,
    description: Option<&str>,
    category: &str,
    amount: i32,
    date: DateTime,
    wallet: Option<&str>,
) -> PaymentResponseDto {
    let request = CreatePaymentRequest {
        description: description.map(|d| d.to_string()),
        category_id: CategoryIdentifier::Name(category.to_string()),
        amount_in_cents: amount,
        merchant_name: merchant.to_string(),
        accounting_date: date,
        wallet: wallet.map(|w| w.to_string()),
        tags: Some(vec![TagDto { key: "shop".to_string(), value: merchant.to_string() }]),
    };
    match create_payment(store, request) {
        WriteOutcome::Saved(response) => response,
        other => panic!("not saved: {:?}", other),
    }
}

fn seeded() -> Store {
    let mut store = Store::new();
    store.add_wallet("Cash".to_string()).unwrap();
    store.add_wallet("Card".to_string()).unwrap();
    pay(&mut store, "Super Market", Some("weekly shopping"), "Food", -5000, at(2026, 1, 10, 100), Some("Cash"));
    pay(&mut store, "Bakery", Some("bread from the MARKET hall"), "food", -300, at(2026, 1, 12, 0), Some("Card"));
    pay(&mut store, "Landlord", None, "Rent", -90000, at(2026, 2, 1, 0), None);
    pay(&mut store, "Employer", Some("salary"), "Job", 250000, at(2026, 1, 31, 86399), Some("Card"));
    store
}

fn no_filters() -> PaymentFilters {
    PaymentFilters { date_from: None, date_to: None, category: None, wallet: None, search: None }
}

fn params(page: i64, size: i64) -> PaginationParams {
    PaginationParams {
        page,
        size,
        date_from: None,
        date_to: None,
        category: None,
        wallet: None,
        search: None,
    }
}

fn merchants(outcome: ListOutcome) -> Vec<String> {
    match outcome {
        ListOutcome::Page(page) => page.content.into_iter().map(|p| p.merchant_name).collect(),
        other => panic!("no page: {:?}", other),
    }
}

#[test]
fn the_listing_is_newest_first() {
    let store = seeded();
    let listed = merchants(get_recent_payments(&store, &params(0, 10)));
    assert_eq!(listed, vec!["Landlord", "Employer", "Bakery", "Super Market"]);
}

#[test]
fn the_default_query_string_asks_for_the_first_ten() {
    let defaults = PaginationParams::default();
    assert_eq!(defaults.page, 0);
    assert_eq!(defaults.size, 10);
    assert!(defaults.search.is_none());
}

#[test]
fn pages_follow_each_other() {
    let store = seeded();
    assert_eq!(merchants(get_recent_payments(&store, &params(0, 3))), vec!["Landlord", "Employer", "Bakery"]);
    assert_eq!(merchants(get_recent_payments(&store, &params(1, 3))), vec!["Super Market"]);
    assert!(merchants(get_recent_payments(&store, &params(2, 3))).is_empty());
}

#[test]
fn a_page_of_size_zero_is_empty() {
    let store = seeded();
    match get_recent_payments(&store, &params(0, 0)) {
        ListOutcome::Page(page) => {
            assert!(page.content.is_empty());
            assert_eq!(page.page, 0);
            assert_eq!(page.size, 0);
        }
        other => panic!("no page: {:?}", other),
    }
}

#[test]
fn a_negative_size_is_refused_by_the_store() {
    let store = seeded();
    let outcome = get_recent_payments(&store, &params(0, -1));
    assert_eq!(outcome.status(), 500);
    assert_eq!(store.list_payments(-1, 0, &no_filters()).unwrap_err(), StoreError::InvalidRange);
    assert_eq!(store.list_payments(1, -1, &no_filters()).unwrap_err(), StoreError::InvalidRange);
}

#[test]
fn a_page_beyond_what_can_be_counted_is_a_client_error() {
    let store = seeded();
    let outcome = get_recent_payments(&store, &params(i64::MAX, 2));
    assert!(matches!(outcome, ListOutcome::OutOfRange));
    assert_eq!(outcome.status(), 400);
    assert_eq!(page_offset(i64::MAX, 2), None);
    assert_eq!(page_offset(3, 25), Some(75));
    assert_eq!(page_offset(-3, 25), Some(-75));
}

#[test]
fn listing_by_category_name_ignores_case() {
    let store = seeded();
    let mut wanted = params(0, 10);
    wanted.category = Some("FOOD".to_string());
    match get_recent_payments(&store, &wanted) {
        ListOutcome::Page(page) => {
            assert_eq!(page.content.len(), 2);
            for payment in &page.content {
                assert_eq!(payment.category, "Food");
            }
            assert_eq!(page.content[0].merchant_name, "Bakery");
            assert_eq!(page.content[1].merchant_name, "Super Market");
        }
        other => panic!("no page: {:?}", other),
    }
}

#[test]
fn listing_by_an_unknown_category_name_is_empty_and_no_error() {
    let store = seeded();
    let mut wanted = params(0, 10);
    wanted.category = Some("travel".to_string());
    let outcome = get_recent_payments(&store, &wanted);
    assert_eq!(outcome.status(), 200);
    assert!(merchants(outcome).is_empty());
}

#[test]
fn listing_by_category_uuid_filters_by_id() {
    let store = seeded();
    let rent = store.categories().into_iter().find(|c| c.name == "Rent").unwrap();
    let mut wanted = params(0, 10);
    wanted.category = Some(format!("{:032x}", rent.id));
    assert_eq!(merchants(get_recent_payments(&store, &wanted)), vec!["Landlord"]);
    let hyphenated = format!("{:032x}", rent.id);
    wanted.category = Some(format!(
        "{}-{}-{}-{}-{}",
        &hyphenated[0..8],
        &hyphenated[8..12],
        &hyphenated[12..16],
        &hyphenated[16..20],
        &hyphenated[20..32]
    ));
    assert_eq!(merchants(get_recent_payments(&store, &wanted)), vec!["Landlord"]);
}

#[test]
fn searching_matches_merchant_or_description_whatever_the_case() {
    let store = seeded();
    let mut wanted = params(0, 10);
    wanted.search = Some("market".to_string());
    assert_eq!(merchants(get_recent_payments(&store, &wanted)), vec!["Bakery", "Super Market"]);
    wanted.search = Some("MARKET".to_string());
    assert_eq!(merchants(get_recent_payments(&store, &wanted)), vec!["Bakery", "Super Market"]);
    wanted.search = Some("airport".to_string());
    assert!(merchants(get_recent_payments(&store, &wanted)).is_empty());
}

#[test]
fn listing_by_wallet_and_dates() {
    let store = seeded();
    let mut wanted = params(0, 10);
    wanted.wallet = Some("Card".to_string());
    assert_eq!(merchants(get_recent_payments(&store, &wanted)), vec!["Employer", "Bakery"]);
    wanted.date_from = Some("2026-01-13".to_string());
    assert_eq!(merchants(get_recent_payments(&store, &wanted)), vec!["Employer"]);
    wanted.wallet = None;
    wanted.date_to = Some("2026-01-31".to_string());
    assert_eq!(merchants(get_recent_payments(&store, &wanted)), vec!["Employer"]);
    wanted.date_from = None;
    wanted.date_to = Some("2026-01-12".to_string());
    assert_eq!(merchants(get_recent_payments(&store, &wanted)), vec!["Bakery", "Super Market"]);
}

#[test]
fn a_date_filter_that_spells_no_date_is_refused_by_the_store() {
    let store = seeded();
    let mut wanted = params(0, 10);
    wanted.date_from = Some("2026-02-30".to_string());
    assert_eq!(get_recent_payments(&store, &wanted).status(), 500);
    let mut filters = no_filters();
    filters.date_to = Some("yesterday".to_string());
    assert_eq!(store.list_payments(10, 0, &filters).unwrap_err(), StoreError::InvalidDate);
}

#[test]
fn the_listing_shows_names_and_tags() {
    let store = seeded();
    match get_recent_payments(&store, &params(0, 10)) {
        ListOutcome::Page(page) => {
            let bakery = &page.content[2];
            assert_eq!(bakery.merchant_name, "Bakery");
            assert_eq!(bakery.category, "Food");
            assert_eq!(bakery.wallet, Some("Card".to_string()));
            assert_eq!(bakery.amount_in_cents, -300);
            assert_eq!(bakery.accounting_date, at(2026, 1, 12, 0));
            assert_eq!(bakery.tags.len(), 1);
            assert_eq!(bakery.tags[0].key, "shop");
            assert_eq!(bakery.tags[0].value, "Bakery");
            let landlord = &page.content[0];
            assert_eq!(landlord.wallet, None);
            assert_eq!(landlord.description, None);
        }
        other => panic!("no page: {:?}", other),
    }
}

#[test]
fn absent_columns_are_shown_by_their_defaults() {
    let row = PaymentListRow {
        id: 9,
        category_name: None,
        category_icon: None,
        category_id: None,
        description: None,
        merchant_name: None,
        accounting_date: None,
        amount: None,
        wallet_name: None,
        tags: None,
    };
    let response = assemble(row);
    assert_eq!(response.id, 9);
    assert_eq!(response.amount_in_cents, 0);
    assert_eq!(response.merchant_name, "");
    assert_eq!(response.category, "");
    assert_eq!(response.accounting_date, at(1970, 1, 1, 0));
    assert!(response.tags.is_empty());
    assert_eq!(response.category_id, None);
}

#[test]
fn the_query_without_filters_has_no_where_part() {
    let query = build_list_query(10, 20, &no_filters());
    assert!(query.conditions.is_empty());
    assert_eq!(query.binds.len(), 2);
    assert!(matches!(query.binds[0], Bind::Int(10)));
    assert!(matches!(query.binds[1], Bind::Int(20)));
    assert!(!query.sql.contains("w.id WHERE"));
    assert!(query.sql.ends_with("LEFT JOIN expenses.wallets w ON p.wallet_id = w.id  ORDER BY p.accounting_date DESC LIMIT $1 OFFSET $2"));
    assert!(query.sql.starts_with("SELECT p.id, c.name AS category_name"));
}

#[test]
fn the_query_numbers_its_parameters_in_step_with_its_values() {
    let filters = PaymentFilters {
        date_from: Some("2026-01-01".to_string()),
        date_to: None,
        category: Some("Food".to_string()),
        wallet: None,
        search: Some("MarKet".to_string()),
    };
    let query = build_list_query(5, 0, &filters);
    assert_eq!(query.conditions.len(), 3);
    assert_eq!(query.conditions[0].predicate, Predicate::DateFrom);
    assert_eq!(query.conditions[0].parameter, 3);
    assert_eq!(query.conditions[1].predicate, Predicate::CategoryName);
    assert_eq!(query.conditions[1].parameter, 4);
    assert_eq!(query.conditions[2].predicate, Predicate::Search);
    assert_eq!(query.conditions[2].parameter, 5);
    assert_eq!(query.binds.len(), 5);
    match &query.binds[2] {
        Bind::Text(text) => assert_eq!(text, "2026-01-01"),
        other => panic!("unexpected: {:?}", other),
    }
    match &query.binds[3] {
        Bind::Text(text) => assert_eq!(text, "Food"),
        other => panic!("unexpected: {:?}", other),
    }
    match &query.binds[4] {
        Bind::Text(text) => assert_eq!(text, "%market%"),
        other => panic!("unexpected: {:?}", other),
    }
    assert!(query.sql.contains(
        " WHERE DATE(p.accounting_date) >= $3::date AND LOWER(c.name) = LOWER($4) AND (LOWER(p.merchant_name) LIKE $5 OR LOWER(p.description) LIKE $5) ORDER BY"
    ));
    assert!(!query.sql.contains("Food"));
    assert!(!query.sql.contains("arKet"));
}

#[test]
fn the_query_with_every_filter() {
    let filters = PaymentFilters {
        date_from: Some("2026-01-01".to_string()),
        date_to: Some("2026-12-31".to_string()),
        category: Some("a1a2a3a4-b1b2-c1c2-d1d2-d3d4d5d6d7d8".to_string()),
        wallet: Some("Cash".to_string()),
        search: Some("x".to_string()),
    };
    let query = build_list_query(5, 0, &filters);
    assert_eq!(query.conditions.len(), 5);
    assert_eq!(query.binds.len(), 7);
    assert_eq!(query.conditions[2].predicate, Predicate::CategoryId);
    match &query.binds[4] {
        Bind::Id(id) => assert_eq!(*id, 0xa1a2a3a4b1b2c1c2d1d2d3d4d5d6d7d8u128),
        other => panic!("unexpected: {:?}", other),
    }
    assert!(query.sql.contains(
        " WHERE DATE(p.accounting_date) >= $3::date AND DATE(p.accounting_date) <= $4::date AND p.category_id = $5 AND w.name = $6 AND (LOWER(p.merchant_name) LIKE $7 OR LOWER(p.description) LIKE $7) ORDER BY"
    ));
}

#[test]
fn deleting_a_payment_removes_its_tags() {
    let mut store = seeded();
    let bakery = store.payments().into_iter().find(|p| p.record.merchant_name == "Bakery").unwrap();
    assert_eq!(store.tags().iter().filter(|t| t.payment_id == bakery.id).count(), 1);
    let outcome = delete_payment(&mut store, bakery.id);
    assert_eq!(outcome, DeleteOutcome::Deleted);
    assert_eq!(outcome.status(), 204);
    assert_eq!(store.payments().len(), 3);
    assert_eq!(store.tags().len(), 3);
    assert!(store.tags().iter().all(|t| t.payment_id != bakery.id));
    assert!(store.payments().iter().all(|p| p.id != bakery.id));
    for tag in store.tags() {
        assert!(store.payments().iter().any(|p| p.id == tag.payment_id));
    }
}

#[test]
fn deleting_an_unknown_payment_changes_nothing() {
    let mut store = seeded();
    assert_eq!(delete_payment(&mut store, 123456), DeleteOutcome::Deleted);
    assert_eq!(store.payments().len(), 4);
    assert_eq!(store.tags().len(), 4);
}

#[test]
fn categories_are_listed_by_kind() {
    let mut store = seeded();
    store.add_category("Salary".to_string(), Some("💰".to_string()), CategoryKind::Income).unwrap();
    let names = |list: Vec<CategoryDto>| list.into_iter().map(|c| c.name).collect::<Vec<_>>();
    let all = get_categories(&store, &CategoryQuery { category_type: None });
    assert_eq!(names(all), vec!["Food", "Rent", "Job", "Salary"]);
    let income = get_categories(&store, &CategoryQuery { category_type: Some("income".to_string()) });
    assert_eq!(income.len(), 1);
    assert_eq!(income[0].name, "Salary");
    assert_eq!(income[0].icon, Some("💰".to_string()));
    let expense = get_categories(&store, &CategoryQuery { category_type: Some("expense".to_string()) });
    assert_eq!(names(expense), vec!["Food", "Rent", "Job"]);
    let other = get_categories(&store, &CategoryQuery { category_type: Some("Income".to_string()) });
    assert_eq!(other.len(), 4);
}
