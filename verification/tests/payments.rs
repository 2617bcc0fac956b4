use expenses_monitor_be::domain::{CategoryKind, Date, DateTime};
use expenses_monitor_be::features::payments::{
    create_payment, update_payment, CategoryIdentifier, CreatePaymentRequest, TagDto,
    UpdatePaymentRequest, WriteOutcome,
};
use expenses_monitor_be::store::Store;

fn noon(year: i32, month: u8, day: u8) -> DateTime {
    DateTime { date: Date { year, month, day }, second: 12 * 3600, nanosecond: 0 }
}

fn request(category: &str, amount: i32) -> CreatePaymentRequest {
    CreatePaymentRequest {
        description: Some("Groceries".to_string()),
        category_id: CategoryIdentifier::Name(category.to_string()),
        amount_in_cents: amount,
        merchant_name: "Market".to_string(),
        accounting_date: noon(2026, 1, 16),
        wallet: None,
        tags: None,
    }
}

fn tag(key: &str, value: &str) -> TagDto {
    TagDto { key: key.to_string(), value: value.to_string() }
}

#[test]
fn creating_with_an_unseen_category_name_adds_exactly_one_category() {
    let mut store = Store::new();
    store.add_category("rent".to_string(), None, CategoryKind::Expense).unwrap();
    let outcome = create_payment(&mut store, request("Food", -1000));
    let response = match outcome {
        WriteOutcome::Saved(response) => response,
        other => panic!("not saved: {:?}", other),
    };
    let categories = store.categories();
    assert_eq!(categories.len(), 2);
    assert_eq!(categories[1].name, "Food");
    assert_eq!(categories[1].kind, CategoryKind::Expense);
    assert_eq!(categories[1].icon, None);
    assert_eq!(response.category, "Food");
    assert_eq!(response.category_id, Some(categories[1].id));
    let payments = store.payments();
    assert_eq!(payments.len(), 1);
    assert_eq!(payments[0].id, response.id);
    assert_eq!(payments[0].record.category_id, categories[1].id);
    assert_eq!(payments[0].record.amount_in_cents, -1000);
    assert_eq!(payments[0].record.merchant_name, "Market");
    assert_eq!(payments[0].record.description, Some("Groceries".to_string()));
    assert_eq!(payments[0].record.wallet_id, None);
}

#[test]
fn creating_with_a_known_category_name_in_another_case_reuses_the_category() {
    let mut store = Store::new();
    let food = store.add_category("Food".to_string(), Some("🍎".to_string()), CategoryKind::Expense);
    let outcome = create_payment(&mut store, request("fOOD", -250));
    let response = match outcome {
        WriteOutcome::Saved(response) => response,
        other => panic!("not saved: {:?}", other),
    };
    assert_eq!(store.categories().len(), 1);
    assert_eq!(response.category, "Food");
    assert_eq!(response.category_id, food);
    assert_eq!(response.category_icon, Some("🍎".to_string()));
}

#[test]
fn creating_with_a_missing_wallet_is_a_client_error_and_stores_nothing() {
    let mut store = Store::new();
    let mut wanted = request("food", -1000);
    wanted.wallet = Some("Savings".to_string());
    let outcome = create_payment(&mut store, wanted);
    assert_eq!(outcome.status(), 400);
    match outcome {
        WriteOutcome::WalletNotFound { name } => assert_eq!(name, "Savings"),
        other => panic!("unexpected: {:?}", other),
    }
    assert!(store.categories().is_empty());
    assert!(store.payments().is_empty());
    assert!(store.tags().is_empty());
}

#[test]
fn creating_with_an_unknown_category_id_is_a_client_error_and_stores_nothing() {
    let mut store = Store::new();
    let mut wanted = request("food", -1000);
    wanted.category_id = CategoryIdentifier::Uid(77);
    let outcome = create_payment(&mut store, wanted);
    assert_eq!(outcome.status(), 400);
    assert!(matches!(outcome, WriteOutcome::CategoryNotFound));
    assert!(store.payments().is_empty());
}

#[test]
fn creating_with_a_malformed_merchant_name_is_rejected_before_the_store_is_touched() {
    let mut store = Store::new();
    let mut wanted = request("food", -1000);
    wanted.merchant_name = "<script>".to_string();
    let outcome = create_payment(&mut store, wanted);
    assert_eq!(outcome.status(), 400);
    assert!(matches!(outcome, WriteOutcome::Invalid));
    assert!(store.categories().is_empty());
}

#[test]
fn a_blank_description_is_stored_as_none() {
    let mut store = Store::new();
    let mut wanted = request("food", -1000);
    wanted.description = Some("   ".to_string());
    let outcome = create_payment(&mut store, wanted);
    assert!(matches!(outcome, WriteOutcome::Saved(_)));
    assert_eq!(store.payments()[0].record.description, None);
}

#[test]
fn a_description_of_256_bytes_is_rejected() {
    let mut store = Store::new();
    let mut wanted = request("food", -1000);
    wanted.description = Some("a".repeat(256));
    let outcome = create_payment(&mut store, wanted);
    assert!(matches!(outcome, WriteOutcome::Invalid));
}

#[test]
fn creating_with_a_wallet_and_tags_shows_them_in_the_response() {
    let mut store = Store::new();
    let wallet = store.add_wallet("Cash".to_string());
    let mut wanted = request("food", -1000);
    wanted.wallet = Some("Cash".to_string());
    wanted.tags = Some(vec![tag("k1", "v1"), tag("k2", "v2")]);
    let outcome = create_payment(&mut store, wanted);
    assert_eq!(outcome.status(), 200);
    let response = match outcome {
        WriteOutcome::Saved(response) => response,
        other => panic!("not saved: {:?}", other),
    };
    assert_eq!(response.wallet, Some("Cash".to_string()));
    assert_eq!(store.payments()[0].record.wallet_id, wallet);
    assert_eq!(response.tags.len(), 2);
    assert_eq!(response.tags[0].key, "k1");
    assert_eq!(response.tags[0].value, "v1");
    assert_eq!(response.tags[1].key, "k2");
    assert_eq!(response.tags[1].value, "v2");
    let tags = store.tags();
    assert_eq!(tags.len(), 2);
    assert_eq!(tags[0].payment_id, response.id);
    assert_eq!(tags[1].payment_id, response.id);
}

#[test]
fn updating_the_tag_list_leaves_exactly_the_new_tags() {
    let mut store = Store::new();
    let mut first = request("food", -1000);
    first.tags = Some(vec![tag("k1", "v1")]);
    let created = match create_payment(&mut store, first) {
        WriteOutcome::Saved(response) => response,
        other => panic!("not saved: {:?}", other),
    };
    let change = UpdatePaymentRequest {
        description: None,
        category_id: CategoryIdentifier::Uid(created.category_id.unwrap()),
        amount_in_cents: -2000,
        merchant_name: "Bakery".to_string(),
        accounting_date: noon(2026, 1, 17),
        wallet: None,
        tags: Some(vec![tag("k2", "v2")]),
    };
    let outcome = update_payment(&mut store, created.id, change);
    let response = match outcome {
        WriteOutcome::Saved(response) => response,
        other => panic!("not saved: {:?}", other),
    };
    assert_eq!(response.id, created.id);
    assert_eq!(response.amount_in_cents, -2000);
    assert_eq!(response.merchant_name, "Bakery");
    assert_eq!(response.description, None);
    assert_eq!(response.tags.len(), 1);
    assert_eq!(response.tags[0].key, "k2");
    assert_eq!(response.tags[0].value, "v2");
    let tags = store.tags();
    assert_eq!(tags.len(), 1);
    assert_eq!(tags[0].payment_id, created.id);
    assert_eq!(tags[0].key, "k2");
    assert_eq!(tags[0].value, "v2");
    let payments = store.payments();
    assert_eq!(payments.len(), 1);
    assert_eq!(payments[0].record.amount_in_cents, -2000);
    assert_eq!(payments[0].record.merchant_name, "Bakery");
}
