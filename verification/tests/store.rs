use expenses_monitor_be::domain::{CategoryKind, Date, DateTime};
use expenses_monitor_be::store::{PaymentRecord, Store, StoreReply, StoreRequest};

fn record(category_id: u128, wallet_id: Option<u128>) -> PaymentRecord {
    PaymentRecord {
        category_id,
        description: Some("lunch".to_string()),
        merchant_name: "Canteen".to_string(),
        accounting_date: DateTime {
            date: Date { year: 2026, month: 6, day: 1 },
            second: 45000,
            nanosecond: 0,
        },
        amount_in_cents: -850,
        wallet_id,
    }
}

#[test]
fn a_new_store_is_empty_and_counts_its_ids_from_one() {
    let mut store = Store::new();
    assert!(store.categories().is_empty());
    assert!(store.wallets().is_empty());
    assert!(store.payments().is_empty());
    assert!(store.tags().is_empty());
    assert_eq!(store.add_wallet("Cash".to_string()), Some(1));
    assert_eq!(store.add_category("Food".to_string(), None, CategoryKind::Income), Some(2));
    assert_eq!(store.wallets()[0].name, "Cash");
    assert_eq!(store.categories()[0].kind, CategoryKind::Income);
    assert_eq!(CategoryKind::default(), CategoryKind::Expense);
}

#[test]
fn names_are_unique_in_their_tables() {
    let mut store = Store::new();
    assert!(store.add_wallet("Cash".to_string()).is_some());
    assert_eq!(store.add_wallet("Cash".to_string()), None);
    // Wallet names are compared as they are, category names without regard to case.
    assert!(store.add_wallet("cash".to_string()).is_some());
    assert!(store.add_category("Food".to_string(), None, CategoryKind::Expense).is_some());
    assert_eq!(store.add_category("FOOD".to_string(), None, CategoryKind::Income), None);
    assert!(matches!(
        store.apply(&StoreRequest::InsertCategory { name: "food".to_string() }),
        StoreReply::Failed
    ));
    assert_eq!(store.categories().len(), 1);
    assert_eq!(store.wallets().len(), 2);
}

#[test]
fn lookups_answer_with_ids_and_texts() {
    let mut store = Store::new();
    let cash = store.add_wallet("Cash".to_string()).unwrap();
    let food = store
        .add_category("Food".to_string(), Some("🍎".to_string()), CategoryKind::Expense)
        .unwrap();
    assert!(matches!(
        store.apply(&StoreRequest::WalletIdByName { name: "Cash".to_string() }),
        StoreReply::MaybeId(Some(id)) if id == cash
    ));
    assert!(matches!(
        store.apply(&StoreRequest::WalletIdByName { name: "CASH".to_string() }),
        StoreReply::MaybeId(None)
    ));
    assert!(matches!(
        store.apply(&StoreRequest::CategoryIdByName { name: "fOoD".to_string() }),
        StoreReply::MaybeId(Some(id)) if id == food
    ));
    assert!(matches!(
        store.apply(&StoreRequest::CategoryExists { id: food }),
        StoreReply::MaybeId(Some(id)) if id == food
    ));
    assert!(matches!(
        store.apply(&StoreRequest::CategoryExists { id: cash }),
        StoreReply::MaybeId(None)
    ));
    match store.apply(&StoreRequest::WalletName { id: cash }) {
        StoreReply::MaybeText(name) => assert_eq!(name, Some("Cash".to_string())),
        other => panic!("unexpected: {:?}", other),
    }
    match store.apply(&StoreRequest::CategoryName { id: food }) {
        StoreReply::Text(name) => assert_eq!(name, "Food"),
        other => panic!("unexpected: {:?}", other),
    }
    assert!(matches!(store.apply(&StoreRequest::CategoryName { id: 99 }), StoreReply::Failed));
    match store.apply(&StoreRequest::CategoryIcon { id: food }) {
        StoreReply::MaybeText(icon) => assert_eq!(icon, Some("🍎".to_string())),
        other => panic!("unexpected: {:?}", other),
    }
    assert!(matches!(
        store.apply(&StoreRequest::CategoryIcon { id: 99 }),
        StoreReply::MaybeText(None)
    ));
}

#[test]
fn references_between_tables_are_kept() {
    let mut store = Store::new();
    let food = store.add_category("Food".to_string(), None, CategoryKind::Expense).unwrap();
    // No category 50, no wallet 60.
    assert!(matches!(
        store.apply(&StoreRequest::InsertPayment { payment: record(50, None) }),
        StoreReply::Failed
    ));
    assert!(matches!(
        store.apply(&StoreRequest::InsertPayment { payment: record(food, Some(60)) }),
        StoreReply::Failed
    ));
    assert!(store.payments().is_empty());
    let payment = match store.apply(&StoreRequest::InsertPayment { payment: record(food, None) }) {
        StoreReply::Id(id) => id,
        other => panic!("unexpected: {:?}", other),
    };
    // A tag needs its payment.
    assert!(matches!(
        store.apply(&StoreRequest::InsertPaymentTag {
            payment_id: payment + 10,
            key: "k".to_string(),
            value: "v".to_string()
        }),
        StoreReply::Failed
    ));
    assert!(matches!(
        store.apply(&StoreRequest::InsertPaymentTag {
            payment_id: payment,
            key: "k".to_string(),
            value: "v".to_string()
        }),
        StoreReply::Done
    ));
    // A payment with tags cannot be removed; without them it can.
    assert!(matches!(
        store.apply(&StoreRequest::DeletePayment { id: payment }),
        StoreReply::Failed
    ));
    assert_eq!(store.payments().len(), 1);
    assert!(matches!(
        store.apply(&StoreRequest::DeletePaymentTags { payment_id: payment }),
        StoreReply::Done
    ));
    assert!(matches!(
        store.apply(&StoreRequest::DeletePayment { id: payment }),
        StoreReply::Done
    ));
    assert!(store.payments().is_empty());
    assert!(store.tags().is_empty());
}

#[test]
fn an_update_replaces_the_columns_of_one_payment() {
    let mut store = Store::new();
    let food = store.add_category("Food".to_string(), None, CategoryKind::Expense).unwrap();
    let rent = store.add_category("Rent".to_string(), None, CategoryKind::Expense).unwrap();
    let mut ids = Vec::new();
    for _ in 0..3 {
        match store.apply(&StoreRequest::InsertPayment { payment: record(food, None) }) {
            StoreReply::Id(id) => ids.push(id),
            other => panic!("unexpected: {:?}", other),
        }
    }
    let mut change = record(rent, None);
    change.amount_in_cents = -70000;
    change.description = None;
    assert!(matches!(
        store.apply(&StoreRequest::UpdatePayment { id: ids[1], payment: change }),
        StoreReply::Done
    ));
    let payments = store.payments();
    assert_eq!(payments.len(), 3);
    assert_eq!(payments[0].record.category_id, food);
    assert_eq!(payments[1].id, ids[1]);
    assert_eq!(payments[1].record.category_id, rent);
    assert_eq!(payments[1].record.amount_in_cents, -70000);
    assert_eq!(payments[1].record.description, None);
    assert_eq!(payments[2].record.amount_in_cents, -850);
    // An update that names a missing category is refused.
    assert!(matches!(
        store.apply(&StoreRequest::UpdatePayment { id: ids[0], payment: record(500, None) }),
        StoreReply::Failed
    ));
    // An update of a payment that is not there changes nothing.
    assert!(matches!(
        store.apply(&StoreRequest::UpdatePayment { id: 999, payment: record(rent, None) }),
        StoreReply::Done
    ));
    assert_eq!(store.payments()[0].record.category_id, food);
}

#[test]
fn the_tags_of_a_payment_come_back_in_the_order_of_their_storing() {
    let mut store = Store::new();
    let food = store.add_category("Food".to_string(), None, CategoryKind::Expense).unwrap();
    let one = match store.apply(&StoreRequest::InsertPayment { payment: record(food, None) }) {
        StoreReply::Id(id) => id,
        other => panic!("unexpected: {:?}", other),
    };
    let two = match store.apply(&StoreRequest::InsertPayment { payment: record(food, None) }) {
        StoreReply::Id(id) => id,
        other => panic!("unexpected: {:?}", other),
    };
    for (owner, key) in [(one, "a"), (two, "b"), (one, "c")] {
        store.apply(&StoreRequest::InsertPaymentTag {
            payment_id: owner,
            key: key.to_string(),
            value: "v".to_string(),
        });
    }
    match store.apply(&StoreRequest::PaymentTags { payment_id: one }) {
        StoreReply::Tags(tags) => {
            let keys: Vec<&str> = tags.iter().map(|t| t.key.as_str()).collect();
            assert_eq!(keys, vec!["a", "c"]);
        }
        other => panic!("unexpected: {:?}", other),
    }
    store.apply(&StoreRequest::DeletePaymentTags { payment_id: one });
    let left = store.tags();
    assert_eq!(left.len(), 1);
    assert_eq!(left[0].payment_id, two);
    assert_eq!(left[0].key, "b");
}

#[test]
fn the_balance_is_answered_in_sums() {
    let mut store = Store::new();
    let food = store.add_category("Food".to_string(), None, CategoryKind::Expense).unwrap();
    let job = store.add_category("Job".to_string(), None, CategoryKind::Income).unwrap();
    let mut salary = record(job, None);
    salary.amount_in_cents = i32::MAX;
    for payment in [record(food, None), salary.clone(), salary] {
        store.apply(&StoreRequest::InsertPayment { payment });
    }
    match store.apply(&StoreRequest::Balance { wallet_id: None, start: None, end: None }) {
        StoreReply::Sums { total, income, expenses } => {
            assert_eq!(income, 2 * i64::from(i32::MAX));
            assert_eq!(expenses, -850);
            assert_eq!(total, 2 * i64::from(i32::MAX) - 850);
        }
        other => panic!("unexpected: {:?}", other),
    }
}
