use expenses_monitor_be::domain::{Date, DateTime};
use expenses_monitor_be::features::balance::{
    BalanceOutcome, BalancePhase, BalanceQuery, BalanceResponse, BalanceStep,
};
use expenses_monitor_be::features::payments::{
    create_concurrently, CategoryIdentifier, CreatePaymentRequest, DeleteOutcome, DeleteStep,
    PaymentDeletion, PaymentWrite, Phase, Step, TagDto, WriteOutcome,
};
use expenses_monitor_be::store::{Store, StoreReply, StoreRequest};

fn request(category: &str, merchant: &str, wallet: Option<&str>, tags: usize) -> CreatePaymentRequest {
    CreatePaymentRequest {
        description: None,
        category_id: CategoryIdentifier::Name(category.to_string()),
        amount_in_cents: -100,
        merchant_name: merchant.to_string(),
        accounting_date: DateTime {
            date: Date { year: 2026, month: 5, day: 5 },
            second: 0,
            nanosecond: 0,
        },
        wallet: wallet.map(|w| w.to_string()),
        tags: if tags == 0 {
            None
        } else {
            Some((0..tags).map(|i| TagDto { key: format!("k{}", i), value: merchant.to_string() }).collect())
        },
    }
}

fn schedule_of(bits: u32, length: usize) -> Vec<bool> {
    (0..length).map(|i| (bits >> i) & 1 == 1).collect()
}

#[test]
fn two_creations_of_one_unseen_category_converge_under_every_schedule() {
    for bits in 0..(1u32 << 12) {
        let mut store = Store::new();
        store.add_wallet("Cash".to_string()).unwrap();
        store.add_category("Rent".to_string(), None, Default::default()).unwrap();
        let schedule = schedule_of(bits, 12);
        let (one, two) = create_concurrently(
            &mut store,
            request("Food", "First", Some("Cash"), 2),
            request("fOOD", "Second", None, 1),
            &schedule,
        );
        let one = match one {
            WriteOutcome::Saved(response) => response,
            other => panic!("first not saved under {:?}: {:?}", schedule, other),
        };
        let two = match two {
            WriteOutcome::Saved(response) => response,
            other => panic!("second not saved under {:?}: {:?}", schedule, other),
        };
        let categories = store.categories();
        assert_eq!(categories.len(), 2, "schedule {:?}", schedule);
        let food = &categories[1];
        assert!(food.name == "Food" || food.name == "fOOD");
        assert_eq!(one.category_id, Some(food.id));
        assert_eq!(two.category_id, Some(food.id));
        assert_eq!(one.category, food.name);
        assert_eq!(two.category, food.name);
        assert_eq!(store.payments().len(), 2);
        assert!(store.payments().iter().all(|p| p.record.category_id == food.id));
        assert_eq!(store.tags().len(), 3);
        assert_eq!(one.tags.len(), 2);
        assert_eq!(two.tags.len(), 1);
    }
}

#[test]
fn the_loser_of_the_race_reads_the_category_again() {
    let mut store = Store::new();
    let first = match request("Food", "First", None, 0).begin() {
        Step::Ask(write) => write,
        other => panic!("unexpected: {:?}", other),
    };
    let second = match request("food", "Second", None, 0).begin() {
        Step::Ask(write) => write,
        other => panic!("unexpected: {:?}", other),
    };
    // Both look the category up before either creates it.
    let first = match first.request() {
        StoreRequest::CategoryIdByName { .. } => {
            let reply = store.apply(&first.request());
            match first.advance(reply) {
                Step::Ask(write) => write,
                other => panic!("unexpected: {:?}", other),
            }
        }
        other => panic!("unexpected: {:?}", other),
    };
    let reply = store.apply(&second.request());
    let second = match second.advance(reply) {
        Step::Ask(write) => write,
        other => panic!("unexpected: {:?}", other),
    };
    assert!(matches!(first.phase, Phase::CreatingCategory { .. }));
    assert!(matches!(second.phase, Phase::CreatingCategory { .. }));
    // The first wins the insert, the second runs into the unique name.
    let reply = store.apply(&first.request());
    assert!(matches!(reply, StoreReply::Id(_)));
    let first = match first.advance(reply) {
        Step::Ask(write) => write,
        other => panic!("unexpected: {:?}", other),
    };
    let reply = store.apply(&second.request());
    assert!(matches!(reply, StoreReply::Failed));
    let second = match second.advance(reply) {
        Step::Ask(write) => write,
        other => panic!("unexpected: {:?}", other),
    };
    assert!(matches!(second.phase, Phase::RefindingCategory { .. }));
    let reply = store.apply(&second.request());
    let second = match second.advance(reply) {
        Step::Ask(write) => write,
        other => panic!("unexpected: {:?}", other),
    };
    assert!(matches!(second.phase, Phase::CheckingCategory));
    assert_eq!(second.record.category_id, first.record.category_id);
    assert_eq!(store.categories().len(), 1);
    assert_eq!(store.categories()[0].name, "Food");
}

fn started(tags: usize, target: Option<u128>) -> PaymentWrite {
    let wanted = request("food", "Market", Some("Cash"), tags);
    let step = PaymentWrite::begin(
        target,
        wanted.description,
        wanted.category_id,
        wanted.amount_in_cents,
        wanted.merchant_name,
        wanted.accounting_date,
        wanted.wallet,
        wanted.tags,
    );
    match step {
        Step::Ask(write) => write,
        other => panic!("unexpected: {:?}", other),
    }
}

fn ask(step: Step) -> PaymentWrite {
    match step {
        Step::Ask(write) => write,
        other => panic!("ended: {:?}", other),
    }
}

#[test]
fn a_failing_re_read_after_a_failed_category_insert_is_a_server_error() {
    let write = started(0, None);
    assert!(matches!(write.request(), StoreRequest::WalletIdByName { .. }));
    let write = ask(write.advance(StoreReply::MaybeId(Some(3))));
    assert!(matches!(write.request(), StoreRequest::CategoryIdByName { .. }));
    let write = ask(write.advance(StoreReply::MaybeId(None)));
    assert!(matches!(write.request(), StoreRequest::InsertCategory { .. }));
    let write = ask(write.advance(StoreReply::Failed));
    assert!(matches!(write.request(), StoreRequest::CategoryIdByName { .. }));
    match write.advance(StoreReply::MaybeId(None)) {
        Step::Finish(outcome) => {
            assert!(matches!(outcome, WriteOutcome::Failed));
            assert_eq!(outcome.status(), 500);
        }
        other => panic!("unexpected: {:?}", other),
    }
}

#[test]
fn a_store_failure_during_resolution_is_a_server_error() {
    let write = started(0, None);
    match write.advance(StoreReply::Failed) {
        Step::Finish(outcome) => assert_eq!(outcome.status(), 500),
        other => panic!("unexpected: {:?}", other),
    }
    let write = ask(started(0, None).advance(StoreReply::MaybeId(Some(3))));
    match write.advance(StoreReply::Failed) {
        Step::Finish(outcome) => assert_eq!(outcome.status(), 500),
        other => panic!("unexpected: {:?}", other),
    }
}

fn up_to_persisting(tags: usize, target: Option<u128>) -> PaymentWrite {
    let write = started(tags, target);
    let write = ask(write.advance(StoreReply::MaybeId(Some(3))));
    let write = ask(write.advance(StoreReply::MaybeId(Some(8))));
    assert!(matches!(write.request(), StoreRequest::CategoryExists { id: 8 }));
    let write = ask(write.advance(StoreReply::MaybeId(Some(8))));
    assert!(matches!(write.phase, Phase::Persisting));
    write
}

#[test]
fn a_failed_tag_insert_does_not_fail_a_creation() {
    let write = up_to_persisting(2, None);
    match write.request() {
        StoreRequest::InsertPayment { payment } => {
            assert_eq!(payment.category_id, 8);
            assert_eq!(payment.wallet_id, Some(3));
            assert_eq!(payment.merchant_name, "Market");
        }
        other => panic!("unexpected: {:?}", other),
    }
    let write = ask(write.advance(StoreReply::Id(40)));
    match write.request() {
        StoreRequest::InsertPaymentTag { payment_id, key, value } => {
            assert_eq!(payment_id, 40);
            assert_eq!(key, "k0");
            assert_eq!(value, "Market");
        }
        other => panic!("unexpected: {:?}", other),
    }
    // The first tag fails: the second is not tried, and the creation goes on
    // to build its response.
    let write = ask(write.advance(StoreReply::Failed));
    assert!(matches!(write.request(), StoreRequest::WalletName { id: 3 }));
    let write = ask(write.advance(StoreReply::Failed));
    assert!(matches!(write.request(), StoreRequest::PaymentTags { payment_id: 40 }));
    let write = ask(write.advance(StoreReply::Failed));
    assert!(matches!(write.request(), StoreRequest::CategoryName { id: 8 }));
    let write = ask(write.advance(StoreReply::Failed));
    assert!(matches!(write.request(), StoreRequest::CategoryIcon { id: 8 }));
    match write.advance(StoreReply::Failed) {
        Step::Finish(WriteOutcome::Saved(response)) => {
            assert_eq!(response.id, 40);
            assert_eq!(response.category, "");
            assert_eq!(response.category_id, Some(8));
            assert_eq!(response.category_icon, None);
            assert_eq!(response.wallet, None);
            assert!(response.tags.is_empty());
        }
        other => panic!("unexpected: {:?}", other),
    }
}

#[test]
fn a_failed_tag_insert_fails_an_update() {
    let write = up_to_persisting(2, Some(40));
    match write.request() {
        StoreRequest::UpdatePayment { id, payment } => {
            assert_eq!(id, 40);
            assert_eq!(payment.category_id, 8);
        }
        other => panic!("unexpected: {:?}", other),
    }
    let write = ask(write.advance(StoreReply::Done));
    assert!(matches!(write.request(), StoreRequest::DeletePaymentTags { payment_id: 40 }));
    let write = ask(write.advance(StoreReply::Done));
    assert!(matches!(write.request(), StoreRequest::InsertPaymentTag { payment_id: 40, .. }));
    let write = ask(write.advance(StoreReply::Done));
    assert!(matches!(write.request(), StoreRequest::InsertPaymentTag { payment_id: 40, .. }));
    match write.advance(StoreReply::Failed) {
        Step::Finish(outcome) => assert_eq!(outcome.status(), 500),
        other => panic!("unexpected: {:?}", other),
    }
}

#[test]
fn a_failed_tag_removal_fails_an_update() {
    let write = up_to_persisting(0, Some(40));
    let write = ask(write.advance(StoreReply::Done));
    match write.advance(StoreReply::Failed) {
        Step::Finish(outcome) => assert!(matches!(outcome, WriteOutcome::Failed)),
        other => panic!("unexpected: {:?}", other),
    }
}

#[test]
fn a_reply_of_the_wrong_kind_is_a_failure_of_the_store() {
    let write = up_to_persisting(0, None);
    match write.advance(StoreReply::Done) {
        Step::Finish(outcome) => assert!(matches!(outcome, WriteOutcome::Failed)),
        other => panic!("unexpected: {:?}", other),
    }
}

#[test]
fn a_deletion_removes_tags_before_the_payment_and_fails_with_the_store() {
    let deletion = PaymentDeletion::begin(5);
    assert!(matches!(deletion.request(), StoreRequest::DeletePaymentTags { payment_id: 5 }));
    let deletion = match deletion.advance(StoreReply::Done) {
        DeleteStep::Ask(next) => next,
        other => panic!("unexpected: {:?}", other),
    };
    assert!(matches!(deletion.request(), StoreRequest::DeletePayment { id: 5 }));
    assert_eq!(deletion.advance(StoreReply::Done), DeleteStep::Finish(DeleteOutcome::Deleted));
    assert_eq!(deletion.advance(StoreReply::Failed), DeleteStep::Finish(DeleteOutcome::Failed));
    assert_eq!(
        PaymentDeletion::begin(5).advance(StoreReply::Failed),
        DeleteStep::Finish(DeleteOutcome::Failed)
    );
    assert_eq!(DeleteOutcome::Failed.status(), 500);
}

#[test]
fn the_reading_of_a_balance_fails_with_the_store() {
    let query = |wallet: Option<&str>| BalanceQuery {
        wallet_name: wallet.map(|w| w.to_string()),
        start_date: Some(Date { year: 2026, month: 1, day: 1 }),
        end_date: None,
    };
    let read = query(Some("Cash")).begin();
    assert!(matches!(read.request(), StoreRequest::WalletIdByName { .. }));
    match read.advance(StoreReply::Failed) {
        BalanceStep::Finish(outcome) => {
            assert_eq!(outcome, BalanceOutcome::Failed);
            assert_eq!(outcome.status(), 500);
        }
        other => panic!("unexpected: {:?}", other),
    }
    let read = match query(Some("Cash")).begin().advance(StoreReply::MaybeId(Some(4))) {
        BalanceStep::Ask(read) => read,
        other => panic!("unexpected: {:?}", other),
    };
    assert!(matches!(read.phase, BalancePhase::Summing { wallet_id: Some(4) }));
    match read.request() {
        StoreRequest::Balance { wallet_id, start, end } => {
            assert_eq!(wallet_id, Some(4));
            assert_eq!(start, Some(Date { year: 2026, month: 1, day: 1 }));
            assert_eq!(end, None);
        }
        other => panic!("unexpected: {:?}", other),
    }
    match read.advance(StoreReply::Sums { total: -3, income: 4, expenses: -7 }) {
        BalanceStep::Finish(BalanceOutcome::Balance(balance)) => assert_eq!(
            balance,
            BalanceResponse { total_in_cents: -3, income_in_cents: 4, expenses_in_cents: -7 }
        ),
        other => panic!("unexpected: {:?}", other),
    }
    let read = query(None).begin();
    assert!(matches!(read.request(), StoreRequest::Balance { wallet_id: None, .. }));
    assert!(matches!(
        read.advance(StoreReply::Done),
        BalanceStep::Finish(BalanceOutcome::Failed)
    ));
}
