//! Two creations at once. Each of them sends its statements in its own
//! order, and the store runs the statements of both in any order. When both
//! name the same new category, one of them creates it and the other finds
//! it: the unique names of the category table settle the race.

use vstd::prelude::*;
use crate::domain::CategoryKind;
use crate::features::payments::create::CreatePaymentRequest;
use crate::features::payments::models::CategoryIdentifier;
use crate::features::payments::write::{
    lemma_advance_progresses, PaymentWrite, Phase, Plan, Step, WriteOutcome,
};
use crate::store::memory::Store;
use crate::store::model::{
    category_id, category_with_id, lemma_apply_keeps_wf, lemma_found_after_push,
    lemma_found_by_key, named_like, payment_with_id, wallet_id, wallet_named, wallet_with_id,
    StoreView,
};
use crate::store::protocol::StoreReply;
use crate::store::rows::CategoryRow;
use crate::store::seqs::lemma_position;
use crate::text::same_ignoring_case;

verus! {

/// The category that a creation adds when it wins the race.
pub open spec fn new_category(plan: Plan, before: StoreView) -> CategoryRow {
    CategoryRow {
        id: before.next_id,
        name: plan.category->Name_0,
        icon: None,
        kind: CategoryKind::Expense,
    }
}

/// Two creations race for one category: both name it, by names that are the
/// same up to case, and no category has that name yet. Their wallets, if
/// any, exist, and the store has an id for every row that they may add.
pub open spec fn racing(first: Plan, second: Plan, before: StoreView) -> bool {
    &&& before.wf()
    &&& first.target is None && second.target is None
    &&& !first.wallet_missing(before) && !second.wallet_missing(before)
    &&& first.category is Name && second.category is Name
    &&& same_ignoring_case(first.category->Name_0@, second.category->Name_0@)
    &&& before.category_named(first.category->Name_0@) is None
    &&& before.next_id + 4 + first.tags.len() + second.tags.len() < u128::MAX
}

/// The category has been created, by one of the two.
pub open spec fn created(first: Plan, second: Plan, before: StoreView, now: StoreView) -> bool {
    ||| now.categories == before.categories.push(new_category(first, before))
    ||| now.categories == before.categories.push(new_category(second, before))
}

/// The ids that a creation may still ask of the store.
pub open spec fn ids_needed(step: Step) -> nat {
    match step {
        Step::Finish(_) => 0,
        Step::Ask(write) => match write.phase {
            Phase::ResolvingWallet { .. } => 2 + write.tags@.len(),
            Phase::FindingCategory { .. } => 2 + write.tags@.len(),
            Phase::CreatingCategory { .. } => 2 + write.tags@.len(),
            Phase::RefindingCategory { .. } => 2 + write.tags@.len(),
            Phase::CheckingCategory => 1 + write.tags@.len(),
            Phase::Persisting => 1 + write.tags@.len(),
            Phase::InsertingTags { next, .. } => if next < write.tags@.len() {
                (write.tags@.len() - next) as nat
            } else {
                0
            },
            _ => 0,
        },
    }
}

/// The payments that a creation has stored: one, once it is past the insert.
pub open spec fn stored_by(step: Step) -> nat {
    match step {
        Step::Finish(_) => 1,
        Step::Ask(write) => match write.phase {
            Phase::InsertingTags { .. } => 1,
            Phase::ReadingWalletName { .. } => 1,
            Phase::ReadingTags => 1,
            Phase::ReadingCategoryName => 1,
            Phase::ReadingCategoryIcon => 1,
            _ => 0,
        },
    }
}

/// Where one of the two creations stands. Once it has resolved its category,
/// the category is the new one, whoever created it.
pub open spec fn settled(plan: Plan, before: StoreView, now: StoreView, step: Step, made: bool)
    -> bool {
    match step {
        Step::Finish(outcome) => made && (outcome matches WriteOutcome::Saved(response)
            && response.category_id == Some(before.next_id)),
        Step::Ask(write) => {
            &&& write.target is None
            &&& write.category == plan.category
            &&& write.tags@ == plan.tags
            &&& match write.phase {
                Phase::ResolvingWallet { name } => plan.wallet == Some(name),
                Phase::FindingCategory { name } => plan.category == CategoryIdentifier::Name(name)
                    && write.record.wallet_id == plan.wallet_id(before),
                Phase::CreatingCategory { name } => plan.category == CategoryIdentifier::Name(name)
                    && write.record.wallet_id == plan.wallet_id(before),
                Phase::RefindingCategory { name } => made && plan.category
                    == CategoryIdentifier::Name(name) && write.record.wallet_id == plan.wallet_id(
                    before,
                ),
                Phase::CheckingCategory => made && write.record.category_id == before.next_id
                    && write.record.wallet_id == plan.wallet_id(before),
                Phase::Persisting => made && write.record.category_id == before.next_id
                    && write.record.wallet_id == plan.wallet_id(before),
                Phase::ClearingTags => false,
                Phase::InsertingTags { next, .. } => made && write.record.category_id
                    == before.next_id && now.payment(write.payment_id) is Some && next
                    < write.tags@.len(),
                _ => made && write.record.category_id == before.next_id,
            }
        },
    }
}

/// The race is on its way to a single category: nothing is stored before
/// the category is created, it is created once, and whichever creation has
/// resolved its category has resolved it to that one.
pub open spec fn converging(
    first: Plan,
    second: Plan,
    before: StoreView,
    now: StoreView,
    a: Step,
    b: Step,
) -> bool {
    &&& now.wf()
    &&& now.wallets == before.wallets
    &&& created(first, second, before, now) || now == before
    &&& now.payments.len() == before.payments.len() + stored_by(a) + stored_by(b)
    &&& now.next_id + ids_needed(a) + ids_needed(b) < u128::MAX
    &&& settled(first, before, now, a, created(first, second, before, now))
    &&& settled(second, before, now, b, created(first, second, before, now))
}

/// The new category is found by its id and by either of the two names.
proof fn lemma_new_category_found(first: Plan, second: Plan, before: StoreView, now: StoreView)
    requires
        racing(first, second, before),
        created(first, second, before, now),
    ensures
        now.category(before.next_id) is Some,
        now.category_named(first.category->Name_0@) matches Some(row) && row.id == before.next_id,
        now.category_named(second.category->Name_0@) matches Some(row) && row.id
            == before.next_id,
{
    let row = now.categories.last();
    let a = first.category->Name_0@;
    let b = second.category->Name_0@;
    lemma_position(before.categories, named_like(a));
    lemma_position(before.categories, named_like(b));
    assert forall|j: int| 0 <= j < before.categories.len() implies !named_like(b)(
        #[trigger] before.categories[j],
    ) by {
        assert(!named_like(a)(before.categories[j]));
    }
    crate::store::seqs::lemma_position_is(
        before.categories,
        named_like(b),
        before.categories.len() as int,
    );
    lemma_found_after_push(before.categories, named_like(a), row);
    lemma_found_after_push(before.categories, named_like(b), row);
    lemma_position(before.categories, category_with_id(before.next_id));
    lemma_found_after_push(before.categories, category_with_id(before.next_id), row);
}

/// One statement of one of the two creations keeps the race converging,
/// wherever the other creation stands.
pub proof fn lemma_race_step(
    mover: Plan,
    other: Plan,
    before: StoreView,
    now: StoreView,
    write: PaymentWrite,
    reply: StoreReply,
    waiting: Step,
)
    requires
        racing(mover, other, before),
        converging(mover, other, before, now, Step::Ask(write), waiting),
        reply@ == now.apply(write.request()).1,
    ensures
        converging(mover, other, before, now.apply(write.request()).0, write.next(reply), waiting),
{
    let then = now.apply(write.request()).0;
    let step = write.next(reply);
    let made = created(mover, other, before, now);
    lemma_apply_keeps_wf(now, write.request());
    assert(write.tags.len() == write.tags@.len());
    if made {
        lemma_new_category_found(mover, other, before, now);
    }
    match mover.wallet {
        Some(name) => {
            lemma_found_by_key(
                before.wallets,
                wallet_named(name@),
                wallet_id(),
                wallet_with_id(mover.wallet_id(before)->0),
            );
        },
        None => {},
    }
    match write.phase {
        Phase::CreatingCategory { name } => {
            if !made {
                assert(then.categories == before.categories.push(new_category(mover, before)));
            }
        },
        Phase::Persisting => {
            assert forall|id: u128| now.payment(id) is Some implies then.payment(id) is Some by {
                lemma_found_after_push(now.payments, payment_with_id(id), then.payments.last());
            }
            let id = now.next_id;
            lemma_position(now.payments, payment_with_id(id));
            lemma_found_after_push(now.payments, payment_with_id(id), then.payments.last());
        },
        _ => {},
    }
    assert(settled(other, before, then, waiting, created(mover, other, before, then)));
    assert(settled(mover, before, then, step, created(mover, other, before, then)));
}

/// A race looks the same from both sides.
pub proof fn lemma_race_is_symmetric(
    first: Plan,
    second: Plan,
    before: StoreView,
    now: StoreView,
    a: Step,
    b: Step,
)
    requires
        racing(first, second, before),
    ensures
        racing(second, first, before),
        converging(first, second, before, now, a, b) <==> converging(second, first, before, now, b, a),
{
    let x = first.category->Name_0@;
    let y = second.category->Name_0@;
    lemma_position(before.categories, named_like(x));
    assert forall|j: int| 0 <= j < before.categories.len() implies !named_like(y)(
        #[trigger] before.categories[j],
    ) by {
        assert(!named_like(x)(before.categories[j]));
    }
    crate::store::seqs::lemma_position_is(
        before.categories,
        named_like(y),
        before.categories.len() as int,
    );
}

fn is_finished(step: &Step) -> (r: bool)
    ensures
        r == (*step is Finish),
{
    match step {
        Step::Finish(_) => true,
        Step::Ask(_) => false,
    }
}

/// Runs two creations against one store, with their statements interleaved
/// as the schedule says: at each turn the first creation moves if the
/// schedule says `true` and the second if it says `false`; a creation that
/// has ended leaves its turns to the other, and when the schedule is used up
/// the first creation runs to its end, then the second.
///
/// When the two name the same new category, by names that are the same up
/// to case, then whatever the schedule: the category table gains exactly one
/// row, with the name as one of the two spells it; both payments are stored,
/// and both reference that row.
pub fn create_concurrently(
    store: &mut Store,
    first: CreatePaymentRequest,
    second: CreatePaymentRequest,
    schedule: &Vec<bool>,
) -> (outcomes: (WriteOutcome, WriteOutcome))
    ensures
        old(store)@.wf() ==> final(store)@.wf(),
        first.valid() && second.valid() && racing(first.plan(), second.plan(), old(store)@) ==> {
            &&& created(first.plan(), second.plan(), old(store)@, final(store)@)
            &&& outcomes.0 matches WriteOutcome::Saved(response) && response.category_id == Some(
                old(store)@.next_id,
            )
            &&& outcomes.1 matches WriteOutcome::Saved(response) && response.category_id == Some(
                old(store)@.next_id,
            )
            &&& final(store)@.payments.len() == old(store)@.payments.len() + 2
        },
{
    let ghost before = store@;
    let ghost one = first.plan();
    let ghost two = second.plan();
    let ghost fair = first.valid() && second.valid() && racing(one, two, before);
    let mut a = first.begin();
    let mut b = second.begin();
    let mut turn: usize = 0;
    loop
        invariant
            before == old(store)@,
            before.wf() ==> store@.wf(),
            fair == (first.valid() && second.valid() && racing(one, two, before)),
            one == first.plan(),
            two == second.plan(),
            fair ==> converging(one, two, before, store@, a, b),
        decreases a.rank() + b.rank(), a.remaining() + b.remaining(),
    {
        let a_done = is_finished(&a);
        let b_done = is_finished(&b);
        let first_moves = if a_done {
            false
        } else if b_done {
            true
        } else if turn < schedule.len() {
            schedule[turn]
        } else {
            true
        };
        if turn < schedule.len() {
            turn += 1;
        }
        match (a, b) {
            (Step::Finish(x), Step::Finish(y)) => {
                return (x, y);
            },
            (Step::Ask(write), waiting) if first_moves => {
                let ghost now = store@;
                let reply = store.apply(&write.request());
                proof {
                    if now.wf() {
                        lemma_apply_keeps_wf(now, write.request());
                    }
                    if fair {
                        lemma_race_step(one, two, before, now, write, reply, waiting);
                    }
                    lemma_advance_progresses(write, reply);
                }
                a = write.advance(reply);
                b = waiting;
            },
            (waiting, Step::Ask(write)) => {
                let ghost now = store@;
                let reply = store.apply(&write.request());
                proof {
                    if now.wf() {
                        lemma_apply_keeps_wf(now, write.request());
                    }
                    if fair {
                        lemma_race_is_symmetric(one, two, before, now, waiting, Step::Ask(write));
                        lemma_race_step(two, one, before, now, write, reply, waiting);
                        lemma_race_is_symmetric(
                            two,
                            one,
                            before,
                            now.apply(write.request()).0,
                            write.next(reply),
                            waiting,
                        );
                    }
                    lemma_advance_progresses(write, reply);
                }
                a = waiting;
                b = write.advance(reply);
            },
            (Step::Ask(_), Step::Finish(_)) => {
                // Not reached: the first creation moves when the second has
                // ended.
                return (WriteOutcome::Failed, WriteOutcome::Failed);
            },
        }
    }
}

} // verus!
