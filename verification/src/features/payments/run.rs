//! Runs a write against the in-memory store, statement by statement, and
//! shows that the store ends as the plan of the write says.

use vstd::prelude::*;
use crate::features::payments::effects::{
    lemma_payment_present, lemma_references_resolved, lemma_wallet_read_back,
};
use crate::features::payments::models::CategoryIdentifier;
use crate::features::payments::write::{
    lemma_advance_progresses, PaymentWrite, Phase, Plan, Step, WriteOutcome,
};
use crate::store::memory::Store;
use crate::store::model::{lemma_apply_keeps_wf, StoreView};
use crate::store::protocol::StoreReply;

verus! {

/// How a write that started on the tables `before` has ended, the tables now
/// being `after`: rejected for a missing wallet or category with the tables
/// untouched, or through, with the tables as the plan says and a response
/// that shows the stored payment.
///
/// The update of a payment that the store does not have changes no row. It
/// fails when the request has tags, there being no payment for them, and
/// else is answered as if the payment were there.
pub open spec fn ended(plan: Plan, before: StoreView, after: StoreView, outcome: WriteOutcome)
    -> bool {
    if plan.wallet_missing(before) {
        after == before && outcome == (WriteOutcome::WalletNotFound { name: plan.wallet->0 })
    } else if plan.category_missing(before) {
        after == before && outcome == WriteOutcome::CategoryNotFound
    } else if plan.orphan(before) && plan.tags.len() > 0 {
        after == plan.cleared(before) && outcome == WriteOutcome::Failed
    } else {
        after == plan.stored(before) && (outcome matches WriteOutcome::Saved(response)
            && plan.answers(before, response))
    }
}

/// The write is where the plan says it should be, the tables being `now` and
/// having been `before` when it started.
pub open spec fn on_track(plan: Plan, before: StoreView, now: StoreView, step: Step) -> bool {
    match step {
        Step::Finish(outcome) => ended(plan, before, now, outcome),
        Step::Ask(write) => {
            &&& write.follows(plan)
            &&& !plan.wallet_missing(before) || write.phase is ResolvingWallet
            &&& match write.phase {
                Phase::ResolvingWallet { name } => {
                    &&& now == before
                    &&& plan.wallet == Some(name)
                    &&& write.record.wallet_id is None
                    &&& write.nothing_read()
                },
                Phase::FindingCategory { name } => {
                    &&& now == before
                    &&& plan.category == CategoryIdentifier::Name(name)
                    &&& write.record.wallet_id == plan.wallet_id(before)
                    &&& write.nothing_read()
                },
                Phase::CreatingCategory { name } => {
                    &&& now == before
                    &&& plan.category == CategoryIdentifier::Name(name)
                    &&& plan.creates_category(before)
                    &&& write.record.wallet_id == plan.wallet_id(before)
                    &&& write.nothing_read()
                },
                Phase::RefindingCategory { name } => false,
                Phase::CheckingCategory => {
                    &&& now == plan.resolved(before)
                    &&& write.record == plan.record(before)
                    &&& write.nothing_read()
                },
                Phase::Persisting => {
                    &&& now == plan.resolved(before)
                    &&& !plan.category_missing(before)
                    &&& write.record == plan.record(before)
                    &&& write.nothing_read()
                },
                Phase::ClearingTags => {
                    &&& plan.target is Some
                    &&& now == plan.persisted(before)
                    &&& !plan.category_missing(before)
                    &&& write.record == plan.record(before)
                    &&& write.payment_id == plan.payment_id(before)
                    &&& write.nothing_read()
                },
                Phase::InsertingTags { next, key, value } => {
                    &&& next < plan.tags.len()
                    &&& plan.orphan(before) ==> next == 0
                    &&& key == plan.tags[next as int].key
                    &&& value == plan.tags[next as int].value
                    &&& now == plan.tagged(before, next as int)
                    &&& !plan.category_missing(before)
                    &&& write.record == plan.record(before)
                    &&& write.payment_id == plan.payment_id(before)
                    &&& write.nothing_read()
                },
                Phase::ReadingWalletName { id } => {
                    &&& !(plan.orphan(before) && plan.tags.len() > 0)
                    &&& now == plan.stored(before)
                    &&& !plan.category_missing(before)
                    &&& write.record == plan.record(before)
                    &&& write.payment_id == plan.payment_id(before)
                    &&& write.nothing_read()
                    &&& plan.wallet_id(before) == Some(id)
                },
                Phase::ReadingTags => {
                    &&& !(plan.orphan(before) && plan.tags.len() > 0)
                    &&& now == plan.stored(before)
                    &&& !plan.category_missing(before)
                    &&& write.record == plan.record(before)
                    &&& write.payment_id == plan.payment_id(before)
                    &&& write.wallet_name == plan.wallet_name(before)
                    &&& write.response_tags@.len() == 0
                    &&& write.category_name@.len() == 0
                },
                Phase::ReadingCategoryName => {
                    &&& !(plan.orphan(before) && plan.tags.len() > 0)
                    &&& now == plan.stored(before)
                    &&& !plan.category_missing(before)
                    &&& write.record == plan.record(before)
                    &&& write.payment_id == plan.payment_id(before)
                    &&& write.wallet_name == plan.wallet_name(before)
                    &&& write.response_tags@ == now.tag_responses(plan.payment_id(before))
                    &&& write.category_name@.len() == 0
                },
                Phase::ReadingCategoryIcon => {
                    &&& !(plan.orphan(before) && plan.tags.len() > 0)
                    &&& now == plan.stored(before)
                    &&& !plan.category_missing(before)
                    &&& write.record == plan.record(before)
                    &&& write.payment_id == plan.payment_id(before)
                    &&& write.wallet_name == plan.wallet_name(before)
                    &&& write.response_tags@ == now.tag_responses(plan.payment_id(before))
                    &&& now.category(plan.category_id(before)) matches Some(row)
                        && write.category_name == row.name
                },
            }
        },
    }
}

/// What a run needs of the tables it starts on: they are well formed, and
/// they have an id for every row that the write may add.
pub open spec fn ready(plan: Plan, before: StoreView) -> bool {
    &&& before.wf()
    &&& plan.room(before)
}

/// One statement keeps a write on track: if the write is where the plan says,
/// then so it is after the store has run the statement it asked for and the
/// write has taken the reply.
pub proof fn lemma_step(
    plan: Plan,
    before: StoreView,
    now: StoreView,
    write: PaymentWrite,
    reply: StoreReply,
)
    requires
        ready(plan, before),
        on_track(plan, before, now, Step::Ask(write)),
        reply@ == now.apply(write.request()).1,
    ensures
        on_track(plan, before, now.apply(write.request()).0, write.next(reply)),
{
    let then = now.apply(write.request()).0;
    match write.phase {
        Phase::ResolvingWallet { name } => {
            if !plan.wallet_missing(before) && !plan.category_missing(before) {
                lemma_references_resolved(plan, before);
            }
        },
        Phase::FindingCategory { .. } => {},
        Phase::CreatingCategory { .. } => {},
        Phase::RefindingCategory { .. } => {},
        Phase::CheckingCategory => {
            if !plan.category_missing(before) {
                lemma_references_resolved(plan, before);
            }
        },
        Phase::Persisting => {
            lemma_references_resolved(plan, before);
            assert(plan.tagged(before, 0).tags =~= plan.cleared(before).tags);
        },
        Phase::ClearingTags => {
            assert(plan.tagged(before, 0).tags =~= plan.cleared(before).tags);
        },
        Phase::InsertingTags { next, key, value } => {
            lemma_payment_present(plan, before);
            assert(write.tags.len() == plan.tags.len());
            if plan.orphan(before) {
                assert(plan.tagged(before, 0).tags =~= plan.cleared(before).tags);
            } else {
                assert(then.tags =~= plan.tagged(before, next + 1).tags);
            }
        },
        Phase::ReadingWalletName { id } => {
            lemma_wallet_read_back(plan, before, id);
        },
        Phase::ReadingTags => {},
        Phase::ReadingCategoryName => {
            lemma_references_resolved(plan, before);
        },
        Phase::ReadingCategoryIcon => {
            lemma_references_resolved(plan, before);
        },
    }
}

/// Drives a write to its end against the in-memory store.
pub(crate) fn run(store: &mut Store, start: Step, Ghost(plan): Ghost<Plan>) -> (outcome:
    WriteOutcome)
    requires
        ready(plan, old(store)@) ==> on_track(plan, old(store)@, old(store)@, start),
        start != Step::Finish(WriteOutcome::Invalid),
    ensures
        old(store)@.wf() ==> final(store)@.wf(),
        ready(plan, old(store)@) ==> ended(plan, old(store)@, final(store)@, outcome),
        outcome != WriteOutcome::Invalid,
{
    let ghost before = store@;
    let mut step = start;
    loop
        invariant
            before == old(store)@,
            before.wf() ==> store@.wf(),
            ready(plan, before) ==> on_track(plan, before, store@, step),
            step != Step::Finish(WriteOutcome::Invalid),
        decreases step.rank(), step.remaining(),
    {
        match step {
            Step::Finish(outcome) => {
                return outcome;
            },
            Step::Ask(write) => {
                let request = write.request();
                let ghost now = store@;
                let reply = store.apply(&request);
                proof {
                    if now.wf() {
                        lemma_apply_keeps_wf(now, request);
                    }
                    if ready(plan, before) {
                        lemma_step(plan, before, now, write, reply);
                    }
                    lemma_advance_progresses(write, reply);
                }
                step = write.advance(reply);
            },
        }
    }
}

} // verus!
