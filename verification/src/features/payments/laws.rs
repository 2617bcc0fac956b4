//! What the write pipeline guarantees, stated over the tables before and
//! after a write.

use vstd::prelude::*;
use crate::domain::CategoryKind;
use crate::features::payments::effects::{lemma_references_resolved, lemma_tags_after_write};
use crate::features::payments::models::CategoryIdentifier;
use crate::features::payments::run::{ended, ready};
use crate::features::payments::write::{Plan, WriteOutcome};
use crate::store::model::{
    category_with_id, lemma_found_after_push, named_like, StoreView,
};
use crate::store::rows::{CategoryRow, PaymentRow};
use crate::store::seqs::lemma_position;
use crate::text::same_ignoring_case;

verus! {

/// Creating a payment under a category name that no category has, whatever
/// the case of its letters, adds exactly one category. The new category has
/// the name as the request spells it, a lookup by that name finds it, and the
/// new payment references it.
pub proof fn lemma_unseen_category_is_created_once(
    plan: Plan,
    before: StoreView,
    after: StoreView,
    outcome: WriteOutcome,
    name: String,
)
    requires
        ready(plan, before),
        ended(plan, before, after, outcome),
        plan.target is None,
        !plan.wallet_missing(before),
        plan.category == CategoryIdentifier::Name(name),
        before.category_named(name@) is None,
    ensures
        after.categories == before.categories.push(
            CategoryRow { id: before.next_id, name, icon: None, kind: CategoryKind::Expense },
        ),
        after.category_named(name@) == Some(after.categories.last()),
        outcome matches WriteOutcome::Saved(response) && response.category == name
            && response.category_id == Some(before.next_id) && after.payments
            == before.payments.push(PaymentRow { id: response.id, record: plan.record(before) }),
        plan.record(before).category_id == before.next_id,
{
    let row = CategoryRow { id: before.next_id, name, icon: None, kind: CategoryKind::Expense };
    lemma_found_after_push(before.categories, named_like(name@), row);
    lemma_references_resolved(plan, before);
    lemma_position(before.categories, category_with_id(before.next_id));
    lemma_found_after_push(before.categories, category_with_id(before.next_id), row);
}

/// Creating or updating a payment under a category name that a category has,
/// whatever the case of its letters, adds no category: the payment references
/// the one that is there.
pub proof fn lemma_known_category_is_reused(
    plan: Plan,
    before: StoreView,
    after: StoreView,
    outcome: WriteOutcome,
    name: String,
)
    requires
        ready(plan, before),
        ended(plan, before, after, outcome),
        !plan.wallet_missing(before),
        plan.category == CategoryIdentifier::Name(name),
        before.category_named(name@) is Some,
    ensures
        after.categories == before.categories,
        !(plan.orphan(before) && plan.tags.len() > 0) ==> (outcome matches WriteOutcome::Saved(
            response,
        ) && response.category_id == Some(before.category_named(name@)->0.id)),
        same_ignoring_case(before.category_named(name@)->0.name@, name@),
{
    lemma_position(before.categories, named_like(name@));
}

/// A write that names a wallet which does not exist is answered with a client
/// error and leaves every table as it was.
pub proof fn lemma_missing_wallet_stores_nothing(
    plan: Plan,
    before: StoreView,
    after: StoreView,
    outcome: WriteOutcome,
)
    requires
        ready(plan, before),
        ended(plan, before, after, outcome),
        plan.wallet_missing(before),
    ensures
        outcome.status() == 400,
        after == before,
{
}

/// A write that names a category by an id which no category has is answered
/// with a client error and leaves every table as it was.
pub proof fn lemma_missing_category_stores_nothing(
    plan: Plan,
    before: StoreView,
    after: StoreView,
    outcome: WriteOutcome,
)
    requires
        ready(plan, before),
        ended(plan, before, after, outcome),
        plan.category_missing(before),
    ensures
        outcome.status() == 400,
        after == before,
{
}

/// After the creation of a payment, or the update of one that exists, the
/// tags of the payment are exactly the tags of the request, in its order,
/// whatever tags the payment had before; and the response shows them.
pub proof fn lemma_write_replaces_tags(
    plan: Plan,
    before: StoreView,
    after: StoreView,
    outcome: WriteOutcome,
)
    requires
        ready(plan, before),
        ended(plan, before, after, outcome),
        !plan.wallet_missing(before),
        !plan.category_missing(before),
        !plan.orphan(before),
    ensures
        after.tags_of(plan.payment_id(before)).len() == plan.tags.len(),
        forall|k: int|
            0 <= k < plan.tags.len() ==> {
                &&& (#[trigger] after.tags_of(plan.payment_id(before))[k]).key == plan.tags[k].key
                &&& after.tags_of(plan.payment_id(before))[k].value == plan.tags[k].value
            },
        outcome matches WriteOutcome::Saved(response) && response.tags@.len() == plan.tags.len()
            && forall|k: int|
            0 <= k < plan.tags.len() ==> {
                &&& (#[trigger] response.tags@[k]).key == plan.tags[k].key
                &&& response.tags@[k].value == plan.tags[k].value
            },
{
    lemma_tags_after_write(plan, before);
}

/// A write leaves the other payments and their tags alone: the tags of any
/// other payment are what they were.
pub proof fn lemma_write_keeps_other_tags(
    plan: Plan,
    before: StoreView,
    after: StoreView,
    outcome: WriteOutcome,
    other: u128,
)
    requires
        ready(plan, before),
        ended(plan, before, after, outcome),
        other != plan.payment_id(before),
    ensures
        after.tags_of(other) == before.tags_of(other),
{
    crate::features::payments::effects::lemma_other_tags_kept(plan, before, other);
}

} // verus!
