//! The deletion of a payment: its tags go first, then its row, so that no tag
//! is ever left without its payment.

use vstd::prelude::*;
use crate::store::memory::Store;
use crate::store::model::{
    lemma_apply_keeps_wf, payment_other_than, payment_with_id, tag_not_of, tag_of, StoreView,
};
use crate::store::protocol::{StoreReply, StoreRequest};
use crate::store::seqs::{lemma_filter_members, lemma_filter_none_or_all, lemma_position};

verus! {

/// Where a deletion stands: which reply it waits for.
#[derive(Debug, Clone, Copy, PartialEq, Eq, Structural)]
pub enum DeletePhase {
    /// Removing the tags of the payment.
    RemovingTags,
    /// Removing the row of the payment.
    RemovingPayment,
}

/// How a deletion ended.
#[derive(Debug, Clone, Copy, PartialEq, Eq, Structural)]
pub enum DeleteOutcome {
    /// The payment and its tags are gone, or were never there.
    Deleted,
    /// The store failed.
    Failed,
}

/// A deletion in progress.
#[derive(Debug, Clone, Copy, PartialEq, Eq, Structural)]
pub struct PaymentDeletion {
    pub payment_id: u128,
    pub phase: DeletePhase,
}

/// What a deletion does next: ask the store, or end.
#[derive(Debug, Clone, Copy, PartialEq, Eq, Structural)]
pub enum DeleteStep {
    Ask(PaymentDeletion),
    Finish(DeleteOutcome),
}

impl DeleteOutcome {
    /// The HTTP status that reports the outcome.
    pub open spec fn spec_status(&self) -> u16 {
        match *self {
            DeleteOutcome::Deleted => 204,
            DeleteOutcome::Failed => 500,
        }
    }

    /// The HTTP status that reports the outcome: 204 when the payment is
    /// gone, 500 when the store failed.
    #[verifier::when_used_as_spec(spec_status)]
    pub fn status(&self) -> (r: u16)
        ensures
            r == self.spec_status(),
    {
        match self {
            DeleteOutcome::Deleted => 204,
            DeleteOutcome::Failed => 500,
        }
    }
}

impl PaymentDeletion {
    /// Starts the deletion of a payment, with the removal of its tags.
    pub fn begin(payment_id: u128) -> (r: PaymentDeletion)
        ensures
            r == (PaymentDeletion { payment_id, phase: DeletePhase::RemovingTags }),
    {
        PaymentDeletion { payment_id, phase: DeletePhase::RemovingTags }
    }

    /// The statement that the deletion waits on.
    pub open spec fn spec_request(&self) -> StoreRequest {
        match self.phase {
            DeletePhase::RemovingTags => StoreRequest::DeletePaymentTags {
                payment_id: self.payment_id,
            },
            DeletePhase::RemovingPayment => StoreRequest::DeletePayment { id: self.payment_id },
        }
    }

    /// The statement to run against the store before the next `advance`.
    #[verifier::when_used_as_spec(spec_request)]
    pub fn request(&self) -> (r: StoreRequest)
        ensures
            r == self.spec_request(),
    {
        match self.phase {
            DeletePhase::RemovingTags => StoreRequest::DeletePaymentTags {
                payment_id: self.payment_id,
            },
            DeletePhase::RemovingPayment => StoreRequest::DeletePayment { id: self.payment_id },
        }
    }

    /// The transition of the machine: the row is removed once the tags are,
    /// and a statement that fails ends the deletion as failed.
    pub open spec fn next(self, reply: StoreReply) -> DeleteStep {
        match (self.phase, reply) {
            (DeletePhase::RemovingTags, StoreReply::Done) => DeleteStep::Ask(
                PaymentDeletion { phase: DeletePhase::RemovingPayment, ..self },
            ),
            (DeletePhase::RemovingPayment, StoreReply::Done) => DeleteStep::Finish(
                DeleteOutcome::Deleted,
            ),
            _ => DeleteStep::Finish(DeleteOutcome::Failed),
        }
    }

    /// Takes the reply of the store to the statement that the deletion waited
    /// on, and says what comes next.
    pub fn advance(self, reply: StoreReply) -> (r: DeleteStep)
        ensures
            r == self.next(reply),
    {
        match (self.phase, reply) {
            (DeletePhase::RemovingTags, StoreReply::Done) => DeleteStep::Ask(
                PaymentDeletion { phase: DeletePhase::RemovingPayment, ..self },
            ),
            (DeletePhase::RemovingPayment, StoreReply::Done) => DeleteStep::Finish(
                DeleteOutcome::Deleted,
            ),
            _ => DeleteStep::Finish(DeleteOutcome::Failed),
        }
    }
}

/// The tables without a payment and its tags.
pub open spec fn without_payment(s: StoreView, id: u128) -> StoreView {
    StoreView {
        payments: s.payments.filter(payment_other_than(id)),
        tags: s.tags.filter(tag_not_of(id)),
        ..s
    }
}

/// Deletes a payment and its tags from the store. Deleting a payment that
/// does not exist changes nothing and is no error.
pub fn delete_payment(store: &mut Store, payment_id: u128) -> (outcome: DeleteOutcome)
    ensures
        outcome == DeleteOutcome::Deleted,
        final(store)@ == without_payment(old(store)@, payment_id),
        old(store)@.wf() ==> final(store)@.wf(),
{
    let ghost before = store@;
    let first = PaymentDeletion::begin(payment_id);
    let reply = store.apply(&first.request());
    let ghost cleared = store@;
    proof {
        if before.wf() {
            lemma_apply_keeps_wf(before, first.request());
        }
        lemma_filter_members(before.tags, tag_not_of(payment_id));
    }
    match first.advance(reply) {
        DeleteStep::Finish(outcome) => outcome,
        DeleteStep::Ask(second) => {
            let reply = store.apply(&second.request());
            proof {
                if cleared.wf() {
                    lemma_apply_keeps_wf(cleared, second.request());
                }
            }
            match second.advance(reply) {
                DeleteStep::Finish(outcome) => outcome,
                DeleteStep::Ask(_) => DeleteOutcome::Failed,
            }
        },
    }
}

/// Deleting a payment removes its row and every one of its tags, and leaves
/// the other payments and their tags as they were: no tag is left without
/// its payment.
pub proof fn lemma_delete_leaves_no_orphans(before: StoreView, id: u128, other: u128)
    requires
        before.wf(),
        other != id,
    ensures
        without_payment(before, id).payment(id) is None,
        without_payment(before, id).tags_of(id).len() == 0,
        without_payment(before, id).payment(other) == before.payment(other),
        without_payment(before, id).tags_of(other) == before.tags_of(other),
        forall|i: int|
            0 <= i < without_payment(before, id).tags.len() ==> without_payment(
                before,
                id,
            ).payment((#[trigger] without_payment(before, id).tags[i]).payment_id) is Some,
{
    let after = without_payment(before, id);
    lemma_filter_members(before.payments, payment_other_than(id));
    lemma_filter_members(before.tags, tag_not_of(id));
    lemma_position(after.payments, payment_with_id(id));
    lemma_filter_none_or_all(after.tags, tag_of(id));
    crate::store::seqs::lemma_filter_twice(
        before.tags,
        tag_not_of(id),
        tag_of(other),
    );
    crate::store::seqs::lemma_filter_first(
        before.payments,
        payment_other_than(id),
        payment_with_id(other),
    );
    lemma_apply_keeps_wf(before, StoreRequest::DeletePaymentTags { payment_id: id });
    let cleared = before.apply(StoreRequest::DeletePaymentTags { payment_id: id }).0;
    lemma_position(cleared.tags, tag_of(id));
    lemma_apply_keeps_wf(cleared, StoreRequest::DeletePayment { id });
}

} // verus!
