use vstd::prelude::*;
use crate::domain::{DateTime, Payment};
use crate::features::payments::create::{
    kept_description, rejection, valid_texts, validate_payment,
};
use crate::features::payments::models::{CategoryIdentifier, TagDto};
use crate::features::payments::run::{ended, ready, run};
use crate::features::payments::write::{plan_for, PaymentWrite, Plan, Step, WriteOutcome};
use crate::store::memory::Store;

verus! {

/// The body of a request to update a payment. Every column is replaced, and
/// so is the list of tags.
#[derive(Debug)]
pub struct UpdatePaymentRequest {
    pub description: Option<String>,
    pub category_id: CategoryIdentifier,
    pub amount_in_cents: i32,
    pub merchant_name: String,
    pub accounting_date: DateTime,
    pub wallet: Option<String>,
    pub tags: Option<Vec<TagDto>>,
}

impl UpdatePaymentRequest {
    /// The texts of the request pass validation.
    pub open spec fn valid(self) -> bool {
        valid_texts(self.description, self.merchant_name)
    }

    /// What the request asks to store in place of the payment `payment_id`.
    pub open spec fn plan(self, payment_id: u128) -> Plan {
        plan_for(
            Some(payment_id),
            self.description,
            self.category_id,
            self.amount_in_cents,
            self.merchant_name,
            self.accounting_date,
            self.wallet,
            self.tags,
        )
    }

    /// Starts the update of the payment `payment_id`: validates the request
    /// and names the first statement for the store.
    pub fn begin(self, payment_id: u128) -> (r: Step)
        ensures
            !self.valid() ==> r == Step::Finish(WriteOutcome::Invalid),
            self.valid() ==> (r matches Step::Ask(write) && write.fresh(self.plan(payment_id))),
    {
        PaymentWrite::begin(
            Some(payment_id),
            self.description,
            self.category_id,
            self.amount_in_cents,
            self.merchant_name,
            self.accounting_date,
            self.wallet,
            self.tags,
        )
    }
}

/// Updates a payment of the store.
///
/// The request is validated and resolved as on creation. Then the row of the
/// payment is replaced, the tags that it had are removed, and the tags of the
/// request are stored in their place.
pub fn update_payment(store: &mut Store, payment_id: u128, request: UpdatePaymentRequest) -> (outcome:
    WriteOutcome)
    ensures
        old(store)@.wf() ==> final(store)@.wf(),
        outcome is Invalid <==> !request.valid(),
        !request.valid() ==> final(store)@ == old(store)@,
        request.valid() && ready(request.plan(payment_id), old(store)@) ==> ended(
            request.plan(payment_id),
            old(store)@,
            final(store)@,
            outcome,
        ),
{
    let ghost plan = request.plan(payment_id);
    let start = request.begin(payment_id);
    match start {
        Step::Finish(outcome) => outcome,
        Step::Ask(write) => run(store, Step::Ask(write), Ghost(plan)),
    }
}

impl TryFrom<UpdatePaymentRequest> for Payment {
    type Error = String;

    /// The payment that an update request describes, if its texts are valid.
    fn try_from(dto: UpdatePaymentRequest) -> (r: Result<Payment, String>)
        ensures
            r is Ok <==> valid_texts(dto.description, dto.merchant_name),
            r matches Err(message) ==> message@ == rejection(dto.description, dto.merchant_name),
            r matches Ok(payment) ==> {
                &&& payment.merchant_name@ == dto.merchant_name@
                &&& match kept_description(dto.description) {
                    Some(text) => payment.description matches Some(kept) && kept@ == text@,
                    None => payment.description is None,
                }
                &&& payment.amount_in_cents == dto.amount_in_cents
                &&& payment.accounting_date == dto.accounting_date
                &&& payment.category_id == 0
                &&& payment.wallet_id is None
            },
    {
        validate_payment(
            &dto.description,
            &dto.merchant_name,
            dto.amount_in_cents,
            dto.accounting_date,
        )
    }
}

/// The conversion is specified by the contract of `try_from` itself.
impl vstd::std_specs::convert::TryFromSpecImpl<UpdatePaymentRequest> for Payment {
    open spec fn obeys_try_from_spec() -> bool {
        false
    }

    open spec fn try_from_spec(v: UpdatePaymentRequest) -> Result<Payment, String> {
        arbitrary()
    }
}

} // verus!
