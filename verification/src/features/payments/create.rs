use vstd::prelude::*;
use crate::domain::payment_category::valid_name;
use crate::domain::payment_description::valid_description;
use crate::domain::{DateTime, Payment, PaymentDescription, PaymentMerchant};
use crate::features::payments::models::{CategoryIdentifier, TagDto};
use crate::features::payments::run::{ended, ready, run};
use crate::features::payments::write::{plan_for, PaymentWrite, Plan, Step, WriteOutcome};
use crate::store::memory::Store;
use crate::text::{is_blank, trim};

verus! {

/// The body of a request to create a payment.
#[derive(Debug)]
pub struct CreatePaymentRequest {
    pub description: Option<String>,
    pub category_id: CategoryIdentifier,
    pub amount_in_cents: i32,
    pub merchant_name: String,
    pub accounting_date: DateTime,
    pub wallet: Option<String>,
    pub tags: Option<Vec<TagDto>>,
}

/// The description that is stored for a request: none when the request has
/// none or a blank one.
pub open spec fn kept_description(description: Option<String>) -> Option<String> {
    match description {
        Some(text) => if is_blank(text@) {
            None
        } else {
            Some(text)
        },
        None => None,
    }
}

/// The texts of a request pass validation: the merchant name is a valid name,
/// and the description, unless absent or blank, is a valid description.
pub open spec fn valid_texts(description: Option<String>, merchant_name: String) -> bool {
    &&& valid_name(merchant_name@)
    &&& match kept_description(description) {
        Some(text) => valid_description(text@),
        None => true,
    }
}

/// What a request with a malformed text is told: that its description is too
/// long, or else that its merchant name is not valid.
pub open spec fn rejection(description: Option<String>, merchant_name: String) -> Seq<char> {
    match kept_description(description) {
        Some(text) if !valid_description(text@) => "Payment description is too long"@,
        _ => merchant_name@ + " is not a valid merchant name."@,
    }
}

/// Validates the texts of a payment. The category and the wallet of the
/// result are left unset: the nil id and no wallet.
pub fn validate_payment(
    description: &Option<String>,
    merchant_name: &String,
    amount_in_cents: i32,
    accounting_date: DateTime,
) -> (r: Result<Payment, String>)
    ensures
        r is Ok <==> valid_texts(*description, *merchant_name),
        r matches Err(message) ==> message@ == rejection(*description, *merchant_name),
        r matches Ok(payment) ==> {
            &&& payment.merchant_name@ == merchant_name@
            &&& match kept_description(*description) {
                Some(text) => payment.description matches Some(kept) && kept@ == text@,
                None => payment.description is None,
            }
            &&& payment.amount_in_cents == amount_in_cents
            &&& payment.accounting_date == accounting_date
            &&& payment.category_id == 0
            &&& payment.wallet_id is None
        },
{
    let description = match description {
        Some(text) => {
            if trim(text.as_str()).is_empty() {
                None
            } else {
                match PaymentDescription::parse(text.clone()) {
                    Ok(parsed) => Some(parsed),
                    Err(message) => {
                        return Err(message);
                    },
                }
            }
        },
        None => None,
    };
    let merchant_name = match PaymentMerchant::parse(merchant_name.clone()) {
        Ok(parsed) => parsed,
        Err(message) => {
            return Err(message);
        },
    };
    Ok(
        Payment {
            description,
            category_id: 0,
            amount_in_cents,
            merchant_name,
            accounting_date,
            wallet_id: None,
        },
    )
}

impl CreatePaymentRequest {
    /// The texts of the request pass validation.
    pub open spec fn valid(self) -> bool {
        valid_texts(self.description, self.merchant_name)
    }

    /// What the request asks to store.
    pub open spec fn plan(self) -> Plan {
        plan_for(
            None,
            self.description,
            self.category_id,
            self.amount_in_cents,
            self.merchant_name,
            self.accounting_date,
            self.wallet,
            self.tags,
        )
    }

    /// Starts the creation of the payment: validates the request and names
    /// the first statement for the store.
    pub fn begin(self) -> (r: Step)
        ensures
            !self.valid() ==> r == Step::Finish(WriteOutcome::Invalid),
            self.valid() ==> (r matches Step::Ask(write) && write.fresh(self.plan())),
    {
        PaymentWrite::begin(
            None,
            self.description,
            self.category_id,
            self.amount_in_cents,
            self.merchant_name,
            self.accounting_date,
            self.wallet,
            self.tags,
        )
    }
}

/// Creates a payment in the store.
///
/// A request with a malformed text is rejected before the store is touched.
/// Otherwise the wallet is resolved, then the category, which is created if
/// the request names it by a name that no category has; then the payment is
/// stored, then its tags. A missing wallet, or a category id that no category
/// has, rejects the request and leaves the store as it was.
pub fn create_payment(store: &mut Store, request: CreatePaymentRequest) -> (outcome: WriteOutcome)
    ensures
        old(store)@.wf() ==> final(store)@.wf(),
        outcome is Invalid <==> !request.valid(),
        !request.valid() ==> final(store)@ == old(store)@,
        request.valid() && ready(request.plan(), old(store)@) ==> ended(
            request.plan(),
            old(store)@,
            final(store)@,
            outcome,
        ),
{
    let ghost plan = request.plan();
    let start = request.begin();
    match start {
        Step::Finish(outcome) => outcome,
        Step::Ask(write) => run(store, Step::Ask(write), Ghost(plan)),
    }
}

impl TryFrom<CreatePaymentRequest> for Payment {
    type Error = String;

    /// The payment that a creation request describes, if its texts are valid.
    fn try_from(dto: CreatePaymentRequest) -> (r: Result<Payment, String>)
        ensures
            r is Ok <==> valid_texts(dto.description, dto.merchant_name),
            r matches Err(message) ==> message@ == rejection(dto.description, dto.merchant_name),
            r matches Ok(payment) ==> {
                &&& payment.merchant_name@ == dto.merchant_name@
                &&& match kept_description(dto.description) {
                    Some(text) => payment.description matches Some(kept) && kept@ == text@,
                    None => payment.description is None,
                }
                &&& payment.amount_in_cents == dto.amount_in_cents
                &&& payment.accounting_date == dto.accounting_date
                &&& payment.category_id == 0
                &&& payment.wallet_id is None
            },
    {
        validate_payment(
            &dto.description,
            &dto.merchant_name,
            dto.amount_in_cents,
            dto.accounting_date,
        )
    }
}

/// The conversion is specified by the contract of `try_from` itself.
impl vstd::std_specs::convert::TryFromSpecImpl<CreatePaymentRequest> for Payment {
    open spec fn obeys_try_from_spec() -> bool {
        false
    }

    open spec fn try_from_spec(v: CreatePaymentRequest) -> Result<Payment, String> {
        arbitrary()
    }
}

} // verus!
