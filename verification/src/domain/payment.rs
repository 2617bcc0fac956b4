use vstd::prelude::*;
use crate::domain::date::DateTime;
use crate::domain::payment_description::PaymentDescription;
use crate::domain::payment_merchant::PaymentMerchant;

verus! {

/// A payment whose texts have been validated. The category and the wallet are
/// held by id; a sign of the amount tells an expense from an income.
#[derive(Debug)]
pub struct Payment {
    pub description: Option<PaymentDescription>,
    pub category_id: u128,
    pub amount_in_cents: i32,
    pub merchant_name: PaymentMerchant,
    pub accounting_date: DateTime,
    pub wallet_id: Option<u128>,
}

} // verus!
