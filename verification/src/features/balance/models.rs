use vstd::prelude::*;

verus! {

/// The balance of a wallet, or of all payments, in cents.
#[derive(Debug, Clone, Copy, PartialEq, Eq, Structural)]
pub struct BalanceResponse {
    pub total_in_cents: i64,
    pub income_in_cents: i64,
    pub expenses_in_cents: i64,
}

} // verus!
