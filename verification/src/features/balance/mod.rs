//! The balance: the sum of the amounts of the payments of a wallet, or of
//! all payments, within optional bounds on the accounting date, and its
//! parts by the kind of the category.

pub mod models;
pub mod query;
pub mod read;

pub use models::BalanceResponse;
pub use read::{
    get_balance, BalanceOutcome, BalancePhase, BalanceQuery, BalanceRead, BalanceStep,
};
pub use query::{build_balance_query, BalanceSql, Bound};
