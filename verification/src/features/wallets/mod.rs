//! Wallets, as far as payments need them: the lookup of a wallet by its name.

pub mod shared;

pub use shared::get_wallet_id_by_name;
