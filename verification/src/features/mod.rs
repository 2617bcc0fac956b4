//! The operations of the service, one module per resource.

pub mod balance;
pub mod payments;
pub mod wallets;
