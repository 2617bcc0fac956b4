//! Records payments against categories and wallets, and serves filtered,
//! paginated views of them.
//!
//! The crate holds the rules of the service: validation of the value objects,
//! resolution of category and wallet references, the write pipeline for
//! payments, the construction of the filtered listing query, and the balance
//! aggregation. Talking to the database and to HTTP clients is left to the
//! caller, which drives the pipelines step by step.

pub mod text;
pub mod domain;
pub mod features;
pub mod store;
pub mod sql;
