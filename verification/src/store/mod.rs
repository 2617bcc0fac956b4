//! The relational store as the pipelines see it: the statements they send, the
//! replies they get, and an in-memory store that answers as a database with
//! the expected constraints would.

pub mod listing;
pub mod memory;
pub mod model;
pub mod protocol;
pub mod rows;
pub mod seqs;

pub use protocol::{StoreReply, StoreReplyView, StoreRequest};
pub use rows::{CategoryRow, PaymentRecord, PaymentRow, TagRow, WalletRow};
pub use model::StoreView;
pub use memory::Store;
pub use listing::{PaymentListRow, StoreError};
