//! Payments: creation, update, deletion and the filtered listing.

pub mod categories;
pub mod create;
pub mod delete;
pub mod effects;
pub mod laws;
pub mod list;
pub mod models;
pub mod race;
pub mod run;
pub mod update;
pub mod write;

pub use models::{
    default_size, CategoryDto, CategoryIdentifier, CategoryQuery, PagedResponse,
    PaginationParams, PaymentFilters, PaymentResponseDto, TagDto, TagResponseDto,
};
pub use create::{create_payment, CreatePaymentRequest};
pub use update::{update_payment, UpdatePaymentRequest};
pub use write::{PaymentWrite, Phase, Step, WriteOutcome};
pub use delete::{delete_payment, DeleteOutcome, DeletePhase, DeleteStep, PaymentDeletion};
pub use list::{
    assemble, assemble_page, build_list_query, get_recent_payments, page_offset, Condition,
    ListOutcome, ListQuery, Predicate,
};
pub use categories::get_categories;
pub use race::create_concurrently;
