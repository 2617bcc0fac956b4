//! Validated value objects and the entities built from them.

pub mod category_kind;
pub mod date;
pub mod payment;
pub mod payment_category;
pub mod payment_category_icon;
pub mod payment_description;
pub mod payment_merchant;
pub mod tag;
pub mod wallet;

pub use category_kind::CategoryKind;
pub use date::{Date, DateTime};
pub use payment::Payment;
pub use payment_category::PaymentCategory;
pub use payment_category_icon::PaymentCategoryIcon;
pub use payment_description::PaymentDescription;
pub use payment_merchant::PaymentMerchant;
pub use tag::{Tag, TagKey, TagValue};
pub use wallet::{Wallet, WalletName};
