use vstd::prelude::*;
use crate::domain::Date;
use crate::features::payments::models::TagResponseDto;
use crate::store::rows::PaymentRecord;

verus! {

/// One statement sent to the relational store. A pipeline asks for one at a
/// time and decides what to do next from the reply.
#[derive(Debug)]
pub enum StoreRequest {
    /// The id of the wallet with exactly this name.
    WalletIdByName { name: String },
    /// The id of the category with this name, compared without regard to case.
    CategoryIdByName { name: String },
    /// A new category with this name; the store generates its id.
    InsertCategory { name: String },
    /// The id itself, if a category has it.
    CategoryExists { id: u128 },
    /// A new payment; the store generates its id.
    InsertPayment { payment: PaymentRecord },
    /// New values for all the columns of the payment with this id.
    UpdatePayment { id: u128, payment: PaymentRecord },
    /// Removal of every tag of a payment.
    DeletePaymentTags { payment_id: u128 },
    /// A new tag of a payment; the store generates its id.
    InsertPaymentTag { payment_id: u128, key: String, value: String },
    /// Removal of a payment.
    DeletePayment { id: u128 },
    /// The name of the wallet with this id.
    WalletName { id: u128 },
    /// The tags of a payment.
    PaymentTags { payment_id: u128 },
    /// The name of the category with this id; it is an error if there is none.
    CategoryName { id: u128 },
    /// The icon of the category with this id.
    CategoryIcon { id: u128 },
    /// The sums of the amounts of the payments of a wallet, or of all
    /// payments, whose accounting date lies within the bounds that are
    /// given.
    Balance { wallet_id: Option<u128>, start: Option<Date>, end: Option<Date> },
}

/// What the store answered.
#[derive(Debug)]
pub enum StoreReply {
    /// The statement failed.
    Failed,
    /// A statement without a result went through.
    Done,
    /// The id that the store generated for a new row.
    Id(u128),
    /// The id that a lookup found, if any.
    MaybeId(Option<u128>),
    /// The text of a row that had to exist.
    Text(String),
    /// The text that a lookup found, if any.
    MaybeText(Option<String>),
    /// The tags of a payment.
    Tags(Vec<TagResponseDto>),
    /// The sums of a balance.
    Sums { total: i64, income: i64, expenses: i64 },
}

/// A reply with its tags as a sequence.
pub enum StoreReplyView {
    Failed,
    Done,
    Id(u128),
    MaybeId(Option<u128>),
    Text(String),
    MaybeText(Option<String>),
    Tags(Seq<TagResponseDto>),
    Sums { total: i64, income: i64, expenses: i64 },
}

impl View for StoreReply {
    type V = StoreReplyView;

    open spec fn view(&self) -> StoreReplyView {
        match *self {
            StoreReply::Failed => StoreReplyView::Failed,
            StoreReply::Done => StoreReplyView::Done,
            StoreReply::Id(id) => StoreReplyView::Id(id),
            StoreReply::MaybeId(id) => StoreReplyView::MaybeId(id),
            StoreReply::Text(text) => StoreReplyView::Text(text),
            StoreReply::MaybeText(text) => StoreReplyView::MaybeText(text),
            StoreReply::Tags(tags) => StoreReplyView::Tags(tags@),
            StoreReply::Sums { total, income, expenses } => StoreReplyView::Sums {
                total,
                income,
                expenses,
            },
        }
    }
}

impl Clone for StoreRequest {
    fn clone(&self) -> (r: Self)
        ensures
            r == *self,
    {
        match self {
            StoreRequest::WalletIdByName { name } => StoreRequest::WalletIdByName {
                name: name.clone(),
            },
            StoreRequest::CategoryIdByName { name } => StoreRequest::CategoryIdByName {
                name: name.clone(),
            },
            StoreRequest::InsertCategory { name } => StoreRequest::InsertCategory {
                name: name.clone(),
            },
            StoreRequest::CategoryExists { id } => StoreRequest::CategoryExists { id: *id },
            StoreRequest::InsertPayment { payment } => StoreRequest::InsertPayment {
                payment: payment.clone(),
            },
            StoreRequest::UpdatePayment { id, payment } => StoreRequest::UpdatePayment {
                id: *id,
                payment: payment.clone(),
            },
            StoreRequest::DeletePaymentTags { payment_id } => StoreRequest::DeletePaymentTags {
                payment_id: *payment_id,
            },
            StoreRequest::InsertPaymentTag { payment_id, key, value } => {
                StoreRequest::InsertPaymentTag {
                    payment_id: *payment_id,
                    key: key.clone(),
                    value: value.clone(),
                }
            },
            StoreRequest::DeletePayment { id } => StoreRequest::DeletePayment { id: *id },
            StoreRequest::WalletName { id } => StoreRequest::WalletName { id: *id },
            StoreRequest::PaymentTags { payment_id } => StoreRequest::PaymentTags {
                payment_id: *payment_id,
            },
            StoreRequest::CategoryName { id } => StoreRequest::CategoryName { id: *id },
            StoreRequest::CategoryIcon { id } => StoreRequest::CategoryIcon { id: *id },
            StoreRequest::Balance { wallet_id, start, end } => StoreRequest::Balance {
                wallet_id: *wallet_id,
                start: *start,
                end: *end,
            },
        }
    }
}

} // verus!
