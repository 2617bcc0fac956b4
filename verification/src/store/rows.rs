use vstd::prelude::*;
use crate::domain::{CategoryKind, DateTime};

verus! {

/// A row of the category table.
#[derive(Debug)]
pub struct CategoryRow {
    pub id: u128,
    pub name: String,
    pub icon: Option<String>,
    pub kind: CategoryKind,
}

/// A row of the wallet table.
#[derive(Debug)]
pub struct WalletRow {
    pub id: u128,
    pub name: String,
}

/// The columns of a payment that a client sets.
#[derive(Debug)]
pub struct PaymentRecord {
    pub category_id: u128,
    pub description: Option<String>,
    pub merchant_name: String,
    pub accounting_date: DateTime,
    pub amount_in_cents: i32,
    pub wallet_id: Option<u128>,
}

/// A row of the payment table.
#[derive(Debug)]
pub struct PaymentRow {
    pub id: u128,
    pub record: PaymentRecord,
}

/// A row of the tag table. A tag belongs to exactly one payment.
#[derive(Debug)]
pub struct TagRow {
    pub id: u128,
    pub payment_id: u128,
    pub key: String,
    pub value: String,
}

impl Clone for CategoryRow {
    fn clone(&self) -> (r: Self)
        ensures
            r == *self,
    {
        CategoryRow {
            id: self.id,
            name: self.name.clone(),
            icon: self.icon.clone(),
            kind: self.kind,
        }
    }
}

impl Clone for WalletRow {
    fn clone(&self) -> (r: Self)
        ensures
            r == *self,
    {
        WalletRow { id: self.id, name: self.name.clone() }
    }
}

impl Clone for PaymentRecord {
    fn clone(&self) -> (r: Self)
        ensures
            r == *self,
    {
        PaymentRecord {
            category_id: self.category_id,
            description: self.description.clone(),
            merchant_name: self.merchant_name.clone(),
            accounting_date: self.accounting_date,
            amount_in_cents: self.amount_in_cents,
            wallet_id: self.wallet_id,
        }
    }
}

impl Clone for PaymentRow {
    fn clone(&self) -> (r: Self)
        ensures
            r == *self,
    {
        PaymentRow { id: self.id, record: self.record.clone() }
    }
}

impl Clone for TagRow {
    fn clone(&self) -> (r: Self)
        ensures
            r == *self,
    {
        TagRow {
            id: self.id,
            payment_id: self.payment_id,
            key: self.key.clone(),
            value: self.value.clone(),
        }
    }
}

} // verus!
