use vstd::prelude::*;
use crate::domain::DateTime;

verus! {

/// A tag as a client sends it.
#[derive(Debug)]
pub struct TagDto {
    pub key: String,
    pub value: String,
}

impl Clone for TagDto {
    fn clone(&self) -> (r: Self)
        ensures
            r == *self,
    {
        TagDto { key: self.key.clone(), value: self.value.clone() }
    }
}

/// A reference to a category: its identifier, or its name.
#[derive(Debug)]
pub enum CategoryIdentifier {
    Uid(u128),
    Name(String),
}

impl Clone for CategoryIdentifier {
    fn clone(&self) -> (r: Self)
        ensures
            r == *self,
    {
        match self {
            CategoryIdentifier::Uid(id) => CategoryIdentifier::Uid(*id),
            CategoryIdentifier::Name(name) => CategoryIdentifier::Name(name.clone()),
        }
    }
}

/// The query string of the category listing.
#[derive(Debug)]
pub struct CategoryQuery {
    pub category_type: Option<String>,
}

/// A category as the category listing returns it.
#[derive(Debug)]
pub struct CategoryDto {
    pub id: u128,
    pub name: String,
    pub icon: Option<String>,
}

/// The default page size of the payment listing.
pub fn default_size() -> (r: i64)
    ensures
        r == 10,
{
    10
}

/// The query string of the payment listing.
#[derive(Debug)]
pub struct PaginationParams {
    pub page: i64,
    pub size: i64,
    pub date_from: Option<String>,
    pub date_to: Option<String>,
    pub category: Option<String>,
    pub wallet: Option<String>,
    pub search: Option<String>,
}

impl Default for PaginationParams {
    /// The first page, ten payments long, with no filter.
    fn default() -> (r: Self)
        ensures
            r.page == 0,
            r.size == 10,
            r.date_from is None,
            r.date_to is None,
            r.category is None,
            r.wallet is None,
            r.search is None,
    {
        PaginationParams {
            page: 0,
            size: default_size(),
            date_from: None,
            date_to: None,
            category: None,
            wallet: None,
            search: None,
        }
    }
}

/// The filters of the payment listing. Each one is optional by itself.
#[derive(Debug)]
pub struct PaymentFilters {
    pub date_from: Option<String>,
    pub date_to: Option<String>,
    pub category: Option<String>,
    pub wallet: Option<String>,
    pub search: Option<String>,
}

impl Clone for PaymentFilters {
    fn clone(&self) -> (r: Self)
        ensures
            r == *self,
    {
        PaymentFilters {
            date_from: self.date_from.clone(),
            date_to: self.date_to.clone(),
            category: self.category.clone(),
            wallet: self.wallet.clone(),
            search: self.search.clone(),
        }
    }
}

impl PaymentFilters {
    /// The filters that a query string carries.
    pub open spec fn spec_from(params: PaginationParams) -> PaymentFilters {
        PaymentFilters {
            date_from: params.date_from,
            date_to: params.date_to,
            category: params.category,
            wallet: params.wallet,
            search: params.search,
        }
    }

    /// The filters that a query string carries.
    pub fn from(params: &PaginationParams) -> (r: Self)
        ensures
            r == Self::spec_from(*params),
    {
        Self {
            date_from: params.date_from.clone(),
            date_to: params.date_to.clone(),
            category: params.category.clone(),
            wallet: params.wallet.clone(),
            search: params.search.clone(),
        }
    }
}

/// A stored tag as a response shows it.
#[derive(Debug)]
pub struct TagResponseDto {
    pub id: u128,
    pub key: String,
    pub value: String,
}

impl Clone for TagResponseDto {
    fn clone(&self) -> (r: Self)
        ensures
            r == *self,
    {
        TagResponseDto { id: self.id, key: self.key.clone(), value: self.value.clone() }
    }
}

/// A payment as a response shows it, with the names of its category and
/// wallet and with its tags.
#[derive(Debug)]
pub struct PaymentResponseDto {
    pub id: u128,
    pub description: Option<String>,
    pub amount_in_cents: i32,
    pub merchant_name: String,
    pub accounting_date: DateTime,
    pub category: String,
    pub category_id: Option<u128>,
    pub category_icon: Option<String>,
    pub wallet: Option<String>,
    pub tags: Vec<TagResponseDto>,
}

/// One page of a listing.
#[derive(Debug)]
pub struct PagedResponse<T> {
    pub content: Vec<T>,
    pub page: i64,
    pub size: i64,
}

} // verus!
