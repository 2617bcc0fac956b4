//! The listing of categories, all of them or those of one kind.

use vstd::prelude::*;
use crate::domain::CategoryKind;
use crate::features::payments::models::{CategoryDto, CategoryQuery};
use crate::store::memory::Store;
use crate::store::model::StoreView;
use crate::store::rows::CategoryRow;

verus! {

/// The kind that a query string asks for: `expense` or `income`. Any other
/// text, and no text, asks for all categories.
pub open spec fn kind_of(category_type: Option<String>) -> Option<CategoryKind> {
    match category_type {
        Some(text) => if text@ == "expense"@ {
            Some(CategoryKind::Expense)
        } else if text@ == "income"@ {
            Some(CategoryKind::Income)
        } else {
            None
        },
        None => None,
    }
}

/// Reads the kind that a query string asks for.
pub fn requested_kind(query: &CategoryQuery) -> (r: Option<CategoryKind>)
    ensures
        r == kind_of(query.category_type),
{
    match &query.category_type {
        Some(text) => {
            if *text == "expense".to_string() {
                Some(CategoryKind::Expense)
            } else if *text == "income".to_string() {
                Some(CategoryKind::Income)
            } else {
                None
            }
        },
        None => None,
    }
}

/// The text of the query that lists the categories of a kind, or all.
pub open spec fn categories_sql(kind: Option<CategoryKind>) -> Seq<char> {
    match kind {
        Some(CategoryKind::Expense) => "select c.id, c.name, c.icon from expenses.categories c where c.kind = 'expense'"@,
        Some(CategoryKind::Income) => "select c.id, c.name, c.icon from expenses.categories c where c.kind = 'income'"@,
        None => "select c.id, c.name, c.icon from expenses.categories c"@,
    }
}

/// Picks the query that lists the categories of a kind, or all.
pub fn select_categories_sql(kind: Option<CategoryKind>) -> (r: &'static str)
    ensures
        r@ == categories_sql(kind),
{
    match kind {
        Some(CategoryKind::Expense) => "select c.id, c.name, c.icon from expenses.categories c where c.kind = 'expense'",
        Some(CategoryKind::Income) => "select c.id, c.name, c.icon from expenses.categories c where c.kind = 'income'",
        None => "select c.id, c.name, c.icon from expenses.categories c",
    }
}

/// The categories of a kind, or all.
pub open spec fn of_kind(kind: Option<CategoryKind>) -> spec_fn(CategoryRow) -> bool {
    |row: CategoryRow|
        match kind {
            Some(wanted) => row.kind == wanted,
            None => true,
        }
}

/// A category as the listing shows it.
pub open spec fn category_dto(row: CategoryRow) -> CategoryDto {
    CategoryDto { id: row.id, name: row.name, icon: row.icon }
}

/// The categories that the listing shows.
pub open spec fn listed_categories(s: StoreView, kind: Option<CategoryKind>) -> Seq<CategoryDto> {
    s.categories.filter(of_kind(kind)).map_values(|row: CategoryRow| category_dto(row))
}

/// Lists the categories of the store: those of the kind that the query
/// string asks for, or all, in the order in which they are stored.
pub fn get_categories(store: &Store, query: &CategoryQuery) -> (r: Vec<CategoryDto>)
    ensures
        r@ == listed_categories(store@, kind_of(query.category_type)),
{
    let kind = requested_kind(query);
    let rows = store.category_rows();
    let mut found: Vec<CategoryDto> = Vec::new();
    let mut i: usize = 0;
    proof {
        reveal(Seq::filter);
    }
    while i < rows.len()
        invariant
            i <= rows.len(),
            rows@ == store@.categories,
            found@ == rows@.take(i as int).filter(of_kind(kind)).map_values(
                |row: CategoryRow| category_dto(row),
            ),
        decreases rows.len() - i,
    {
        proof {
            reveal(Seq::filter);
            assert(rows@.take(i + 1).drop_last() == rows@.take(i as int));
        }
        let wanted = match kind {
            Some(CategoryKind::Expense) => match rows[i].kind {
                CategoryKind::Expense => true,
                CategoryKind::Income => false,
            },
            Some(CategoryKind::Income) => match rows[i].kind {
                CategoryKind::Expense => false,
                CategoryKind::Income => true,
            },
            None => true,
        };
        if wanted {
            found.push(
                CategoryDto {
                    id: rows[i].id,
                    name: rows[i].name.clone(),
                    icon: rows[i].icon.clone(),
                },
            );
        }
        assert(found@ == rows@.take(i + 1).filter(of_kind(kind)).map_values(
            |row: CategoryRow| category_dto(row),
        ));
        i += 1;
    }
    assert(rows@.take(i as int) == rows@);
    found
}

} // verus!
