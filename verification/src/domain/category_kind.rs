use vstd::prelude::*;

verus! {

/// Whether a category collects expenses or income.
#[derive(Debug, Clone, Copy, PartialEq, Eq, Structural)]
pub enum CategoryKind {
    Expense,
    Income,
}

impl Default for CategoryKind {
    /// A category is an expense category unless stated otherwise.
    fn default() -> (r: Self)
        ensures
            r == CategoryKind::Expense,
    {
        CategoryKind::Expense
    }
}

} // verus!
