//! Expense categories.

use vstd::prelude::*;

verus! {

/// The identifier of a category, such as `food`.
pub type CategoryId = String;

/// A category that expenses can be filed under.
#[derive(Debug, Clone)]
pub struct Category {
    pub id: CategoryId,
    pub name: String,
    pub icon: Option<String>,
}

} // verus!
