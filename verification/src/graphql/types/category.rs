//! The category object.

use vstd::prelude::*;

use super::text::{optional_text, shows_text};
use crate::domain::category::Category;

verus! {

/// A category as returned by the API.
pub struct CategoryType(pub Category);

impl From<Category> for CategoryType {
    fn from(c: Category) -> (t: Self)
        ensures
            t.0 == c,
    {
        CategoryType(c)
    }
}

impl vstd::std_specs::convert::FromSpecImpl<Category> for CategoryType {
    open spec fn obeys_from_spec() -> bool {
        true
    }

    open spec fn from_spec(c: Category) -> Self {
        CategoryType(c)
    }
}

impl CategoryType {
    pub fn id(&self) -> (id: &str)
        ensures
            id@ == self.0.id@,
    {
        self.0.id.as_str()
    }

    pub fn name(&self) -> (name: &str)
        ensures
            name@ == self.0.name@,
    {
        self.0.name.as_str()
    }

    pub fn icon(&self) -> (icon: Option<&str>)
        ensures
            shows_text(icon, self.0.icon),
    {
        optional_text(&self.0.icon)
    }
}

} // verus!
