//! The expense and expense-split objects.

use vstd::prelude::*;

use super::text::{optional_text, shows_text};
use crate::domain::expense::{Expense, ExpenseSplit, SplitType};
use crate::ids::{id_text, uuid_text};

verus! {

/// The name under which a split type is shown.
pub open spec fn split_type_text(t: SplitType) -> Seq<char> {
    match t {
        SplitType::Equal => "equal"@,
        SplitType::Exact => "exact"@,
        SplitType::Percentage => "percentage"@,
        SplitType::Shares => "shares"@,
    }
}

/// An expense as returned by the API.
pub struct ExpenseType(pub Expense);

impl From<Expense> for ExpenseType {
    fn from(e: Expense) -> (t: Self)
        ensures
            t.0 == e,
    {
        ExpenseType(e)
    }
}

impl vstd::std_specs::convert::FromSpecImpl<Expense> for ExpenseType {
    open spec fn obeys_from_spec() -> bool {
        true
    }

    open spec fn from_spec(e: Expense) -> Self {
        ExpenseType(e)
    }
}

/// A split of an expense as returned by the API.
pub struct ExpenseSplitType(pub ExpenseSplit);

impl From<ExpenseSplit> for ExpenseSplitType {
    fn from(s: ExpenseSplit) -> (t: Self)
        ensures
            t.0 == s,
    {
        ExpenseSplitType(s)
    }
}

impl vstd::std_specs::convert::FromSpecImpl<ExpenseSplit> for ExpenseSplitType {
    open spec fn obeys_from_spec() -> bool {
        true
    }

    open spec fn from_spec(s: ExpenseSplit) -> Self {
        ExpenseSplitType(s)
    }
}

impl ExpenseSplitType {
    /// The text of the user's identifier.
    pub fn user_id(&self) -> (text: String)
        ensures
            text@ == uuid_text(self.0.user_id),
    {
        id_text(self.0.user_id)
    }

    /// The amount owed, in minor units.
    pub fn amount_owed(&self) -> (value: i64)
        ensures
            value == self.0.amount_owed,
    {
        self.0.amount_owed
    }
}

impl ExpenseType {
    /// The text of the expense's identifier.
    pub fn id(&self) -> (text: String)
        ensures
            text@ == uuid_text(self.0.id),
    {
        id_text(self.0.id)
    }

    /// The text of the group's identifier.
    pub fn group_id(&self) -> (text: String)
        ensures
            text@ == uuid_text(self.0.group_id),
    {
        id_text(self.0.group_id)
    }

    /// The description, if any.
    pub fn description(&self) -> (text: Option<&str>)
        ensures
            shows_text(text, self.0.description),
    {
        optional_text(&self.0.description)
    }

    /// The amount, in minor units.
    pub fn amount(&self) -> (value: i64)
        ensures
            value == self.0.amount,
    {
        self.0.amount
    }

    /// The currency code.
    pub fn currency(&self) -> (text: &str)
        ensures
            text@ == self.0.currency@,
    {
        self.0.currency.as_str()
    }

    /// The name of the expense's split type.
    pub fn split_type(&self) -> (text: &'static str)
        ensures
            text@ == split_type_text(self.0.split_type),
    {
        match self.0.split_type {
            SplitType::Equal => "equal",
            SplitType::Exact => "exact",
            SplitType::Percentage => "percentage",
            SplitType::Shares => "shares",
        }
    }

    /// The category, if any.
    pub fn category_id(&self) -> (text: Option<&str>)
        ensures
            shows_text(text, self.0.category_id),
    {
        optional_text(&self.0.category_id)
    }

    /// When the expense was created.
    pub fn created_at(&self) -> (value: i64)
        ensures
            value == self.0.created_at,
    {
        self.0.created_at
    }

    /// When the expense was last edited, if it was.
    pub fn updated_at(&self) -> (value: Option<i64>)
        ensures
            value == self.0.updated_at,
    {
        self.0.updated_at
    }
}

} // verus!
