//! Expenses and how they are split.

use vstd::prelude::*;

use super::category::CategoryId;
use super::group::GroupId;
use super::types::{CurrencyCode, Timestamp};
use super::user::UserId;

verus! {

/// The identifier of an expense.
pub type ExpenseId = u128;

/// How an expense is divided among the members who share it.
#[derive(Debug, Clone, Copy, PartialEq, Eq, Structural)]
pub enum SplitType {
    Equal,
    Exact,
    Percentage,
    Shares,
}

/// An expense paid by one member of a group, in minor units of its currency.
#[derive(Debug, Clone)]
pub struct Expense {
    pub id: ExpenseId,
    pub group_id: GroupId,
    pub paid_by: UserId,
    pub description: Option<String>,
    pub amount: i64,
    pub currency: CurrencyCode,
    pub split_type: SplitType,
    pub category_id: Option<CategoryId>,
    pub created_at: Timestamp,
    pub updated_at: Option<Timestamp>,
    pub deleted_at: Option<Timestamp>,
}

/// The share of an expense that one user owes.
#[derive(Debug, Clone)]
pub struct ExpenseSplit {
    pub expense_id: ExpenseId,
    pub user_id: UserId,
    pub amount_owed: i64,
}

} // verus!
