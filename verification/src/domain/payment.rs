//! Payments that settle debts between members.

use vstd::prelude::*;

use super::group::GroupId;
use super::types::{CurrencyCode, Timestamp};
use super::user::UserId;

verus! {

/// The identifier of a payment.
pub type PaymentId = u128;

/// A payment from one member of a group to another.
#[derive(Debug, Clone)]
pub struct Payment {
    pub id: PaymentId,
    pub group_id: GroupId,
    pub paid_by: UserId,
    pub paid_to: UserId,
    pub amount: i64,
    pub currency: CurrencyCode,
    pub note: Option<String>,
    pub created_at: Timestamp,
}

} // verus!
