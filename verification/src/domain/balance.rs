//! Balances between members of a group.

use vstd::prelude::*;

use super::group::GroupId;
use super::types::CurrencyCode;
use super::user::UserId;

verus! {

/// Pairwise balance: `from_user` owes `to_user` `amount` in `currency`.
#[derive(Debug, Clone)]
pub struct PairwiseBalance {
    pub group_id: GroupId,
    pub from_user: UserId,
    pub to_user: UserId,
    pub currency: CurrencyCode,
    pub amount: i64,
}

/// Net balance of a user in a group, in one currency.
#[derive(Debug, Clone)]
pub struct NetBalance {
    pub group_id: GroupId,
    pub user_id: UserId,
    pub currency: CurrencyCode,
    pub net_amount: i64,
}

} // verus!
