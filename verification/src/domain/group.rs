//! Groups and their members.

use vstd::prelude::*;

use super::types::Timestamp;
use super::user::UserId;

verus! {

/// The identifier of a group.
pub type GroupId = u128;

/// A group of users who share expenses.
#[derive(Debug, Clone)]
pub struct Group {
    pub id: GroupId,
    pub name: String,
    pub created_by: UserId,
    pub created_at: Timestamp,
}

/// The role of a member within a group.
#[derive(Debug, Clone, Copy, PartialEq, Eq, Structural)]
pub enum GroupRole {
    Admin,
    Member,
}

/// A user's membership of a group.
#[derive(Debug, Clone)]
pub struct GroupMember {
    pub group_id: GroupId,
    pub user_id: UserId,
    pub role: GroupRole,
    pub joined_at: Timestamp,
}

} // verus!
