//! Invitations to join a group.

use vstd::prelude::*;

use super::group::GroupId;
use super::types::Timestamp;
use super::user::UserId;

verus! {

/// The identifier of an invite.
pub type InviteId = u128;

/// Where an invite stands.
#[derive(Debug, Clone, Copy, PartialEq, Eq, Structural)]
pub enum InviteStatus {
    Pending,
    Accepted,
    Declined,
    Expired,
}

/// An invitation to a group, addressed by email or to an existing user.
#[derive(Debug, Clone)]
pub struct Invite {
    pub id: InviteId,
    pub group_id: GroupId,
    pub invited_by: UserId,
    pub email: Option<String>,
    pub invited_user_id: Option<UserId>,
    pub status: InviteStatus,
    pub token: String,
    pub expires_at: Option<Timestamp>,
    pub created_at: Timestamp,
}

} // verus!
