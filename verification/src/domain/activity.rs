//! The activity log of a group.

use vstd::prelude::*;

use super::group::GroupId;
use super::types::Timestamp;
use super::user::UserId;

verus! {

/// The identifier of an activity entry.
pub type ActivityId = u128;

/// One entry of the activity log: who did what to which entity.
#[derive(Debug, Clone)]
pub struct ActivityLog {
    pub id: ActivityId,
    pub actor_user_id: UserId,
    pub group_id: Option<GroupId>,
    pub entity_type: String,
    pub entity_id: Option<String>,
    pub action: String,
    pub metadata_json: Option<String>,
    pub created_at: Timestamp,
}

} // verus!
