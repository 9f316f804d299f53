//! The group and group-member objects.

use vstd::prelude::*;

use crate::domain::group::{Group, GroupMember, GroupRole};
use crate::ids::{id_text, uuid_text};
use crate::repository::group_repo::role_text;

verus! {

/// A group as returned by the API.
pub struct GroupType(pub Group);

impl From<Group> for GroupType {
    fn from(g: Group) -> (t: Self)
        ensures
            t.0 == g,
    {
        GroupType(g)
    }
}

impl vstd::std_specs::convert::FromSpecImpl<Group> for GroupType {
    open spec fn obeys_from_spec() -> bool {
        true
    }

    open spec fn from_spec(g: Group) -> Self {
        GroupType(g)
    }
}

impl GroupType {
    /// The text of the group's identifier.
    pub fn id(&self) -> (text: String)
        ensures
            text@ == uuid_text(self.0.id),
    {
        id_text(self.0.id)
    }

    /// The name.
    pub fn name(&self) -> (text: &str)
        ensures
            text@ == self.0.name@,
    {
        self.0.name.as_str()
    }

    /// The text of the creator's identifier.
    pub fn created_by(&self) -> (text: String)
        ensures
            text@ == uuid_text(self.0.created_by),
    {
        id_text(self.0.created_by)
    }

    /// When the group was created.
    pub fn created_at(&self) -> (value: i64)
        ensures
            value == self.0.created_at,
    {
        self.0.created_at
    }
}

/// A membership as returned by the API.
pub struct GroupMemberType(pub GroupMember);

impl From<GroupMember> for GroupMemberType {
    fn from(m: GroupMember) -> (t: Self)
        ensures
            t.0 == m,
    {
        GroupMemberType(m)
    }
}

impl vstd::std_specs::convert::FromSpecImpl<GroupMember> for GroupMemberType {
    open spec fn obeys_from_spec() -> bool {
        true
    }

    open spec fn from_spec(m: GroupMember) -> Self {
        GroupMemberType(m)
    }
}

impl GroupMemberType {
    /// The text of the member's identifier.
    pub fn user_id(&self) -> (text: String)
        ensures
            text@ == uuid_text(self.0.user_id),
    {
        id_text(self.0.user_id)
    }

    /// The name of the member's role.
    pub fn role(&self) -> (text: &'static str)
        ensures
            text@ == role_text(self.0.role),
    {
        match self.0.role {
            GroupRole::Admin => "admin",
            GroupRole::Member => "member",
        }
    }

    /// When the member joined.
    pub fn joined_at(&self) -> (value: i64)
        ensures
            value == self.0.joined_at,
    {
        self.0.joined_at
    }
}

} // verus!
