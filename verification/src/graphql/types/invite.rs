//! The invite object.

use vstd::prelude::*;

use super::text::{optional_text, shows_text};
use crate::domain::invite::{Invite, InviteStatus};
use crate::domain::user::UserId;
use crate::ids::{id_text, uuid_text};

verus! {

/// The name under which an invite status is shown.
pub open spec fn invite_status_text(status: InviteStatus) -> Seq<char> {
    match status {
        InviteStatus::Pending => "pending"@,
        InviteStatus::Accepted => "accepted"@,
        InviteStatus::Declined => "declined"@,
        InviteStatus::Expired => "expired"@,
    }
}

/// Distinct statuses are shown under distinct names.
pub proof fn lemma_invite_status_text_injective(a: InviteStatus, b: InviteStatus)
    ensures
        invite_status_text(a) == invite_status_text(b) ==> a == b,
{
    reveal_strlit("pending");
    reveal_strlit("accepted");
    reveal_strlit("declined");
    reveal_strlit("expired");
    assert("pending"@[0] != "accepted"@[0]);
    assert("pending"@[0] != "declined"@[0]);
    assert("pending"@[0] != "expired"@[0]);
    assert("accepted"@[0] != "declined"@[0]);
    assert("accepted"@[0] != "expired"@[0]);
    assert("declined"@[0] != "expired"@[0]);
}

/// An invite as returned by the API.
pub struct InviteType(pub Invite);

impl From<Invite> for InviteType {
    fn from(i: Invite) -> (t: Self)
        ensures
            t.0 == i,
    {
        InviteType(i)
    }
}

impl vstd::std_specs::convert::FromSpecImpl<Invite> for InviteType {
    open spec fn obeys_from_spec() -> bool {
        true
    }

    open spec fn from_spec(i: Invite) -> Self {
        InviteType(i)
    }
}

impl InviteType {
    /// The text of the invite's identifier.
    pub fn id(&self) -> (text: String)
        ensures
            text@ == uuid_text(self.0.id),
    {
        id_text(self.0.id)
    }

    /// The text of the group's identifier.
    pub fn group_id(&self) -> (text: String)
        ensures
            text@ == uuid_text(self.0.group_id),
    {
        id_text(self.0.group_id)
    }

    /// The invited address, if any.
    pub fn email(&self) -> (text: Option<&str>)
        ensures
            shows_text(text, self.0.email),
    {
        optional_text(&self.0.email)
    }

    /// The user the invite is addressed to, if it is addressed to one; only
    /// then is a user to be fetched.
    pub fn invited_user_id(&self) -> (user_id: Option<UserId>)
        ensures
            user_id == self.0.invited_user_id,
    {
        self.0.invited_user_id
    }

    /// The name of the invite's status.
    pub fn status(&self) -> (text: &'static str)
        ensures
            text@ == invite_status_text(self.0.status),
    {
        match self.0.status {
            InviteStatus::Pending => "pending",
            InviteStatus::Accepted => "accepted",
            InviteStatus::Declined => "declined",
            InviteStatus::Expired => "expired",
        }
    }

    /// The token that accepts the invite.
    pub fn token(&self) -> (text: &str)
        ensures
            text@ == self.0.token@,
    {
        self.0.token.as_str()
    }

    /// When the invite expires, if it does.
    pub fn expires_at(&self) -> (value: Option<i64>)
        ensures
            value == self.0.expires_at,
    {
        self.0.expires_at
    }

    /// When the invite was made.
    pub fn created_at(&self) -> (value: i64)
        ensures
            value == self.0.created_at,
    {
        self.0.created_at
    }
}

} // verus!
