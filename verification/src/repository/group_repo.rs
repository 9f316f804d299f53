//! Statements and row conversions of the group repository.

use vstd::prelude::*;

use super::statement::{statement, text_value, BoundValue, SqlValue, Statement, StatementView};
use crate::domain::group::{Group, GroupId, GroupMember, GroupRole};
use crate::domain::types::{RepoError, Timestamp};
use crate::domain::user::UserId;

verus! {

/// Stores a new group.
pub const INSERT_GROUP_SQL: &'static str = "INSERT INTO groups (id, name, created_by, created_at) VALUES (?, ?, ?, ?)";

/// Stores the creator of a new group as its admin, joined when the group was created.
pub const INSERT_CREATOR_SQL: &'static str = "INSERT INTO group_members (group_id, user_id, role, joined_at) VALUES (?, ?, 'admin', ?)";

/// Reads one group.
pub const GROUP_BY_ID_SQL: &'static str = "SELECT id, name, created_by, created_at FROM groups WHERE id = ?";

/// Reads a page of a user's groups created before a time, newest first.
pub const USER_GROUPS_BEFORE_SQL: &'static str = "SELECT g.id, g.name, g.created_by, g.created_at FROM groups g JOIN group_members gm ON gm.group_id = g.id WHERE gm.user_id = ? AND g.created_at < ? ORDER BY g.created_at DESC LIMIT ?";

/// Reads the first page of a user's groups, newest first.
pub const USER_GROUPS_SQL: &'static str = "SELECT g.id, g.name, g.created_by, g.created_at FROM groups g JOIN group_members gm ON gm.group_id = g.id WHERE gm.user_id = ? ORDER BY g.created_at DESC LIMIT ?";

/// Adds a member with a role.
pub const ADD_MEMBER_SQL: &'static str = "INSERT INTO group_members (group_id, user_id, role) VALUES (?, ?, ?)";

/// Removes a member.
pub const REMOVE_MEMBER_SQL: &'static str = "DELETE FROM group_members WHERE group_id = ? AND user_id = ?";

/// Reads a page of a group's members who joined before a time, latest first.
pub const MEMBERS_BEFORE_SQL: &'static str = "SELECT group_id, user_id, role, joined_at FROM group_members WHERE group_id = ? AND joined_at < ? ORDER BY joined_at DESC LIMIT ?";

/// Reads the first page of a group's members, latest first.
pub const MEMBERS_SQL: &'static str = "SELECT group_id, user_id, role, joined_at FROM group_members WHERE group_id = ? ORDER BY joined_at DESC LIMIT ?";

/// A row of the `groups` table.
#[derive(Debug, Clone)]
pub struct GroupRow {
    pub id: GroupId,
    pub name: String,
    pub created_by: UserId,
    pub created_at: Timestamp,
}

/// A row of the `group_members` table; the role is stored as text.
#[derive(Debug, Clone)]
pub struct GroupMemberRow {
    pub group_id: GroupId,
    pub user_id: UserId,
    pub role: String,
    pub joined_at: Timestamp,
}

/// The text under which a role is stored.
pub open spec fn role_text(role: GroupRole) -> Seq<char> {
    match role {
        GroupRole::Admin => "admin"@,
        GroupRole::Member => "member"@,
    }
}

/// The role stored under a text, if any.
pub open spec fn role_of_text(text: Seq<char>) -> Option<GroupRole> {
    if text == "admin"@ {
        Some(GroupRole::Admin)
    } else if text == "member"@ {
        Some(GroupRole::Member)
    } else {
        None
    }
}

/// Maps a `GroupRole` to the lowercase string stored in SQLite.
pub fn role_to_str(role: &GroupRole) -> (text: &'static str)
    ensures
        text@ == role_text(*role),
{
    match role {
        GroupRole::Admin => "admin",
        GroupRole::Member => "member",
    }
}

/// Reading back the text of a role gives the role.
pub proof fn lemma_role_text_round_trip(role: GroupRole)
    ensures
        role_of_text(role_text(role)) == Some(role),
{
    reveal_strlit("admin");
    reveal_strlit("member");
    assert("admin"@.len() != "member"@.len());
}

/// A text that reads as a role is the text of that role.
pub proof fn lemma_role_of_text_exact(text: Seq<char>)
    ensures
        role_of_text(text) matches Some(role) ==> role_text(role) == text,
{
}

/// A stored text is the text of one of the roles.
pub open spec fn role_known(text: Seq<char>) -> bool {
    text == "admin"@ || text == "member"@
}

/// A member is the one a row describes: same group, user and joining time,
/// and a role whose stored text is the row's.
pub open spec fn member_describes(member: GroupMember, row: GroupMemberRow) -> bool {
    &&& member.group_id == row.group_id
    &&& member.user_id == row.user_id
    &&& member.joined_at == row.joined_at
    &&& role_text(member.role) == row.role@
}

/// A text reads as a role exactly when it is the text of one.
pub proof fn lemma_role_known(text: Seq<char>)
    ensures
        role_of_text(text) is Some <==> role_known(text),
{
}

/// The member entity that a row describes, or the unknown-role error.
pub open spec fn member_of_row(row: GroupMemberRow) -> Result<GroupMember, RepoError> {
    match role_of_text(row.role@) {
        Some(role) => Ok(
            GroupMember {
                group_id: row.group_id,
                user_id: row.user_id,
                role,
                joined_at: row.joined_at,
            },
        ),
        None => Err(RepoError::UnknownGroupRole(row.role)),
    }
}

impl From<GroupRow> for Group {
    /// The group a row describes.
    fn from(row: GroupRow) -> (group: Group)
        ensures
            group.id == row.id,
            group.name == row.name,
            group.created_by == row.created_by,
            group.created_at == row.created_at,
    {
        Group { id: row.id, name: row.name, created_by: row.created_by, created_at: row.created_at }
    }
}

impl vstd::std_specs::convert::FromSpecImpl<GroupRow> for Group {
    open spec fn obeys_from_spec() -> bool {
        true
    }

    open spec fn from_spec(row: GroupRow) -> Group {
        Group { id: row.id, name: row.name, created_by: row.created_by, created_at: row.created_at }
    }
}

/// A group read from a row has the row's identifier, name, creator and
/// creation time.
pub proof fn lemma_group_from_row(row: GroupRow)
    ensures
        <Group as vstd::std_specs::convert::FromSpec<GroupRow>>::from_spec(row).id == row.id,
        <Group as vstd::std_specs::convert::FromSpec<GroupRow>>::from_spec(row).name == row.name,
        <Group as vstd::std_specs::convert::FromSpec<GroupRow>>::from_spec(row).created_by == row.created_by,
        <Group as vstd::std_specs::convert::FromSpec<GroupRow>>::from_spec(row).created_at == row.created_at,
{
}

impl TryFrom<GroupMemberRow> for GroupMember {
    type Error = RepoError;

    /// The member a row describes; a role other than `admin` or `member` is an error.
    fn try_from(row: GroupMemberRow) -> (result: Result<GroupMember, RepoError>)
        ensures
            result is Ok <==> role_known(row.role@),
            result matches Ok(member) ==> member_describes(member, row),
            result matches Err(e) ==> e == RepoError::UnknownGroupRole(row.role),
    {
        let admin = String::from_str("admin");
        let member = String::from_str("member");
        let role = if row.role == admin {
            GroupRole::Admin
        } else if row.role == member {
            GroupRole::Member
        } else {
            return Err(RepoError::UnknownGroupRole(row.role));
        };
        Ok(GroupMember { group_id: row.group_id, user_id: row.user_id, role, joined_at: row.joined_at })
    }
}

impl vstd::std_specs::convert::TryFromSpecImpl<GroupMemberRow> for GroupMember {
    open spec fn obeys_try_from_spec() -> bool {
        true
    }

    open spec fn try_from_spec(row: GroupMemberRow) -> Result<GroupMember, RepoError> {
        member_of_row(row)
    }
}

/// A member row whose role was stored as the text of a role (as
/// `add_member_statement` stores it) reads back as a member with that role.
pub proof fn lemma_stored_role_reads_back(row: GroupMemberRow, role: GroupRole)
    requires
        row.role@ == role_text(role),
    ensures
        member_of_row(row) == Ok::<GroupMember, RepoError>(
            GroupMember { group_id: row.group_id, user_id: row.user_id, role, joined_at: row.joined_at },
        ),
{
    lemma_role_text_round_trip(role);
}

/// The statements that create a group, run in one transaction: the group row,
/// then the creator's membership as `admin`, joined when the group was created.
pub fn create_group_statements(group: &Group) -> (statements: Vec<Statement>)
    ensures
        statements@.len() == 2,
        statements@[0]@ == (StatementView {
            sql: INSERT_GROUP_SQL@,
            binds: seq![
                BoundValue::Uuid(group.id),
                BoundValue::Text(group.name@),
                BoundValue::Uuid(group.created_by),
                BoundValue::Integer(group.created_at),
            ],
        }),
        statements@[1]@ == (StatementView {
            sql: INSERT_CREATOR_SQL@,
            binds: seq![
                BoundValue::Uuid(group.id),
                BoundValue::Uuid(group.created_by),
                BoundValue::Integer(group.created_at),
            ],
        }),
{
    let insert_group = statement(
        INSERT_GROUP_SQL,
        vec![
            SqlValue::Uuid(group.id),
            text_value(group.name.as_str()),
            SqlValue::Uuid(group.created_by),
            SqlValue::Integer(group.created_at),
        ],
    );
    let insert_creator = statement(
        INSERT_CREATOR_SQL,
        vec![SqlValue::Uuid(group.id), SqlValue::Uuid(group.created_by), SqlValue::Integer(group.created_at)],
    );
    let statements = vec![insert_group, insert_creator];
    assert(statements@[0].binds@.map_values(|v: SqlValue| v@) =~= seq![
        BoundValue::Uuid(group.id),
        BoundValue::Text(group.name@),
        BoundValue::Uuid(group.created_by),
        BoundValue::Integer(group.created_at),
    ]);
    assert(statements@[1].binds@.map_values(|v: SqlValue| v@) =~= seq![
        BoundValue::Uuid(group.id),
        BoundValue::Uuid(group.created_by),
        BoundValue::Integer(group.created_at),
    ]);
    statements
}

/// The query for one group by its identifier.
pub fn group_by_id_query(group_id: GroupId) -> (query: Statement)
    ensures
        query@ == (StatementView { sql: GROUP_BY_ID_SQL@, binds: seq![BoundValue::Uuid(group_id)] }),
{
    let query = statement(GROUP_BY_ID_SQL, vec![SqlValue::Uuid(group_id)]);
    assert(query.binds@.map_values(|v: SqlValue| v@) =~= seq![BoundValue::Uuid(group_id)]);
    query
}

/// The query for the groups a user belongs to, newest first, at most `limit`
/// of them, and only those created before `created_before` where it is given.
pub fn user_groups_query(user_id: UserId, limit: i64, created_before: Option<Timestamp>) -> (query: Statement)
    ensures
        query@ == (match created_before {
            Some(before) => StatementView {
                sql: USER_GROUPS_BEFORE_SQL@,
                binds: seq![BoundValue::Uuid(user_id), BoundValue::Integer(before), BoundValue::Integer(limit)],
            },
            None => StatementView {
                sql: USER_GROUPS_SQL@,
                binds: seq![BoundValue::Uuid(user_id), BoundValue::Integer(limit)],
            },
        }),
{
    match created_before {
        Some(before) => {
            let query = statement(
                USER_GROUPS_BEFORE_SQL,
                vec![SqlValue::Uuid(user_id), SqlValue::Integer(before), SqlValue::Integer(limit)],
            );
            assert(query.binds@.map_values(|v: SqlValue| v@) =~= seq![
                BoundValue::Uuid(user_id),
                BoundValue::Integer(before),
                BoundValue::Integer(limit),
            ]);
            query
        },
        None => {
            let query = statement(USER_GROUPS_SQL, vec![SqlValue::Uuid(user_id), SqlValue::Integer(limit)]);
            assert(query.binds@.map_values(|v: SqlValue| v@) =~= seq![
                BoundValue::Uuid(user_id),
                BoundValue::Integer(limit),
            ]);
            query
        },
    }
}

/// The statement that adds a user to a group with a role, stored as its text.
pub fn add_member_statement(group_id: GroupId, user_id: UserId, role: &GroupRole) -> (stmt: Statement)
    ensures
        stmt@ == (StatementView {
            sql: ADD_MEMBER_SQL@,
            binds: seq![BoundValue::Uuid(group_id), BoundValue::Uuid(user_id), BoundValue::Text(role_text(*role))],
        }),
{
    let stmt = statement(
        ADD_MEMBER_SQL,
        vec![SqlValue::Uuid(group_id), SqlValue::Uuid(user_id), text_value(role_to_str(role))],
    );
    assert(stmt.binds@.map_values(|v: SqlValue| v@) =~= seq![
        BoundValue::Uuid(group_id),
        BoundValue::Uuid(user_id),
        BoundValue::Text(role_text(*role)),
    ]);
    stmt
}

/// The statement that removes a user from a group.
pub fn remove_member_statement(group_id: GroupId, user_id: UserId) -> (stmt: Statement)
    ensures
        stmt@ == (StatementView {
            sql: REMOVE_MEMBER_SQL@,
            binds: seq![BoundValue::Uuid(group_id), BoundValue::Uuid(user_id)],
        }),
{
    let stmt = statement(REMOVE_MEMBER_SQL, vec![SqlValue::Uuid(group_id), SqlValue::Uuid(user_id)]);
    assert(stmt.binds@.map_values(|v: SqlValue| v@) =~= seq![
        BoundValue::Uuid(group_id),
        BoundValue::Uuid(user_id),
    ]);
    stmt
}

/// The query for the members of a group, latest joined first, at most `limit`
/// of them, and only those who joined before `joined_before` where it is given.
pub fn members_query(group_id: GroupId, limit: i64, joined_before: Option<Timestamp>) -> (query: Statement)
    ensures
        query@ == (match joined_before {
            Some(before) => StatementView {
                sql: MEMBERS_BEFORE_SQL@,
                binds: seq![BoundValue::Uuid(group_id), BoundValue::Integer(before), BoundValue::Integer(limit)],
            },
            None => StatementView {
                sql: MEMBERS_SQL@,
                binds: seq![BoundValue::Uuid(group_id), BoundValue::Integer(limit)],
            },
        }),
{
    match joined_before {
        Some(before) => {
            let query = statement(
                MEMBERS_BEFORE_SQL,
                vec![SqlValue::Uuid(group_id), SqlValue::Integer(before), SqlValue::Integer(limit)],
            );
            assert(query.binds@.map_values(|v: SqlValue| v@) =~= seq![
                BoundValue::Uuid(group_id),
                BoundValue::Integer(before),
                BoundValue::Integer(limit),
            ]);
            query
        },
        None => {
            let query = statement(MEMBERS_SQL, vec![SqlValue::Uuid(group_id), SqlValue::Integer(limit)]);
            assert(query.binds@.map_values(|v: SqlValue| v@) =~= seq![
                BoundValue::Uuid(group_id),
                BoundValue::Integer(limit),
            ]);
            query
        },
    }
}

/// The members that a list of rows describes, in order, or the error of the
/// first row whose role is unknown.
pub open spec fn members_of_rows(rows: Seq<GroupMemberRow>) -> Result<Seq<GroupMember>, RepoError>
    decreases rows.len(),
{
    if rows.len() == 0 {
        Ok(Seq::empty())
    } else {
        match members_of_rows(rows.drop_last()) {
            Err(e) => Err(e),
            Ok(members) => match member_of_row(rows.last()) {
                Err(e) => Err(e),
                Ok(member) => Ok(members.push(member)),
            },
        }
    }
}

/// Converts fetched member rows; the first row with an unknown role fails the whole list.
pub fn members_from_rows(rows: Vec<GroupMemberRow>) -> (result: Result<Vec<GroupMember>, RepoError>)
    ensures
        match (result, members_of_rows(rows@)) {
            (Ok(members), Ok(expected)) => members@ == expected,
            (Err(e), Err(expected)) => e == expected,
            _ => false,
        },
        result is Ok <==> forall|i: int| 0 <= i < rows@.len() ==> role_known(#[trigger] rows@[i].role@),
        result matches Ok(members) ==> members@.len() == rows@.len() && forall|i: int|
            0 <= i < rows@.len() ==> member_describes(#[trigger] members@[i], rows@[i]),
        result matches Err(e) ==> exists|i: int|
            0 <= i < rows@.len() && !role_known(#[trigger] rows@[i].role@) && e == RepoError::UnknownGroupRole(
                rows@[i].role,
            ) && forall|j: int| 0 <= j < i ==> role_known(#[trigger] rows@[j].role@),
{
    let ghost all = rows@;
    let mut members: Vec<GroupMember> = Vec::new();
    let mut i: usize = 0;
    while i < rows.len()
        invariant
            i <= all.len(),
            all == rows@,
            members_of_rows(all.take(i as int)) == Ok::<Seq<GroupMember>, RepoError>(members@),
            members@.len() == i,
            forall|j: int| 0 <= j < i ==> role_known(#[trigger] all[j].role@),
            forall|j: int| 0 <= j < i ==> member_describes(#[trigger] members@[j], all[j]),
        decreases all.len() - i,
    {
        let stored = &rows[i];
        let row = GroupMemberRow {
            group_id: stored.group_id,
            user_id: stored.user_id,
            role: stored.role.clone(),
            joined_at: stored.joined_at,
        };
        proof {
            assert(row == all[i as int]);
            assert(all.take(i + 1).drop_last() =~= all.take(i as int));
            assert(all.take(i + 1).last() == row);
        }
        proof {
            lemma_role_of_text_exact(row.role@);
            lemma_role_known(row.role@);
        }
        match GroupMember::try_from(row) {
            Ok(member) => {
                members.push(member);
            },
            Err(e) => {
                proof {
                    assert(members_of_rows(all.take(i + 1)) == Err::<Seq<GroupMember>, RepoError>(e));
                    lemma_members_of_rows_err_extends(all, (i + 1) as nat);
                }
                return Err(e);
            },
        }
        i = i + 1;
    }
    assert(all.take(all.len() as int) =~= all);
    Ok(members)
}

/// Once a prefix of the rows fails, every longer prefix fails with the same error.
proof fn lemma_members_of_rows_err_extends(rows: Seq<GroupMemberRow>, n: nat)
    requires
        n <= rows.len(),
        members_of_rows(rows.take(n as int)) is Err,
    ensures
        members_of_rows(rows) == members_of_rows(rows.take(n as int)),
    decreases rows.len() - n,
{
    if n < rows.len() {
        assert(rows.take((n + 1) as int).drop_last() =~= rows.take(n as int));
        lemma_members_of_rows_err_extends(rows, n + 1);
    } else {
        assert(rows.take(n as int) =~= rows);
    }
}

} // verus!
