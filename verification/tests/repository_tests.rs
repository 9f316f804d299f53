use split_server::domain::group::{Group, GroupMember, GroupRole};
use split_server::domain::types::RepoError;
use split_server::domain::user::User;
use split_server::repository::group_repo::{
    add_member_statement, create_group_statements, group_by_id_query, members_from_rows, members_query,
    remove_member_statement, role_to_str, user_groups_query, GroupMemberRow, GroupRow,
};
use split_server::repository::statement::SqlValue;
use split_server::repository::user_repo::{create_user_statement, user_by_id_query, users_by_ids_query, UserRow};

fn uuid(v: &SqlValue) -> u128 {
    match v {
        SqlValue::Uuid(id) => *id,
        other => panic!("expected a UUID, got {:?}", other),
    }
}

fn integer(v: &SqlValue) -> i64 {
    match v {
        SqlValue::Integer(n) => *n,
        other => panic!("expected an integer, got {:?}", other),
    }
}

fn text(v: &SqlValue) -> &str {
    match v {
        SqlValue::Text(s) => s.as_str(),
        other => panic!("expected a text, got {:?}", other),
    }
}

fn member_row(role: &str) -> GroupMemberRow {
    GroupMemberRow { group_id: 10, user_id: 20, role: role.to_string(), joined_at: 300 }
}

#[test]
fn role_to_str_names_each_role() {
    assert_eq!(role_to_str(&GroupRole::Admin), "admin");
    assert_eq!(role_to_str(&GroupRole::Member), "member");
}

#[test]
fn member_row_with_known_role_converts() {
    let m = GroupMember::try_from(member_row("admin")).unwrap();
    assert_eq!((m.group_id, m.user_id, m.role, m.joined_at), (10, 20, GroupRole::Admin, 300));
    let m = GroupMember::try_from(member_row("member")).unwrap();
    assert_eq!(m.role, GroupRole::Member);
}

#[test]
fn member_row_role_text_round_trips() {
    for role in [GroupRole::Admin, GroupRole::Member] {
        assert_eq!(GroupMember::try_from(member_row(role_to_str(&role))).unwrap().role, role);
    }
}

#[test]
fn member_row_with_unknown_role_fails() {
    match GroupMember::try_from(member_row("Admin")) {
        Err(RepoError::UnknownGroupRole(r)) => assert_eq!(r, "Admin"),
        other => panic!("unexpected {:?}", other),
    }
    let e = GroupMember::try_from(member_row("owner")).unwrap_err();
    assert_eq!(e.message(), "unknown group role: owner");
}

#[test]
fn members_from_rows_converts_all_in_order() {
    let rows = vec![member_row("admin"), GroupMemberRow { group_id: 10, user_id: 21, role: "member".to_string(), joined_at: 200 }];
    let members = members_from_rows(rows).unwrap();
    assert_eq!(members.len(), 2);
    assert_eq!((members[0].user_id, members[0].role), (20, GroupRole::Admin));
    assert_eq!((members[1].user_id, members[1].role), (21, GroupRole::Member));
    assert!(members_from_rows(vec![]).unwrap().is_empty());
}

#[test]
fn members_from_rows_fails_on_first_bad_row() {
    let rows = vec![member_row("admin"), member_row("guest"), member_row("owner")];
    match members_from_rows(rows) {
        Err(RepoError::UnknownGroupRole(r)) => assert_eq!(r, "guest"),
        other => panic!("unexpected {:?}", other),
    }
}

#[test]
fn rows_convert_to_entities() {
    let g = Group::from(GroupRow { id: 1, name: "Trip".to_string(), created_by: 2, created_at: 3 });
    assert_eq!((g.id, g.name.as_str(), g.created_by, g.created_at), (1, "Trip", 2, 3));
    let u = User::from(UserRow { id: 4, username: "ann".to_string(), created_at: 5 });
    assert_eq!((u.id, u.username.as_str(), u.created_at), (4, "ann", 5));
}

#[test]
fn create_group_inserts_group_then_creator_as_admin() {
    let group = Group { id: 7, name: "Flat".to_string(), created_by: 8, created_at: 1000 };
    let stmts = create_group_statements(&group);
    assert_eq!(stmts.len(), 2);
    assert_eq!(stmts[0].sql, "INSERT INTO groups (id, name, created_by, created_at) VALUES (?, ?, ?, ?)");
    assert_eq!(stmts[0].binds.len(), 4);
    assert_eq!((uuid(&stmts[0].binds[0]), text(&stmts[0].binds[1]), uuid(&stmts[0].binds[2]), integer(&stmts[0].binds[3])), (7, "Flat", 8, 1000));
    assert_eq!(stmts[1].sql, "INSERT INTO group_members (group_id, user_id, role, joined_at) VALUES (?, ?, 'admin', ?)");
    assert_eq!(stmts[1].binds.len(), 3);
    assert_eq!((uuid(&stmts[1].binds[0]), uuid(&stmts[1].binds[1]), integer(&stmts[1].binds[2])), (7, 8, 1000));
}

#[test]
fn group_queries_bind_their_arguments() {
    let q = group_by_id_query(5);
    assert_eq!(q.sql, "SELECT id, name, created_by, created_at FROM groups WHERE id = ?");
    assert_eq!(uuid(&q.binds[0]), 5);

    let q = user_groups_query(9, 50, None);
    assert_eq!(q.sql, "SELECT g.id, g.name, g.created_by, g.created_at FROM groups g JOIN group_members gm ON gm.group_id = g.id WHERE gm.user_id = ? ORDER BY g.created_at DESC LIMIT ?");
    assert_eq!((q.binds.len(), uuid(&q.binds[0]), integer(&q.binds[1])), (2, 9, 50));

    let q = user_groups_query(9, 50, Some(123));
    assert_eq!(q.sql, "SELECT g.id, g.name, g.created_by, g.created_at FROM groups g JOIN group_members gm ON gm.group_id = g.id WHERE gm.user_id = ? AND g.created_at < ? ORDER BY g.created_at DESC LIMIT ?");
    assert_eq!((q.binds.len(), uuid(&q.binds[0]), integer(&q.binds[1]), integer(&q.binds[2])), (3, 9, 123, 50));

    let q = members_query(4, 100, None);
    assert_eq!(q.sql, "SELECT group_id, user_id, role, joined_at FROM group_members WHERE group_id = ? ORDER BY joined_at DESC LIMIT ?");
    assert_eq!((q.binds.len(), uuid(&q.binds[0]), integer(&q.binds[1])), (2, 4, 100));

    let q = members_query(4, 100, Some(77));
    assert_eq!(q.sql, "SELECT group_id, user_id, role, joined_at FROM group_members WHERE group_id = ? AND joined_at < ? ORDER BY joined_at DESC LIMIT ?");
    assert_eq!((q.binds.len(), uuid(&q.binds[0]), integer(&q.binds[1]), integer(&q.binds[2])), (3, 4, 77, 100));
}

#[test]
fn member_statements_bind_their_arguments() {
    let s = add_member_statement(1, 2, &GroupRole::Member);
    assert_eq!(s.sql, "INSERT INTO group_members (group_id, user_id, role) VALUES (?, ?, ?)");
    assert_eq!((uuid(&s.binds[0]), uuid(&s.binds[1]), text(&s.binds[2])), (1, 2, "member"));
    let s = remove_member_statement(1, 2);
    assert_eq!(s.sql, "DELETE FROM group_members WHERE group_id = ? AND user_id = ?");
    assert_eq!((s.binds.len(), uuid(&s.binds[0]), uuid(&s.binds[1])), (2, 1, 2));
}

#[test]
fn user_statements_bind_their_arguments() {
    let user = User { id: 11, username: "bob".to_string(), created_at: 42 };
    let s = create_user_statement(&user);
    assert_eq!(s.sql, "INSERT INTO users (id, username, created_at) VALUES (?, ?, ?)");
    assert_eq!((uuid(&s.binds[0]), text(&s.binds[1]), integer(&s.binds[2])), (11, "bob", 42));
    let q = user_by_id_query(11);
    assert_eq!(q.sql, "SELECT id, username, created_at FROM users WHERE id = ?");
    assert_eq!(uuid(&q.binds[0]), 11);
}

#[test]
fn users_by_ids_without_ids_queries_nothing() {
    assert!(users_by_ids_query(&vec![]).is_none());
}

#[test]
fn users_by_ids_has_one_placeholder_per_id() {
    let q = users_by_ids_query(&vec![3]).unwrap();
    assert_eq!(q.sql, "SELECT id, username, created_at FROM users WHERE id IN (?)");
    assert_eq!(uuid(&q.binds[0]), 3);
    let q = users_by_ids_query(&vec![3, 1, 2]).unwrap();
    assert_eq!(q.sql, "SELECT id, username, created_at FROM users WHERE id IN (?, ?, ?)");
    assert_eq!(q.binds.iter().map(uuid).collect::<Vec<_>>(), vec![3, 1, 2]);
    assert_eq!(q.sql.matches('?').count(), q.binds.len());
}
