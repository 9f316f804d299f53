//! Statements and row conversions of the user repository.

use vstd::prelude::*;

use super::statement::{statement, text_value, BoundValue, SqlValue, Statement, StatementView};
use crate::domain::types::Timestamp;
use crate::domain::user::{User, UserId};

verus! {

/// Stores a new user.
pub const INSERT_USER_SQL: &'static str = "INSERT INTO users (id, username, created_at) VALUES (?, ?, ?)";

/// Reads one user.
pub const USER_BY_ID_SQL: &'static str = "SELECT id, username, created_at FROM users WHERE id = ?";

/// The text before the placeholder list of the query for several users.
pub const USERS_BY_IDS_PREFIX: &'static str = "SELECT id, username, created_at FROM users WHERE id IN (";

/// A row of the `users` table.
#[derive(Debug, Clone)]
pub struct UserRow {
    pub id: UserId,
    pub username: String,
    pub created_at: Timestamp,
}

impl From<UserRow> for User {
    /// The user a row describes.
    fn from(row: UserRow) -> (user: User)
        ensures
            user.id == row.id,
            user.username == row.username,
            user.created_at == row.created_at,
    {
        User { id: row.id, username: row.username, created_at: row.created_at }
    }
}

impl vstd::std_specs::convert::FromSpecImpl<UserRow> for User {
    open spec fn obeys_from_spec() -> bool {
        true
    }

    open spec fn from_spec(row: UserRow) -> User {
        User { id: row.id, username: row.username, created_at: row.created_at }
    }
}

/// A user read from a row has the row's identifier, name and creation time.
pub proof fn lemma_user_from_row(row: UserRow)
    ensures
        <User as vstd::std_specs::convert::FromSpec<UserRow>>::from_spec(row).id == row.id,
        <User as vstd::std_specs::convert::FromSpec<UserRow>>::from_spec(row).username == row.username,
        <User as vstd::std_specs::convert::FromSpec<UserRow>>::from_spec(row).created_at == row.created_at,
{
}

/// The statement that stores a new user.
pub fn create_user_statement(user: &User) -> (stmt: Statement)
    ensures
        stmt@ == (StatementView {
            sql: INSERT_USER_SQL@,
            binds: seq![
                BoundValue::Uuid(user.id),
                BoundValue::Text(user.username@),
                BoundValue::Integer(user.created_at),
            ],
        }),
{
    let stmt = statement(
        INSERT_USER_SQL,
        vec![SqlValue::Uuid(user.id), text_value(user.username.as_str()), SqlValue::Integer(user.created_at)],
    );
    assert(stmt.binds@.map_values(|v: SqlValue| v@) =~= seq![
        BoundValue::Uuid(user.id),
        BoundValue::Text(user.username@),
        BoundValue::Integer(user.created_at),
    ]);
    stmt
}

/// The query for one user by identifier.
pub fn user_by_id_query(user_id: UserId) -> (query: Statement)
    ensures
        query@ == (StatementView { sql: USER_BY_ID_SQL@, binds: seq![BoundValue::Uuid(user_id)] }),
{
    let query = statement(USER_BY_ID_SQL, vec![SqlValue::Uuid(user_id)]);
    assert(query.binds@.map_values(|v: SqlValue| v@) =~= seq![BoundValue::Uuid(user_id)]);
    query
}

/// `n` placeholders separated by `", "`.
pub open spec fn placeholders(n: nat) -> Seq<char>
    decreases n,
{
    if n == 0 {
        Seq::empty()
    } else if n == 1 {
        "?"@
    } else {
        placeholders((n - 1) as nat) + ", "@ + "?"@
    }
}

/// The number of `?` characters in a text.
pub open spec fn placeholder_count(text: Seq<char>) -> nat
    decreases text.len(),
{
    if text.len() == 0 {
        0
    } else {
        placeholder_count(text.drop_last()) + if text.last() == '?' { 1nat } else { 0nat }
    }
}

/// The text of the query for the users with `n` given identifiers.
pub open spec fn users_by_ids_sql(n: nat) -> Seq<char> {
    USERS_BY_IDS_PREFIX@ + placeholders(n) + ")"@
}

/// The query for the users whose identifiers are given, or `None` where no
/// identifier is given (then there is nothing to fetch). The identifiers are
/// bound one to each placeholder, in order.
pub fn users_by_ids_query(ids: &Vec<UserId>) -> (query: Option<Statement>)
    ensures
        ids@.len() == 0 ==> query is None,
        ids@.len() > 0 ==> (query matches Some(q) && q@ == (StatementView {
            sql: users_by_ids_sql(ids@.len()),
            binds: ids@.map_values(|id: UserId| BoundValue::Uuid(id)),
        })),
        query matches Some(q) ==> {
            let n = USERS_BY_IDS_PREFIX@.len();
            &&& q.sql@.len() > n
            &&& q.sql@.subrange(0, n as int) == USERS_BY_IDS_PREFIX@
            &&& q.sql@.last() == ')'
            &&& placeholder_count(q.sql@.subrange(n as int, q.sql@.len() - 1)) == ids@.len()
            &&& q.binds@.len() == ids@.len()
            &&& forall|i: int| 0 <= i < ids@.len() ==> (#[trigger] q.binds@[i])@ == BoundValue::Uuid(ids@[i])
        },
{
    if ids.len() == 0 {
        return None;
    }
    let mut sql = String::from_str(USERS_BY_IDS_PREFIX);
    let mut binds: Vec<SqlValue> = Vec::new();
    let mut i: usize = 0;
    while i < ids.len()
        invariant
            i <= ids@.len(),
            sql@ == USERS_BY_IDS_PREFIX@ + placeholders(i as nat),
            binds@.len() == i,
            forall|j: int| 0 <= j < i ==> #[trigger] binds@[j]@ == BoundValue::Uuid(ids@[j]),
        decreases ids@.len() - i,
    {
        if i > 0 {
            sql.append(", ");
        }
        sql.append("?");
        proof {
            if i == 0 {
                assert(sql@ =~= USERS_BY_IDS_PREFIX@ + placeholders(1));
            } else {
                assert(sql@ =~= USERS_BY_IDS_PREFIX@ + placeholders((i + 1) as nat));
            }
        }
        binds.push(SqlValue::Uuid(ids[i]));
        i = i + 1;
    }
    sql.append(")");
    let query = Statement { sql, binds };
    proof {
        reveal_strlit(")");
        let n = USERS_BY_IDS_PREFIX@.len();
        let p = placeholders(ids@.len());
        assert(query.sql@ == USERS_BY_IDS_PREFIX@ + p + ")"@);
        assert(query.sql@.subrange(0, n as int) =~= USERS_BY_IDS_PREFIX@);
        assert(query.sql@.subrange(n as int, query.sql@.len() - 1) =~= p);
        lemma_placeholders_count(ids@.len());
    }
    assert(query.binds@.map_values(|v: SqlValue| v@) =~= ids@.map_values(|id: UserId| BoundValue::Uuid(id)));
    Some(query)
}

/// The number of `?` in a concatenation is the sum of the numbers in its parts.
pub proof fn lemma_placeholder_count_concat(a: Seq<char>, b: Seq<char>)
    ensures
        placeholder_count(a + b) == placeholder_count(a) + placeholder_count(b),
    decreases b.len(),
{
    if b.len() == 0 {
        assert(a + b =~= a);
    } else {
        lemma_placeholder_count_concat(a, b.drop_last());
        assert((a + b).drop_last() =~= a + b.drop_last());
    }
}

/// The placeholder list for `n` identifiers holds exactly `n` placeholders.
pub proof fn lemma_placeholders_count(n: nat)
    ensures
        placeholder_count(placeholders(n)) == n,
    decreases n,
{
    reveal_strlit("?");
    reveal_strlit(", ");
    if n == 0 {
    } else if n == 1 {
        reveal_with_fuel(placeholder_count, 2);
    } else {
        lemma_placeholders_count((n - 1) as nat);
        lemma_placeholder_count_concat(placeholders((n - 1) as nat), ", "@);
        lemma_placeholder_count_concat(placeholders((n - 1) as nat) + ", "@, "?"@);
        reveal_with_fuel(placeholder_count, 3);
        assert(", "@.drop_last() =~= seq![',']);
        assert(seq![','].drop_last() =~= Seq::<char>::empty());
        assert("?"@.drop_last() =~= Seq::<char>::empty());
    }
}

} // verus!
