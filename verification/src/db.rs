//! The configuration of the SQLite connection pool.

use std::str::FromStr;

use sqlx::sqlite::SqliteConnectOptions;
use vstd::prelude::*;

verus! {

#[verifier::external_type_specification]
#[verifier::external_body]
pub struct ExSqliteConnectOptions(SqliteConnectOptions);

#[verifier::external_type_specification]
#[verifier::external_body]
pub struct ExSqlxError(sqlx::Error);

/// Whether `SqliteConnectOptions::from_str` accepts a database URL.
pub uninterp spec fn sqlite_url_accepted(url: Seq<char>) -> bool;

/// Calls `SqliteConnectOptions::from_str` on a database URL.
/// Trusted: it succeeds exactly on the URLs that `sqlite_url_accepted`
/// admits; what the options hold is not stated.
#[verifier::external_body]
fn parse_sqlite_url(url: &str) -> (result: Result<SqliteConnectOptions, sqlx::Error>)
    ensures
        result is Ok <==> sqlite_url_accepted(url@),
{
    SqliteConnectOptions::from_str(url)
}

/// Calls `SqliteConnectOptions::pragma` to set one pragma; nothing is stated
/// of the options it returns.
#[verifier::external_body]
fn with_pragma(options: SqliteConnectOptions, key: &'static str, value: &'static str) -> (result:
    SqliteConnectOptions) {
    options.pragma(key, value)
}

/// Calls `ConnectOptions::disable_statement_logging`; nothing is stated of
/// the options it returns.
#[verifier::external_body]
fn without_statement_logging(options: SqliteConnectOptions) -> (result: SqliteConnectOptions) {
    sqlx::ConnectOptions::disable_statement_logging(options)
}

/// The pragmas every connection of the pool is opened with, in order:
/// write-ahead logging for concurrent readers, enforced foreign keys,
/// `NORMAL` synchronisation (enough with write-ahead logging), temporary
/// tables in memory, and a cache of about 200 MB.
pub open spec fn pool_pragmas() -> Seq<(Seq<char>, Seq<char>)> {
    seq![
        ("journal_mode"@, "WAL"@),
        ("foreign_keys"@, "ON"@),
        ("synchronous"@, "NORMAL"@),
        ("temp_store"@, "MEMORY"@),
        ("cache_size"@, "-200000"@),
    ]
}

/// How the connection pool is opened.
pub struct PoolSettings {
    /// The connection options: the database URL's, with `pragmas` applied in
    /// order and statement logging off.
    pub options: SqliteConnectOptions,
    /// The pragmas applied to the options.
    pub pragmas: Vec<(&'static str, &'static str)>,
    /// Whether statements are logged.
    pub log_statements: bool,
    /// The largest number of connections the pool opens.
    pub max_connections: u32,
}

/// The texts of a list of pragmas.
pub open spec fn pragma_texts(pragmas: Seq<(&'static str, &'static str)>) -> Seq<(Seq<char>, Seq<char>)> {
    pragmas.map_values(|p: (&'static str, &'static str)| (p.0@, p.1@))
}

/// The settings of the pool for a database URL, or the URL's parse error.
/// The options are opaque: that they carry the listed pragmas and have
/// statement logging off is what the body does, not what a clause states.
pub fn pool_settings(database_url: &str) -> (result: Result<PoolSettings, sqlx::Error>)
    ensures
        result is Ok <==> sqlite_url_accepted(database_url@),
        result matches Ok(s) ==> s.max_connections == 5 && !s.log_statements && pragma_texts(s.pragmas@)
            == pool_pragmas(),
{
    let mut options = match parse_sqlite_url(database_url) {
        Ok(options) => options,
        Err(e) => return Err(e),
    };
    let pragmas: Vec<(&'static str, &'static str)> = vec![
        ("journal_mode", "WAL"),
        ("foreign_keys", "ON"),
        ("synchronous", "NORMAL"),
        ("temp_store", "MEMORY"),
        ("cache_size", "-200000"),
    ];
    let mut i: usize = 0;
    while i < pragmas.len()
        invariant
            i <= pragmas@.len(),
        decreases pragmas@.len() - i,
    {
        let (key, value) = pragmas[i];
        options = with_pragma(options, key, value);
        i = i + 1;
    }
    options = without_statement_logging(options);
    assert(pragma_texts(pragmas@) =~= pool_pragmas());
    Ok(PoolSettings { options, pragmas, log_statements: false, max_connections: 5 })
}

} // verus!
