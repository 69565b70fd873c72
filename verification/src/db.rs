//! The pooled data-access layer. Every entity operation checks one connection
//! out of the pool for the duration of a single statement, translates the
//! statement's outcome into a plain value, and maps driver failures into the
//! library's error vocabulary: absence of a row is a normal return value,
//! a violated uniqueness rule is `ConstraintViolation`, an unavailable pool
//! is `StoreUnavailable`, and everything else is `QueryFailed`.

use vstd::prelude::*;

use rusqlite::OptionalExtension;

use crate::errors::DbError;
use crate::models::{CreateUser, User};
use crate::store::{sorted_by_id, views_of};

verus! {

#[verifier::external_type_specification]
#[verifier::external_body]
pub struct ExRusqliteError(rusqlite::Error);

/// The process-wide pool of connections to the embedded store. Opaque to the
/// verifier: the pool inside is reached only through the trusted wrappers in
/// this module.
#[verifier::external_body]
pub struct DbPool {
    pool: r2d2::Pool<r2d2_sqlite::SqliteConnectionManager>,
}

/// One connection, checked out of the pool for the duration of a single
/// operation. Opaque to the verifier, like the pool.
#[verifier::external_body]
struct DbConn {
    conn: r2d2::PooledConnection<r2d2_sqlite::SqliteConnectionManager>,
}

/// Relies on r2d2_sqlite::SqliteConnectionManager::file and r2d2::Pool::new:
/// builds a pool whose connections open the database at `path`.
#[verifier::external_body]
fn pool_new(path: &str) -> Result<DbPool, String> {
    match r2d2::Pool::new(r2d2_sqlite::SqliteConnectionManager::file(path)) {
        Ok(pool) => Ok(DbPool { pool }),
        Err(e) => Err(format!("{}", e)),
    }
}

/// Relies on r2d2::Pool::get: checks a connection out of the pool, failing
/// when the pool cannot supply one before its timeout.
#[verifier::external_body]
fn pool_get(pool: &DbPool) -> Result<DbConn, String> {
    match pool.pool.get() {
        Ok(conn) => Ok(DbConn { conn }),
        Err(e) => Err(format!("{}", e)),
    }
}

/// Relies on rusqlite::Connection::execute: runs the statement that creates
/// the `users` table when it does not exist yet — integer primary key `id`
/// assigned in ascending order and never reused, required `name`, required
/// unique `email`.
#[verifier::external_body]
fn exec_create_users_table(conn: &DbConn) -> Result<usize, rusqlite::Error> {
    conn.conn.execute(
        "CREATE TABLE IF NOT EXISTS users (
            id INTEGER PRIMARY KEY AUTOINCREMENT,
            name TEXT NOT NULL,
            email TEXT NOT NULL UNIQUE
        )",
        [],
    )
}

/// Relies on rusqlite::Connection::query_row: runs
/// `SELECT COUNT(*) FROM users`, which yields exactly one non-negative count.
#[verifier::external_body]
fn count_users(conn: &DbConn) -> (r: Result<i64, rusqlite::Error>)
    ensures
        r matches Ok(n) ==> n >= 0,
{
    conn.conn.query_row("SELECT COUNT(*) FROM users", [], |row| row.get(0))
}

/// Relies on rusqlite::Connection::execute: runs
/// `INSERT INTO users (name, email) VALUES (?1, ?2)`; a successful insert of
/// one row reports exactly one changed row.
#[verifier::external_body]
fn insert_user_row(conn: &DbConn, name: &str, email: &str) -> (r: Result<
    usize,
    rusqlite::Error,
>)
    ensures
        r matches Ok(n) ==> n == 1,
{
    conn.conn.execute("INSERT INTO users (name, email) VALUES (?1, ?2)", [name, email])
}

/// Relies on rusqlite::Connection::last_insert_rowid: the rowid of the most
/// recent successful insert on this connection.
#[verifier::external_body]
fn last_insert_id(conn: &DbConn) -> i64 {
    conn.conn.last_insert_rowid()
}

/// Relies on rusqlite::Connection::prepare and rusqlite::Statement::query_map:
/// runs `SELECT id, name, email FROM users ORDER BY id`, so the returned rows
/// are strictly ascending in their first column (`id` is the primary key).
#[verifier::external_body]
fn select_all_users(conn: &DbConn) -> (r: Result<Vec<(i64, String, String)>, rusqlite::Error>)
    ensures
        r matches Ok(rows) ==> forall|i: int, j: int|
            0 <= i < j < rows@.len() ==> rows@[i].0 < rows@[j].0,
{
    let mut stmt = conn.conn.prepare("SELECT id, name, email FROM users ORDER BY id")?;
    let rows = stmt.query_map([], |row| Ok((row.get(0)?, row.get(1)?, row.get(2)?)))?;
    rows.collect::<Result<Vec<(i64, String, String)>, rusqlite::Error>>()
}

/// Relies on rusqlite::Connection::query_row and
/// rusqlite::OptionalExtension::optional: runs
/// `SELECT id, name, email FROM users WHERE id = ?1`, so a returned row
/// carries the requested id; absence of a row is `Ok(None)`, not an error.
#[verifier::external_body]
fn select_user_by_id(conn: &DbConn, id: i64) -> (r: Result<
    Option<(i64, String, String)>,
    rusqlite::Error,
>)
    ensures
        r matches Ok(row) ==> (row matches Some(t) ==> t.0 == id),
{
    conn.conn.query_row(
        "SELECT id, name, email FROM users WHERE id = ?1",
        [id],
        |row| Ok((row.get(0)?, row.get(1)?, row.get(2)?)),
    ).optional()
}

/// Relies on rusqlite::Connection::execute: runs
/// `UPDATE users SET name = ?1, email = ?2 WHERE id = ?3`; `id` is the
/// primary key, so at most one row changes, and zero changed rows means no
/// row carries the id.
#[verifier::external_body]
fn update_user_row(conn: &DbConn, name: &str, email: &str, id: i64) -> (r: Result<
    usize,
    rusqlite::Error,
>)
    ensures
        r matches Ok(n) ==> n <= 1,
{
    conn.conn.execute("UPDATE users SET name = ?1, email = ?2 WHERE id = ?3", (name, email, id))
}

/// Relies on rusqlite::Connection::execute: runs
/// `DELETE FROM users WHERE id = ?1`; `id` is the primary key, so at most one
/// row is removed.
#[verifier::external_body]
fn delete_user_row(conn: &DbConn, id: i64) -> (r: Result<usize, rusqlite::Error>)
    ensures
        r matches Ok(n) ==> n <= 1,
{
    conn.conn.execute("DELETE FROM users WHERE id = ?1", [id])
}

/// Relies on rusqlite::Error::SqliteFailure carrying the store's extended
/// result code: yields that code — 0 when the error carries none — together
/// with the error's display text.
#[verifier::external_body]
fn error_details(e: &rusqlite::Error) -> (i32, String) {
    match e {
        rusqlite::Error::SqliteFailure(f, _) => (f.extended_code, format!("{}", e)),
        _ => (0, format!("{}", e)),
    }
}

/// Extended result code with which the embedded store reports a violated
/// uniqueness constraint on a plain unique column.
pub const UNIQUE_CONSTRAINT_CODE: i32 = 2067;

/// Extended result code with which the embedded store reports a violated
/// uniqueness constraint on a primary key.
pub const PRIMARY_KEY_CONSTRAINT_CODE: i32 = 1555;

/// Whether an extended result code reports a violated uniqueness rule.
pub open spec fn is_unique_violation_code(code: i32) -> bool {
    code == UNIQUE_CONSTRAINT_CODE || code == PRIMARY_KEY_CONSTRAINT_CODE
}

/// Classifies a failed statement by its extended result code: exactly the
/// uniqueness-violation codes become `ConstraintViolation`, every other code
/// `QueryFailed`; the driver's text is carried along either way.
pub fn classify_statement_error(code: i32, text: String) -> (r: DbError)
    ensures
        r == (if is_unique_violation_code(code) {
            DbError::ConstraintViolation(text)
        } else {
            DbError::QueryFailed(text)
        }),
{
    if code == UNIQUE_CONSTRAINT_CODE || code == PRIMARY_KEY_CONSTRAINT_CODE {
        DbError::ConstraintViolation(text)
    } else {
        DbError::QueryFailed(text)
    }
}

/// Maps a failed statement's driver error into the library's vocabulary.
/// A statement failure is never `StoreUnavailable`: that variant is reserved
/// for the pool.
fn statement_error(e: rusqlite::Error) -> (r: DbError)
    ensures
        r is ConstraintViolation || r is QueryFailed,
{
    let (code, text) = error_details(&e);
    classify_statement_error(code, text)
}

/// Opens the pool of connections to the store file at `database_url`. A pool
/// that cannot be built is a `StoreUnavailable` failure.
pub fn init_pool(database_url: &str) -> (r: Result<DbPool, DbError>)
    ensures
        r matches Err(e) ==> e is StoreUnavailable,
{
    match pool_new(database_url) {
        Ok(pool) => Ok(pool),
        Err(msg) => Err(DbError::StoreUnavailable(msg)),
    }
}

/// Ensures the `users` table exists and seeds two example rows when the table
/// is empty. Bootstrap infrastructure: runs once at startup, before the pool
/// is handed to request handling.
pub fn init_database(pool: &DbPool) -> (r: Result<(), DbError>)
    ensures
        r matches Err(e) ==> (e is StoreUnavailable || e is ConstraintViolation
            || e is QueryFailed),
{
    let conn = match pool_get(pool) {
        Ok(conn) => conn,
        Err(msg) => {
            return Err(DbError::StoreUnavailable(msg));
        }
    };
    if let Err(e) = exec_create_users_table(&conn) {
        return Err(statement_error(e));
    }
    let count = match count_users(&conn) {
        Ok(n) => n,
        Err(e) => {
            return Err(statement_error(e));
        }
    };
    if count == 0 {
        if let Err(e) = insert_user_row(&conn, "张三", "zhangsan@example.com") {
            return Err(statement_error(e));
        }
        if let Err(e) = insert_user_row(&conn, "李四", "lisi@example.com") {
            return Err(statement_error(e));
        }
    }
    Ok(())
}

/// Returns all users ordered by ascending id; the empty vector — not an
/// error — when none exist.
pub fn get_all_users(pool: &DbPool) -> (r: Result<Vec<User>, DbError>)
    ensures
        r matches Ok(users) ==> sorted_by_id(views_of(users@)),
{
    let conn = match pool_get(pool) {
        Ok(conn) => conn,
        Err(msg) => {
            return Err(DbError::StoreUnavailable(msg));
        }
    };
    let rows = match select_all_users(&conn) {
        Ok(rows) => rows,
        Err(e) => {
            return Err(statement_error(e));
        }
    };
    let mut users: Vec<User> = Vec::new();
    let mut i: usize = 0;
    while i < rows.len()
        invariant
            i <= rows@.len(),
            users@.len() == i,
            forall|a: int, b: int| 0 <= a < b < rows@.len() ==> rows@[a].0 < rows@[b].0,
            forall|k: int| 0 <= k < i ==> #[trigger] users@[k].id == rows@[k].0,
        decreases rows@.len() - i,
    {
        let row = &rows[i];
        users.push(User { id: row.0, name: row.1.clone(), email: row.2.clone() });
        i += 1;
    }
    proof {
        assert forall|a: int, b: int| 0 <= a < b < views_of(users@).len()
            implies views_of(users@)[a].id < views_of(users@)[b].id by {
            assert(views_of(users@)[a].id == users@[a].id);
            assert(views_of(users@)[b].id == users@[b].id);
        }
    }
    Ok(users)
}

/// Returns the user with this id, or absence — not an error — when no row
/// carries it.
pub fn get_user_by_id(pool: &DbPool, user_id: i64) -> (r: Result<Option<User>, DbError>)
    ensures
        r matches Ok(Some(u)) ==> u.id == user_id,
{
    let conn = match pool_get(pool) {
        Ok(conn) => conn,
        Err(msg) => {
            return Err(DbError::StoreUnavailable(msg));
        }
    };
    match select_user_by_id(&conn, user_id) {
        Ok(Some(row)) => {
            let (rid, name, email) = row;
            Ok(Some(User { id: rid, name: name, email: email }))
        }
        Ok(None) => Ok(None),
        Err(e) => Err(statement_error(e)),
    }
}

/// Inserts a new row and returns the entity carrying the store-assigned id
/// and the given name and email. A duplicate email is a
/// `ConstraintViolation`; an exhausted pool is `StoreUnavailable`; any other
/// statement failure is `QueryFailed`.
pub fn create_user(pool: &DbPool, user: &CreateUser) -> (r: Result<User, DbError>)
    ensures
        r matches Ok(u) ==> u.name@ == user.name@ && u.email@ == user.email@,
{
    let conn = match pool_get(pool) {
        Ok(conn) => conn,
        Err(msg) => {
            return Err(DbError::StoreUnavailable(msg));
        }
    };
    if let Err(e) = insert_user_row(&conn, user.name.as_str(), user.email.as_str()) {
        return Err(statement_error(e));
    }
    let user_id = last_insert_id(&conn);
    Ok(User { id: user_id, name: user.name.clone(), email: user.email.clone() })
}

/// Removes the row with this id, returning whether a row was removed;
/// `false` — not an error — when none carries it.
pub fn delete_user(pool: &DbPool, user_id: i64) -> (r: Result<bool, DbError>)
    ensures
        r matches Err(e) ==> (e is StoreUnavailable || e is ConstraintViolation
            || e is QueryFailed),
{
    let conn = match pool_get(pool) {
        Ok(conn) => conn,
        Err(msg) => {
            return Err(DbError::StoreUnavailable(msg));
        }
    };
    match delete_user_row(&conn, user_id) {
        Ok(affected) => Ok(affected > 0),
        Err(e) => Err(statement_error(e)),
    }
}

/// Replaces name and email of the row with this id, returning the updated
/// entity, or absence — not an error — when no row carries the id. A new
/// email colliding with a different row is a `ConstraintViolation`.
pub fn update_user(pool: &DbPool, user_id: i64, user: &CreateUser) -> (r: Result<
    Option<User>,
    DbError,
>)
    ensures
        r matches Ok(Some(u)) ==> u.id == user_id && u.name@ == user.name@
            && u.email@ == user.email@,
{
    let conn = match pool_get(pool) {
        Ok(conn) => conn,
        Err(msg) => {
            return Err(DbError::StoreUnavailable(msg));
        }
    };
    match update_user_row(&conn, user.name.as_str(), user.email.as_str(), user_id) {
        Ok(affected) => {
            if affected > 0 {
                Ok(Some(User {
                    id: user_id,
                    name: user.name.clone(),
                    email: user.email.clone(),
                }))
            } else {
                Ok(None)
            }
        }
        Err(e) => Err(statement_error(e)),
    }
}

} // verus!
