//! The request-handling layer: binds each operation's outcome to an HTTP
//! status code and a uniform response envelope. Success carries the payload,
//! absence maps to 404, a violated uniqueness rule to 400 with an
//! "email already exists" message, and infrastructure failures to a generic
//! message — the driver's detail is for the log, never echoed to the client.

use vstd::prelude::*;

use crate::db;
use crate::db::DbPool;
use crate::errors::DbError;
use crate::models::{ApiResponse, CreateUser, ServiceInfo, User};
use crate::store::{sorted_by_id, views_of};

verus! {

pub const STATUS_OK: u16 = 200;

pub const STATUS_CREATED: u16 = 201;

pub const STATUS_BAD_REQUEST: u16 = 400;

pub const STATUS_NOT_FOUND: u16 = 404;

pub const STATUS_INTERNAL_ERROR: u16 = 500;

/// The static service descriptor, served with status 200 at the root path.
pub fn index() -> (r: (u16, ServiceInfo))
    ensures
        r.0 == STATUS_OK,
        r.1.message@ == "Rust Web API"@,
        r.1.version@ == "1.0.0"@,
        r.1.database@ == "SQLite"@,
{
    let info = ServiceInfo {
        message: String::from_str("Rust Web API"),
        version: String::from_str("1.0.0"),
        database: String::from_str("SQLite"),
    };
    (STATUS_OK, info)
}

/// Maps a list outcome: 200 with the users on success, 500 with a generic
/// message on any store failure.
pub fn list_users_response(outcome: Result<Vec<User>, DbError>) -> (r: (
    u16,
    ApiResponse<Vec<User>>,
))
    ensures
        r.1.wf(),
        outcome matches Ok(users) ==> r.0 == STATUS_OK && r.1.success && r.1.data == Some(users),
        outcome is Err ==> r.0 == STATUS_INTERNAL_ERROR && !r.1.success
            && (r.1.message matches Some(m) && m@ == "failed to list users"@),
{
    match outcome {
        Ok(users) => (STATUS_OK, ApiResponse::success(users)),
        Err(_) => (
            STATUS_INTERNAL_ERROR,
            ApiResponse::error(String::from_str("failed to list users")),
        ),
    }
}

/// Maps a lookup outcome: 200 with the user, 404 when no row carries the id,
/// 500 with a generic message on a store failure.
pub fn get_user_response(outcome: Result<Option<User>, DbError>) -> (r: (u16, ApiResponse<User>))
    ensures
        r.1.wf(),
        outcome matches Ok(Some(u)) ==> r.0 == STATUS_OK && r.1.success && r.1.data == Some(u),
        outcome matches Ok(o) && o is None ==> r.0 == STATUS_NOT_FOUND && !r.1.success
            && (r.1.message matches Some(m) && m@ == "user not found"@),
        outcome is Err ==> r.0 == STATUS_INTERNAL_ERROR && !r.1.success
            && (r.1.message matches Some(m) && m@ == "failed to get user"@),
{
    match outcome {
        Ok(Some(u)) => (STATUS_OK, ApiResponse::success(u)),
        Ok(None) => (STATUS_NOT_FOUND, ApiResponse::error(String::from_str("user not found"))),
        Err(_) => (
            STATUS_INTERNAL_ERROR,
            ApiResponse::error(String::from_str("failed to get user")),
        ),
    }
}

/// Maps a create outcome: 201 with the created user; 400 with
/// "email already exists" exactly on a constraint violation, 400 with a
/// generic message on any other failure.
pub fn create_user_response(outcome: Result<User, DbError>) -> (r: (u16, ApiResponse<User>))
    ensures
        r.1.wf(),
        outcome matches Ok(u) ==> r.0 == STATUS_CREATED && r.1.success && r.1.data == Some(u),
        outcome is Err ==> r.0 == STATUS_BAD_REQUEST && !r.1.success,
        outcome matches Err(e) && e is ConstraintViolation ==> (r.1.message matches Some(m)
            && m@ == "email already exists"@),
        outcome matches Err(e) && !(e is ConstraintViolation) ==> (r.1.message matches Some(m)
            && m@ == "failed to create user"@),
{
    match outcome {
        Ok(u) => (STATUS_CREATED, ApiResponse::success(u)),
        Err(e) => {
            let msg = match e {
                DbError::ConstraintViolation(_) => String::from_str("email already exists"),
                _ => String::from_str("failed to create user"),
            };
            (STATUS_BAD_REQUEST, ApiResponse::error(msg))
        }
    }
}

/// Maps an update outcome: 200 with the updated user, 404 when no row
/// carries the id, 400 with "email already exists" exactly on a constraint
/// violation, 400 with a generic message on any other failure.
pub fn update_user_response(outcome: Result<Option<User>, DbError>) -> (r: (
    u16,
    ApiResponse<User>,
))
    ensures
        r.1.wf(),
        outcome matches Ok(Some(u)) ==> r.0 == STATUS_OK && r.1.success && r.1.data == Some(u),
        outcome matches Ok(o) && o is None ==> r.0 == STATUS_NOT_FOUND && !r.1.success
            && (r.1.message matches Some(m) && m@ == "user not found"@),
        outcome is Err ==> r.0 == STATUS_BAD_REQUEST && !r.1.success,
        outcome matches Err(e) && e is ConstraintViolation ==> (r.1.message matches Some(m)
            && m@ == "email already exists"@),
        outcome matches Err(e) && !(e is ConstraintViolation) ==> (r.1.message matches Some(m)
            && m@ == "failed to update user"@),
{
    match outcome {
        Ok(Some(u)) => (STATUS_OK, ApiResponse::success(u)),
        Ok(None) => (STATUS_NOT_FOUND, ApiResponse::error(String::from_str("user not found"))),
        Err(e) => {
            let msg = match e {
                DbError::ConstraintViolation(_) => String::from_str("email already exists"),
                _ => String::from_str("failed to update user"),
            };
            (STATUS_BAD_REQUEST, ApiResponse::error(msg))
        }
    }
}

/// Maps a delete outcome: 200 with a confirmation when a row was removed,
/// 404 when none carried the id, 500 with a generic message on a store
/// failure.
pub fn delete_user_response(outcome: Result<bool, DbError>) -> (r: (u16, ApiResponse<String>))
    ensures
        r.1.wf(),
        outcome matches Ok(b) && b ==> r.0 == STATUS_OK && r.1.success
            && (r.1.data matches Some(m) && m@ == "user deleted"@),
        outcome matches Ok(b) && !b ==> r.0 == STATUS_NOT_FOUND && !r.1.success
            && (r.1.message matches Some(m) && m@ == "user not found"@),
        outcome is Err ==> r.0 == STATUS_INTERNAL_ERROR && !r.1.success
            && (r.1.message matches Some(m) && m@ == "failed to delete user"@),
{
    match outcome {
        Ok(true) => (STATUS_OK, ApiResponse::success(String::from_str("user deleted"))),
        Ok(false) => (STATUS_NOT_FOUND, ApiResponse::error(String::from_str("user not found"))),
        Err(_) => (
            STATUS_INTERNAL_ERROR,
            ApiResponse::error(String::from_str("failed to delete user")),
        ),
    }
}

/// Handles listing the user collection: whatever the store reports, the
/// envelope is well-formed, the status is 200 exactly on success, and a
/// carried payload lists the rows in ascending id order.
pub fn get_users(pool: &DbPool) -> (r: (u16, ApiResponse<Vec<User>>))
    ensures
        r.1.wf(),
        r.0 == STATUS_OK || r.0 == STATUS_INTERNAL_ERROR,
        r.1.success <==> r.0 == STATUS_OK,
        r.1.data matches Some(users) ==> sorted_by_id(views_of(users@)),
{
    list_users_response(db::get_all_users(pool))
}

/// Handles a lookup by id: the envelope is well-formed, the status is 200
/// exactly on success, and a carried payload is a user with the requested id.
pub fn get_user(pool: &DbPool, user_id: i64) -> (r: (u16, ApiResponse<User>))
    ensures
        r.1.wf(),
        r.0 == STATUS_OK || r.0 == STATUS_NOT_FOUND || r.0 == STATUS_INTERNAL_ERROR,
        r.1.success <==> r.0 == STATUS_OK,
        r.1.data matches Some(u) ==> u.id == user_id,
{
    get_user_response(db::get_user_by_id(pool, user_id))
}

/// Handles a create request: the envelope is well-formed, the status is 201
/// exactly on success, and a carried payload echoes the requested name and
/// email under the store-assigned id.
pub fn create_new_user(pool: &DbPool, user: &CreateUser) -> (r: (u16, ApiResponse<User>))
    ensures
        r.1.wf(),
        r.0 == STATUS_CREATED || r.0 == STATUS_BAD_REQUEST,
        r.1.success <==> r.0 == STATUS_CREATED,
        r.1.data matches Some(u) ==> u.name@ == user.name@ && u.email@ == user.email@,
{
    create_user_response(db::create_user(pool, user))
}

/// Handles an update request: the envelope is well-formed, the status is 200
/// exactly on success, and a carried payload is the requested id with the
/// requested name and email.
pub fn update_existing_user(pool: &DbPool, user_id: i64, user: &CreateUser) -> (r: (
    u16,
    ApiResponse<User>,
))
    ensures
        r.1.wf(),
        r.0 == STATUS_OK || r.0 == STATUS_NOT_FOUND || r.0 == STATUS_BAD_REQUEST,
        r.1.success <==> r.0 == STATUS_OK,
        r.1.data matches Some(u) ==> u.id == user_id && u.name@ == user.name@
            && u.email@ == user.email@,
{
    update_user_response(db::update_user(pool, user_id, user))
}

/// Handles a delete request: the envelope is well-formed and the status is
/// 200 exactly on success, with 404 reserved for the absent row.
pub fn delete_existing_user(pool: &DbPool, user_id: i64) -> (r: (u16, ApiResponse<String>))
    ensures
        r.1.wf(),
        r.0 == STATUS_OK || r.0 == STATUS_NOT_FOUND || r.0 == STATUS_INTERNAL_ERROR,
        r.1.success <==> r.0 == STATUS_OK,
{
    delete_user_response(db::delete_user(pool, user_id))
}

} // verus!
