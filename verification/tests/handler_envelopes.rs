//! Tests of the request-handling layer: the status code and envelope chosen
//! for each outcome, both on constructed outcomes and end to end against a
//! real store.

use user_api::db;
use user_api::errors::DbError;
use user_api::handlers;
use user_api::models::{CreateUser, User};

fn input(name: &str, email: &str) -> CreateUser {
    CreateUser { name: name.to_string(), email: email.to_string() }
}

#[test]
fn index_serves_the_descriptor() {
    let (status, info) = handlers::index();
    assert_eq!(status, 200);
    assert_eq!(info.message, "Rust Web API");
    assert_eq!(info.version, "1.0.0");
    assert_eq!(info.database, "SQLite");
}

#[test]
fn list_response_maps_failure_to_500_generic() {
    let (status, env) =
        handlers::list_users_response(Err(DbError::QueryFailed("raw detail".to_string())));
    assert_eq!(status, 500);
    assert!(!env.success);
    assert!(env.data.is_none());
    assert_eq!(env.message.as_deref(), Some("failed to list users"));
}

#[test]
fn list_response_maps_success_to_200_payload() {
    let users = vec![User { id: 1, name: "Ann".to_string(), email: "ann@x.com".to_string() }];
    let (status, env) = handlers::list_users_response(Ok(users));
    assert_eq!(status, 200);
    assert!(env.success);
    assert!(env.message.is_none());
    assert_eq!(env.data.unwrap()[0].name, "Ann");
}

#[test]
fn get_response_maps_absence_to_404() {
    let (status, env) = handlers::get_user_response(Ok(None));
    assert_eq!(status, 404);
    assert!(!env.success);
    assert!(env.data.is_none());
    assert_eq!(env.message.as_deref(), Some("user not found"));
}

#[test]
fn create_response_distinguishes_constraint_violation() {
    let (status, env) = handlers::create_user_response(Err(DbError::ConstraintViolation(
        "UNIQUE constraint failed: users.email".to_string(),
    )));
    assert_eq!(status, 400);
    assert!(!env.success);
    assert_eq!(env.message.as_deref(), Some("email already exists"));

    let (status, env) =
        handlers::create_user_response(Err(DbError::QueryFailed("raw detail".to_string())));
    assert_eq!(status, 400);
    assert_eq!(env.message.as_deref(), Some("failed to create user"));
}

#[test]
fn update_response_maps_each_outcome() {
    let u = User { id: 7, name: "Ann".to_string(), email: "ann@x.com".to_string() };
    let (status, env) = handlers::update_user_response(Ok(Some(u)));
    assert_eq!(status, 200);
    assert!(env.success);
    assert_eq!(env.data.unwrap().id, 7);

    let (status, env) = handlers::update_user_response(Ok(None));
    assert_eq!(status, 404);
    assert_eq!(env.message.as_deref(), Some("user not found"));

    let (status, env) = handlers::update_user_response(Err(DbError::ConstraintViolation(
        "x".to_string(),
    )));
    assert_eq!(status, 400);
    assert_eq!(env.message.as_deref(), Some("email already exists"));

    let (status, env) =
        handlers::update_user_response(Err(DbError::StoreUnavailable("x".to_string())));
    assert_eq!(status, 400);
    assert_eq!(env.message.as_deref(), Some("failed to update user"));
}

#[test]
fn delete_response_maps_each_outcome() {
    let (status, env) = handlers::delete_user_response(Ok(true));
    assert_eq!(status, 200);
    assert!(env.success);
    assert_eq!(env.data.as_deref(), Some("user deleted"));

    let (status, env) = handlers::delete_user_response(Ok(false));
    assert_eq!(status, 404);
    assert_eq!(env.message.as_deref(), Some("user not found"));

    let (status, env) =
        handlers::delete_user_response(Err(DbError::QueryFailed("x".to_string())));
    assert_eq!(status, 500);
    assert_eq!(env.message.as_deref(), Some("failed to delete user"));
}

#[test]
fn end_to_end_create_get_and_conflict() {
    let pool = db::init_pool("file:handlers_e2e?mode=memory&cache=shared").unwrap();
    db::init_database(&pool).unwrap();

    let (status, env) = handlers::create_new_user(&pool, &input("Ann", "ann@x.com"));
    assert_eq!(status, 201);
    assert!(env.success);
    let created = env.data.unwrap();
    assert_eq!(created.name, "Ann");
    assert_eq!(created.email, "ann@x.com");

    let (status, env) = handlers::get_user(&pool, created.id);
    assert_eq!(status, 200);
    assert!(env.success);
    let fetched = env.data.unwrap();
    assert_eq!(fetched.id, created.id);
    assert_eq!(fetched.name, "Ann");
    assert_eq!(fetched.email, "ann@x.com");

    let (status, env) = handlers::get_user(&pool, 9999999);
    assert_eq!(status, 404);
    assert!(!env.success);
    assert!(env.data.is_none());
    assert_eq!(env.message.as_deref(), Some("user not found"));

    let (status, env) = handlers::create_new_user(&pool, &input("Ann Again", "ann@x.com"));
    assert_eq!(status, 400);
    assert!(!env.success);
    assert_eq!(env.message.as_deref(), Some("email already exists"));
}

#[test]
fn end_to_end_list_update_delete() {
    let pool = db::init_pool("file:handlers_crud?mode=memory&cache=shared").unwrap();
    db::init_database(&pool).unwrap();

    let (status, env) = handlers::get_users(&pool);
    assert_eq!(status, 200);
    let users = env.data.unwrap();
    assert_eq!(users.len(), 2);
    assert!(users[0].id < users[1].id);

    let (status, env) = handlers::update_existing_user(&pool, users[0].id, &input("Zhang", "zhang@example.com"));
    assert_eq!(status, 200);
    let updated = env.data.unwrap();
    assert_eq!(updated.id, users[0].id);
    assert_eq!(updated.name, "Zhang");

    let (status, env) = handlers::update_existing_user(&pool, 9999999, &input("Zed", "zed@x.com"));
    assert_eq!(status, 404);
    assert_eq!(env.message.as_deref(), Some("user not found"));

    let (status, env) = handlers::delete_existing_user(&pool, users[0].id);
    assert_eq!(status, 200);
    assert_eq!(env.data.as_deref(), Some("user deleted"));

    let (status, env) = handlers::delete_existing_user(&pool, users[0].id);
    assert_eq!(status, 404);
    assert!(!env.success);
}
