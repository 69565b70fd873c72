//! Tests of the in-memory users table: creation, lookup, update, deletion,
//! uniqueness of emails, and listing order.

use user_api::errors::DbError;
use user_api::models::CreateUser;
use user_api::store::UserTable;

fn input(name: &str, email: &str) -> CreateUser {
    CreateUser { name: name.to_string(), email: email.to_string() }
}

#[test]
fn new_table_is_empty() {
    let t = UserTable::new();
    assert_eq!(t.list_users().len(), 0);
    assert_eq!(t.next_id, 1);
}

#[test]
fn get_on_empty_table_is_absent() {
    let t = UserTable::new();
    assert!(t.get_user(1).is_none());
}

#[test]
fn create_assigns_ascending_ids() {
    let mut t = UserTable::new();
    let a = t.create_user(&input("Ann", "ann@x.com")).unwrap();
    let b = t.create_user(&input("Bob", "bob@x.com")).unwrap();
    assert_eq!(a.id, 1);
    assert_eq!(b.id, 2);
    assert_eq!(t.next_id, 3);
}

#[test]
fn create_then_get_round_trip() {
    let mut t = UserTable::new();
    let created = t.create_user(&input("Ann", "ann@x.com")).unwrap();
    let fetched = t.get_user(created.id).unwrap();
    assert_eq!(fetched.id, created.id);
    assert_eq!(fetched.name, "Ann");
    assert_eq!(fetched.email, "ann@x.com");
}

#[test]
fn duplicate_email_is_rejected_and_adds_no_row() {
    let mut t = UserTable::new();
    t.create_user(&input("Ann", "ann@x.com")).unwrap();
    let second = t.create_user(&input("Another Ann", "ann@x.com"));
    assert!(matches!(second, Err(DbError::ConstraintViolation(_))));
    assert_eq!(t.list_users().len(), 1);
    assert_eq!(t.next_id, 2);
}

#[test]
fn delete_twice_first_true_then_false() {
    let mut t = UserTable::new();
    let u = t.create_user(&input("Ann", "ann@x.com")).unwrap();
    assert!(t.delete_user(u.id));
    assert!(!t.delete_user(u.id));
    assert!(t.get_user(u.id).is_none());
}

#[test]
fn deleted_id_is_never_reassigned() {
    let mut t = UserTable::new();
    let a = t.create_user(&input("Ann", "ann@x.com")).unwrap();
    assert!(t.delete_user(a.id));
    let b = t.create_user(&input("Bob", "bob@x.com")).unwrap();
    assert_ne!(b.id, a.id);
    assert_eq!(b.id, 2);
}

#[test]
fn update_missing_id_returns_absence_and_alters_nothing() {
    let mut t = UserTable::new();
    t.create_user(&input("Ann", "ann@x.com")).unwrap();
    let r = t.update_user(42, &input("Zed", "zed@x.com")).unwrap();
    assert!(r.is_none());
    let rows = t.list_users();
    assert_eq!(rows.len(), 1);
    assert_eq!(rows[0].name, "Ann");
    assert_eq!(rows[0].email, "ann@x.com");
}

#[test]
fn update_replaces_both_fields_and_keeps_id() {
    let mut t = UserTable::new();
    let u = t.create_user(&input("Ann", "ann@x.com")).unwrap();
    let updated = t.update_user(u.id, &input("Anna", "anna@x.com")).unwrap().unwrap();
    assert_eq!(updated.id, u.id);
    assert_eq!(updated.name, "Anna");
    assert_eq!(updated.email, "anna@x.com");
    let fetched = t.get_user(u.id).unwrap();
    assert_eq!(fetched.name, "Anna");
    assert_eq!(fetched.email, "anna@x.com");
}

#[test]
fn update_to_email_of_other_row_is_rejected() {
    let mut t = UserTable::new();
    t.create_user(&input("Ann", "ann@x.com")).unwrap();
    let b = t.create_user(&input("Bob", "bob@x.com")).unwrap();
    let r = t.update_user(b.id, &input("Bob", "ann@x.com"));
    assert!(matches!(r, Err(DbError::ConstraintViolation(_))));
    let fetched = t.get_user(b.id).unwrap();
    assert_eq!(fetched.email, "bob@x.com");
}

#[test]
fn update_keeping_own_email_succeeds() {
    let mut t = UserTable::new();
    let u = t.create_user(&input("Ann", "ann@x.com")).unwrap();
    let updated = t.update_user(u.id, &input("Anna", "ann@x.com")).unwrap().unwrap();
    assert_eq!(updated.name, "Anna");
    assert_eq!(updated.email, "ann@x.com");
}

#[test]
fn listing_is_ascending_by_id_after_creates_in_order() {
    let mut t = UserTable::new();
    t.create_user(&input("Ann", "a@x.com")).unwrap();
    t.create_user(&input("Bob", "b@x.com")).unwrap();
    t.create_user(&input("Cid", "c@x.com")).unwrap();
    let rows = t.list_users();
    assert_eq!(rows.len(), 3);
    assert!(rows[0].id < rows[1].id && rows[1].id < rows[2].id);
    assert_eq!(rows[0].name, "Ann");
    assert_eq!(rows[1].name, "Bob");
    assert_eq!(rows[2].name, "Cid");
}

#[test]
fn listing_stays_ascending_under_mixed_operations() {
    let mut t = UserTable::new();
    t.create_user(&input("Ann", "a@x.com")).unwrap();
    let b = t.create_user(&input("Bob", "b@x.com")).unwrap();
    t.create_user(&input("Cid", "c@x.com")).unwrap();
    t.delete_user(b.id);
    t.create_user(&input("Dee", "d@x.com")).unwrap();
    t.update_user(1, &input("Anne", "a2@x.com")).unwrap();
    let rows = t.list_users();
    assert_eq!(rows.len(), 3);
    for w in rows.windows(2) {
        assert!(w[0].id < w[1].id);
    }
}
