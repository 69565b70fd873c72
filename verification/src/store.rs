//! An in-memory users table with the exact operation semantics the service
//! relies on: ids assigned in ascending order and never reused, emails unique
//! across rows, absence reported as a normal return value. The laws relating
//! the operations are stated and proved here as well.

use vstd::prelude::*;

use crate::errors::DbError;
use crate::models::{CreateUser, User, UserV};

verus! {

/// The rows of a table, as mathematical values.
pub open spec fn views_of(rows: Seq<User>) -> Seq<UserV> {
    rows.map_values(|u: User| u@)
}

/// Rows are strictly ascending by id.
pub open spec fn sorted_by_id(rows: Seq<UserV>) -> bool {
    forall|i: int, j: int| 0 <= i < j < rows.len() ==> rows[i].id < rows[j].id
}

/// Every id is positive and below the next id the table will assign.
pub open spec fn ids_in_range(rows: Seq<UserV>, next_id: i64) -> bool {
    forall|i: int| 0 <= i < rows.len() ==> 1 <= #[trigger] rows[i].id < next_id
}

/// No two rows share an email.
pub open spec fn distinct_emails(rows: Seq<UserV>) -> bool {
    forall|i: int, j: int| 0 <= i < j < rows.len() ==> rows[i].email != rows[j].email
}

/// Well-formedness of a table state.
pub open spec fn table_wf(rows: Seq<UserV>, next_id: i64) -> bool {
    &&& 1 <= next_id
    &&& sorted_by_id(rows)
    &&& ids_in_range(rows, next_id)
    &&& distinct_emails(rows)
}

/// Some row carries this id.
pub open spec fn has_id(rows: Seq<UserV>, id: i64) -> bool {
    exists|i: int| 0 <= i < rows.len() && #[trigger] rows[i].id == id
}

/// Some row carries this email.
pub open spec fn has_email(rows: Seq<UserV>, email: Seq<char>) -> bool {
    exists|i: int| 0 <= i < rows.len() && #[trigger] rows[i].email == email
}

/// Some row other than the one with id `id` carries this email.
pub open spec fn email_on_other_row(rows: Seq<UserV>, email: Seq<char>, id: i64) -> bool {
    exists|i: int|
        0 <= i < rows.len() && #[trigger] rows[i].email == email && rows[i].id != id
}

/// A users table: rows ascending by id, emails unique, `next_id` the id the
/// next successful create will assign (never reused after a delete).
pub struct UserTable {
    pub users: Vec<User>,
    pub next_id: i64,
}

impl UserTable {
    /// The rows as mathematical values.
    pub open spec fn rows(self) -> Seq<UserV> {
        views_of(self.users@)
    }

    pub open spec fn wf(self) -> bool {
        table_wf(self.rows(), self.next_id)
    }

    /// An empty table; the first created row will get id 1.
    pub fn new() -> (t: UserTable)
        ensures
            t.wf(),
            t.rows().len() == 0,
            t.next_id == 1,
    {
        let t = UserTable { users: Vec::new(), next_id: 1 };
        proof {
            assert(t.rows().len() == 0);
        }
        t
    }

    /// All rows, in table order: ascending by id.
    pub fn list_users(&self) -> (r: Vec<User>)
        ensures
            r@.len() == self.users@.len(),
            views_of(r@) == self.rows(),
            self.wf() ==> sorted_by_id(views_of(r@)),
    {
        let mut out: Vec<User> = Vec::new();
        let mut i: usize = 0;
        while i < self.users.len()
            invariant
                i <= self.users@.len(),
                out@ =~= self.users@.subrange(0, i as int),
            decreases self.users@.len() - i,
        {
            out.push(self.users[i].clone());
            i += 1;
        }
        proof {
            assert(out@ =~= self.users@);
            assert(views_of(out@) =~= self.rows());
        }
        out
    }

    /// Index of the row with this id, or absence when no row carries it.
    fn find_by_id(&self, id: i64) -> (r: Option<usize>)
        ensures
            r matches Some(i) ==> i < self.users@.len() && self.rows()[i as int].id == id,
            r is None ==> !has_id(self.rows(), id),
    {
        let n = self.users.len();
        let mut i: usize = 0;
        while i < n
            invariant
                n == self.users@.len(),
                i <= n,
                forall|k: int| 0 <= k < i ==> #[trigger] self.rows()[k].id != id,
            decreases n - i,
        {
            if self.users[i].id == id {
                proof {
                    assert(self.rows()[i as int].id == id);
                }
                return Some(i);
            }
            proof {
                assert(self.rows()[i as int].id != id);
            }
            i += 1;
        }
        proof {
            assert(!has_id(self.rows(), id));
        }
        None
    }

    /// Whether some row carries this email.
    fn email_taken(&self, email: &String) -> (r: bool)
        ensures
            r == has_email(self.rows(), email@),
    {
        let n = self.users.len();
        let mut i: usize = 0;
        while i < n
            invariant
                n == self.users@.len(),
                i <= n,
                forall|k: int| 0 <= k < i ==> #[trigger] self.rows()[k].email != email@,
            decreases n - i,
        {
            if self.users[i].email == *email {
                proof {
                    assert(self.rows()[i as int].email == email@);
                }
                return true;
            }
            proof {
                assert(self.rows()[i as int].email != email@);
            }
            i += 1;
        }
        proof {
            assert(!has_email(self.rows(), email@));
        }
        false
    }

    /// Whether some row other than the one with id `id` carries this email.
    fn email_on_other(&self, email: &String, id: i64) -> (r: bool)
        ensures
            r == email_on_other_row(self.rows(), email@, id),
    {
        let n = self.users.len();
        let mut i: usize = 0;
        while i < n
            invariant
                n == self.users@.len(),
                i <= n,
                forall|k: int|
                    0 <= k < i && #[trigger] self.rows()[k].email == email@
                        ==> self.rows()[k].id == id,
            decreases n - i,
        {
            if self.users[i].id != id && self.users[i].email == *email {
                proof {
                    assert(self.rows()[i as int].email == email@
                        && self.rows()[i as int].id != id);
                }
                return true;
            }
            proof {
                assert(self.rows()[i as int].email == email@
                    ==> self.rows()[i as int].id == id);
            }
            i += 1;
        }
        proof {
            assert(!email_on_other_row(self.rows(), email@, id));
        }
        false
    }

    /// The row with this id, or absence when no row carries it.
    pub fn get_user(&self, id: i64) -> (r: Option<User>)
        requires
            self.wf(),
        ensures
            r is Some <==> has_id(self.rows(), id),
            r matches Some(u) ==> u@.id == id && self.rows().contains(u@),
    {
        match self.find_by_id(id) {
            Some(i) => {
                let u = self.users[i].clone();
                proof {
                    assert(self.rows()[i as int] == u@);
                    assert(self.rows().contains(u@));
                    assert(has_id(self.rows(), id));
                }
                Some(u)
            }
            None => None,
        }
    }

    /// Inserts a new row with a fresh id. Fails with `ConstraintViolation`,
    /// leaving the table unchanged, exactly when the email is already taken.
    pub fn create_user(&mut self, input: &CreateUser) -> (r: Result<User, DbError>)
        requires
            old(self).wf(),
            old(self).next_id < i64::MAX,
        ensures
            final(self).wf(),
            has_email(old(self).rows(), input.email@) ==> {
                &&& r matches Err(e) && e is ConstraintViolation
                &&& *final(self) == *old(self)
            },
            !has_email(old(self).rows(), input.email@) ==> {
                &&& r matches Ok(u)
                    && u@ == (UserV { id: old(self).next_id, name: input.name@, email: input.email@ })
                    && final(self).rows() == old(self).rows().push(u@)
                &&& final(self).next_id == old(self).next_id + 1
            },
    {
        if self.email_taken(&input.email) {
            return Err(DbError::ConstraintViolation(String::from_str("email already exists")));
        }
        let u = User { id: self.next_id, name: input.name.clone(), email: input.email.clone() };
        let ghost old_rows = self.rows();
        let ghost old_next = self.next_id;
        self.users.push(u.clone());
        self.next_id = self.next_id + 1;
        proof {
            assert(self.rows() =~= old_rows.push(u@));
            assert forall|a: int, b: int| 0 <= a < b < self.rows().len()
                implies self.rows()[a].id < self.rows()[b].id by {
                if b < old_rows.len() {
                } else {
                    assert(self.rows()[b] == u@);
                }
            }
            assert forall|a: int, b: int| 0 <= a < b < self.rows().len()
                implies self.rows()[a].email != self.rows()[b].email by {
                if b == old_rows.len() {
                    assert(!has_email(old_rows, input.email@));
                    assert(self.rows()[a] == old_rows[a]);
                }
            }
        }
        Ok(u)
    }

    /// Replaces name and email of the row with this id. Absence of the row is
    /// a normal `Ok(None)` outcome and leaves the table unchanged. Fails with
    /// `ConstraintViolation`, leaving the table unchanged, exactly when the
    /// row exists and the new email is taken by a different row.
    pub fn update_user(&mut self, id: i64, input: &CreateUser) -> (r: Result<Option<User>, DbError>)
        requires
            old(self).wf(),
        ensures
            final(self).wf(),
            final(self).next_id == old(self).next_id,
            !has_id(old(self).rows(), id) ==> {
                &&& r matches Ok(o) && o is None
                &&& *final(self) == *old(self)
            },
            has_id(old(self).rows(), id)
                && email_on_other_row(old(self).rows(), input.email@, id) ==> {
                &&& r matches Err(e) && e is ConstraintViolation
                &&& *final(self) == *old(self)
            },
            has_id(old(self).rows(), id)
                && !email_on_other_row(old(self).rows(), input.email@, id) ==> {
                &&& r matches Ok(o)
                    && o matches Some(u)
                    && u@ == (UserV { id: id, name: input.name@, email: input.email@ })
                &&& exists|k: int|
                    0 <= k < old(self).rows().len()
                        && #[trigger] old(self).rows()[k].id == id
                        && final(self).rows() == old(self).rows().update(k, (UserV { id: id, name: input.name@, email: input.email@ }))
            },
    {
        let idx = match self.find_by_id(id) {
            None => {
                return Ok(None);
            }
            Some(idx) => idx,
        };
        proof {
            assert(has_id(self.rows(), id));
        }
        if self.email_on_other(&input.email, id) {
            return Err(DbError::ConstraintViolation(String::from_str("email already exists")));
        }
        let u = User { id: id, name: input.name.clone(), email: input.email.clone() };
        let ghost old_rows = self.rows();
        let _ = self.users.remove(idx);
        self.users.insert(idx, u.clone());
        proof {
            let k = idx as int;
            vstd::seq_lib::lemma_update_is_remove_insert(old(self).users@, k, u);
            assert(self.users@ =~= old(self).users@.update(k, u));
            assert(self.rows() =~= old_rows.update(k, u@));
            assert forall|a: int, b: int| 0 <= a < b < self.rows().len()
                implies self.rows()[a].id < self.rows()[b].id by {
                assert(old_rows[a].id < old_rows[b].id);
                if a != k {
                    assert(self.rows()[a] == old_rows[a]);
                }
                if b != k {
                    assert(self.rows()[b] == old_rows[b]);
                }
            }
            assert forall|a: int, b: int| 0 <= a < b < self.rows().len()
                implies self.rows()[a].email != self.rows()[b].email by {
                if a != k && b != k {
                    assert(self.rows()[a] == old_rows[a]);
                    assert(self.rows()[b] == old_rows[b]);
                } else if a == k {
                    assert(self.rows()[b] == old_rows[b]);
                    assert(self.rows()[a].email == input.email@);
                } else {
                    assert(self.rows()[a] == old_rows[a]);
                    assert(self.rows()[b].email == input.email@);
                }
            }
            assert forall|a: int| 0 <= a < self.rows().len()
                implies 1 <= #[trigger] self.rows()[a].id < self.next_id by {
                if a != k {
                    assert(self.rows()[a] == old_rows[a]);
                } else {
                    assert(self.rows()[a].id == old_rows[k].id);
                }
            }
        }
        Ok(Some(u))
    }

    /// Removes the row with this id. Returns whether a row was removed;
    /// absence is the normal `false` outcome and leaves the table unchanged.
    /// The id of a removed row is never assigned again.
    pub fn delete_user(&mut self, id: i64) -> (r: bool)
        requires
            old(self).wf(),
        ensures
            final(self).wf(),
            final(self).next_id == old(self).next_id,
            r == has_id(old(self).rows(), id),
            !r ==> *final(self) == *old(self),
            r ==> exists|k: int|
                0 <= k < old(self).rows().len()
                    && #[trigger] old(self).rows()[k].id == id
                    && final(self).rows() == old(self).rows().remove(k),
    {
        let idx = match self.find_by_id(id) {
            None => {
                return false;
            }
            Some(idx) => idx,
        };
        proof {
            assert(has_id(self.rows(), id));
        }
        let ghost old_rows = self.rows();
        let _ = self.users.remove(idx);
        proof {
            let k = idx as int;
            assert(self.rows() =~= old_rows.remove(k));
            old_rows.remove_ensures(k);
            assert forall|a: int, b: int| 0 <= a < b < self.rows().len()
                implies self.rows()[a].id < self.rows()[b].id by {}
            assert forall|a: int, b: int| 0 <= a < b < self.rows().len()
                implies self.rows()[a].email != self.rows()[b].email by {}
            assert forall|a: int| 0 <= a < self.rows().len()
                implies 1 <= #[trigger] self.rows()[a].id < self.next_id by {}
        }
        true
    }
}

/// Law: in a well-formed table no two rows share an id, so a row is pinned
/// down by its id alone.
pub proof fn lemma_ids_distinct(rows: Seq<UserV>, next_id: i64, a: int, b: int)
    requires
        table_wf(rows, next_id),
        0 <= a < rows.len(),
        0 <= b < rows.len(),
        rows[a].id == rows[b].id,
    ensures
        a == b,
{
}

/// Law: round trip of create and lookup. A create on a well-formed table
/// appends a row carrying the fresh id, and any row of the new table that
/// carries that id is that very row: a lookup for the returned id yields the
/// created name and email.
pub proof fn lemma_create_then_get(rows: Seq<UserV>, next_id: i64, u: UserV, v: UserV)
    requires
        table_wf(rows, next_id),
        u.id == next_id,
        rows.push(u).contains(v),
        v.id == u.id,
    ensures
        v == u,
{
    let k = choose|k: int| 0 <= k < rows.push(u).len() && rows.push(u)[k] == v;
    if k < rows.len() {
        assert(rows[k].id < next_id);
    }
}

/// Law: deleting twice. Removing the row that carries an id leaves a table
/// in which no row carries it, so a second delete of the same id returns
/// `false`.
pub proof fn lemma_delete_then_absent(rows: Seq<UserV>, next_id: i64, id: i64, k: int)
    requires
        table_wf(rows, next_id),
        0 <= k < rows.len(),
        rows[k].id == id,
    ensures
        !has_id(rows.remove(k), id),
{
    rows.remove_ensures(k);
    assert forall|j: int| 0 <= j < rows.remove(k).len()
        implies #[trigger] rows.remove(k)[j].id != id by {
        if j < k {
            assert(rows.remove(k)[j] == rows[j]);
            if rows[j].id == id {
                lemma_ids_distinct(rows, next_id, j, k);
            }
        } else {
            assert(rows.remove(k)[j] == rows[j + 1]);
            if rows[j + 1].id == id {
                lemma_ids_distinct(rows, next_id, j + 1, k);
            }
        }
    }
}

/// Law: uniqueness of emails. After a create appends a row, its email is
/// taken, so a second create with the same email must fail with a
/// constraint violation and add no row.
pub proof fn lemma_created_email_taken(rows: Seq<UserV>, u: UserV)
    ensures
        has_email(rows.push(u), u.email),
{
    assert(rows.push(u)[rows.len() as int].email == u.email);
}

/// Law: listing order. A create appends a row whose id exceeds every id
/// already in a well-formed table, so rows stay strictly ascending by id:
/// users created in some order are listed in that order, whatever other
/// operations run in between.
pub proof fn lemma_create_keeps_order(rows: Seq<UserV>, next_id: i64, u: UserV)
    requires
        table_wf(rows, next_id),
        u.id >= next_id,
    ensures
        sorted_by_id(rows.push(u)),
{
    assert forall|a: int, b: int| 0 <= a < b < rows.push(u).len()
        implies rows.push(u)[a].id < rows.push(u)[b].id by {
        if b < rows.len() {
        } else {
            assert(rows.push(u)[b] == u);
            assert(rows[a].id < next_id);
        }
    }
}

} // verus!
