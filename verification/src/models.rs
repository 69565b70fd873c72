//! The data model: the persisted `User` entity, the transient create/update
//! request, the uniform response envelope, and the service descriptor.

use vstd::prelude::*;

verus! {

/// Mathematical value of a user row: the surrogate key together with the
/// character sequences of the two text fields.
pub ghost struct UserV {
    pub id: i64,
    pub name: Seq<char>,
    pub email: Seq<char>,
}

/// A persisted user. `id` is assigned by the store on creation and is unique;
/// `email` is unique across all persisted users.
pub struct User {
    pub id: i64,
    pub name: String,
    pub email: String,
}

impl View for User {
    type V = UserV;

    open spec fn view(&self) -> UserV {
        UserV { id: self.id, name: self.name@, email: self.email@ }
    }
}

impl Clone for User {
    fn clone(&self) -> (res: Self)
        ensures
            res == *self,
    {
        User { id: self.id, name: self.name.clone(), email: self.email.clone() }
    }
}

/// Input for both create and update: the two text fields, with no `id`
/// (creation lets the store assign one; update carries the id separately).
pub struct CreateUser {
    pub name: String,
    pub email: String,
}

impl Clone for CreateUser {
    fn clone(&self) -> (res: Self)
        ensures
            res == *self,
    {
        CreateUser { name: self.name.clone(), email: self.email.clone() }
    }
}

/// Uniform response envelope: a success carries a payload in `data`, a
/// failure carries a human-readable `message`, never both.
pub struct ApiResponse<T> {
    pub success: bool,
    pub data: Option<T>,
    pub message: Option<String>,
}

impl<T> ApiResponse<T> {
    /// The envelope invariant: exactly one of `data` / `message` is
    /// populated, and which one agrees with `success`.
    pub open spec fn wf(self) -> bool {
        &&& self.success <==> self.data is Some
        &&& self.success <==> self.message is None
    }

    pub fn success(data: T) -> (r: Self)
        ensures
            r.wf(),
            r.success,
            r.data == Some(data),
            r.message is None,
    {
        Self { success: true, data: Some(data), message: None }
    }

    pub fn error(message: String) -> (r: Self)
        ensures
            r.wf(),
            !r.success,
            r.data is None,
            r.message == Some(message),
    {
        Self { success: false, data: None, message: Some(message) }
    }
}

/// Static descriptor served at the service root.
pub struct ServiceInfo {
    pub message: String,
    pub version: String,
    pub database: String,
}

} // verus!
