//! Internal user records.

use vstd::prelude::*;

verus! {

/// A stored user record. The admin flag is kept as an integer: any
/// non-zero value marks an administrator.
#[derive(Clone, Debug, PartialEq, Eq)]
pub struct User {
    pub name: String,
    pub admin: i32,
}

/// A user-creation request handed to the user-management collaborator.
#[derive(Clone, Debug, PartialEq, Eq)]
pub struct NewUser {
    pub name: String,
    pub password: String,
    pub admin: bool,
}

} // verus!
