//! Administrators.

use vstd::prelude::*;

verus! {

/// A stored administrator. The password is held as an Argon2 hash string.
#[derive(Debug)]
pub struct AdminModel {
    pub id: u128,
    pub username: String,
    pub password: String,
    pub role_id: u128,
    pub created_at: Option<i64>,
    pub updated_at: Option<i64>,
}

/// A request to register an administrator.
#[derive(Debug)]
pub struct CreateAdminSchema {
    pub username: String,
    pub password: String,
    pub role_name: String,
}

} // verus!
