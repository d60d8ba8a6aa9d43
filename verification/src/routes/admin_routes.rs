//! Registration of administrators.

use crate::models::admin::CreateAdminSchema;
use crate::routes::auth_routes::{argon2_check, PasswordCheck};
use crate::routes::rejection::{CONFLICT, INTERNAL_SERVER_ERROR, NOT_FOUND, Rejection};
use vstd::prelude::*;
use vstd::string::*;

verus! {

/// password-hash's error type.
#[verifier::external_type_specification]
#[verifier::external_body]
pub struct ExPasswordHashError(argon2::password_hash::Error);

/// A new administrator, ready to be stored: the password is held as a hash.
#[derive(Debug)]
pub struct NewAdmin {
    pub username: String,
    pub password: String,
    pub role_id: u128,
}

/// `SaltString::generate` with the operating system's random numbers, then
/// `Argon2::default().hash_password`, written as a hash string. The salt is
/// random, so the string differs from call to call; whatever string comes
/// out, the password matches it.
#[verifier::external_body]
fn hash_password(password: &str) -> (hash: Result<String, argon2::password_hash::Error>)
    ensures
        hash matches Ok(text) ==> argon2_check(password@, text@) == PasswordCheck::Matches,
{
    let salt = argon2::password_hash::SaltString::generate(
        &mut argon2::password_hash::rand_core::OsRng,
    );
    argon2::PasswordHasher::hash_password(
        &argon2::Argon2::default(),
        password.as_bytes(),
        &salt,
    ).map(|hash| hash.to_string())
}

/// Prepares the registration of an administrator, given whether the name is
/// taken and which key the named role has. A name that is taken is 409, a
/// role that is not there is 404, a failure to hash the password is 500.
/// What is prepared holds the password as a hash that the password matches.
pub fn create_admin(body: CreateAdminSchema, taken: bool, role: Option<u128>) -> (prepared: Result<
    NewAdmin,
    Rejection,
>)
    ensures
        taken ==> (prepared matches Err(r) && r.says(CONFLICT, "Invalid data!"@)),
        !taken && role is None ==> (prepared matches Err(r) && r.says(
            NOT_FOUND,
            "Invalid role!"@,
        )),
        !taken && role is Some ==> match prepared {
            Ok(admin) => admin.username == body.username && admin.role_id == role->Some_0
                && argon2_check(body.password@, admin.password@) == PasswordCheck::Matches,
            Err(r) => r.says(INTERNAL_SERVER_ERROR, "Password hashing failed"@),
        },
{
    if taken {
        return Err(Rejection { status: CONFLICT, message: "Invalid data!".to_owned() });
    }
    let role_id = match role {
        Some(id) => id,
        None => {
            return Err(Rejection { status: NOT_FOUND, message: "Invalid role!".to_owned() });
        },
    };
    match hash_password(body.password.as_str()) {
        Ok(password) => Ok(NewAdmin { username: body.username, password, role_id }),
        Err(_) => Err(
            Rejection {
                status: INTERNAL_SERVER_ERROR,
                message: "Password hashing failed".to_owned(),
            },
        ),
    }
}

} // verus!
