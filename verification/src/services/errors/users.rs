//! Failures of the identity engine.

use crate::services::errors::games::CreateGameError;
use crate::services::errors::storage::StoreError;
use vstd::prelude::*;
use vstd::std_specs::convert::FromSpecImpl;
use vstd::string::*;

verus! {

/// Why an identity could not be created.
#[derive(Debug)]
pub enum CreateUserError {
    UserAlreadyExists,
    /// The platform could not be reached, or its reply could not be read.
    SteamApiError(String),
    /// The platform reports no account for the identifier.
    SteamUserNotFound,
    DatabaseError(StoreError),
}

/// Why an identity could not be deleted.
#[derive(Debug)]
pub enum DeleteUserError {
    UserNotFound,
    DatabaseError(StoreError),
}

/// Why an identity could not be shown.
#[derive(Debug)]
pub enum GetUserError {
    UserNotFound,
    DatabaseError(StoreError),
}

/// Why an identity could not be refreshed.
#[derive(Debug)]
pub enum UpdateUserError {
    UserNotFound,
    SteamUserNotFound,
    SteamApiError(String),
    DatabaseError(StoreError),
    GameCreationError(String),
}

impl From<StoreError> for CreateUserError {
    fn from(error: StoreError) -> (e: CreateUserError) {
        CreateUserError::DatabaseError(error)
    }
}

impl FromSpecImpl<StoreError> for CreateUserError {
    open spec fn obeys_from_spec() -> bool {
        true
    }

    open spec fn from_spec(error: StoreError) -> CreateUserError {
        CreateUserError::DatabaseError(error)
    }
}

impl From<StoreError> for DeleteUserError {
    fn from(error: StoreError) -> (e: DeleteUserError) {
        DeleteUserError::DatabaseError(error)
    }
}

impl FromSpecImpl<StoreError> for DeleteUserError {
    open spec fn obeys_from_spec() -> bool {
        true
    }

    open spec fn from_spec(error: StoreError) -> DeleteUserError {
        DeleteUserError::DatabaseError(error)
    }
}

impl From<StoreError> for GetUserError {
    fn from(error: StoreError) -> (e: GetUserError) {
        GetUserError::DatabaseError(error)
    }
}

impl FromSpecImpl<StoreError> for GetUserError {
    open spec fn obeys_from_spec() -> bool {
        true
    }

    open spec fn from_spec(error: StoreError) -> GetUserError {
        GetUserError::DatabaseError(error)
    }
}

impl From<StoreError> for UpdateUserError {
    fn from(error: StoreError) -> (e: UpdateUserError) {
        UpdateUserError::DatabaseError(error)
    }
}

impl FromSpecImpl<StoreError> for UpdateUserError {
    open spec fn obeys_from_spec() -> bool {
        true
    }

    open spec fn from_spec(error: StoreError) -> UpdateUserError {
        UpdateUserError::DatabaseError(error)
    }
}

impl UpdateUserError {
    /// The failure of a refresh that a failed game creation amounts to: a
    /// platform or store failure is passed on as such, the two refusals become
    /// `GameCreationError` with the words "Game already exists" and "Steam
    /// game not found".
    pub fn from_game_error(error: CreateGameError) -> (e: UpdateUserError)
        ensures
            match error {
                CreateGameError::GameAlreadyExists => e matches UpdateUserError::GameCreationError(
                    text,
                ) && text@ == "Game already exists"@,
                CreateGameError::SteamApiError(message) => e == UpdateUserError::SteamApiError(
                    message,
                ),
                CreateGameError::SteamGameNotFound => e matches UpdateUserError::GameCreationError(
                    text,
                ) && text@ == "Steam game not found"@,
                CreateGameError::DatabaseError(inner) => e == UpdateUserError::DatabaseError(inner),
            },
    {
        match error {
            CreateGameError::GameAlreadyExists => UpdateUserError::GameCreationError(
                "Game already exists".to_owned(),
            ),
            CreateGameError::SteamApiError(message) => UpdateUserError::SteamApiError(message),
            CreateGameError::SteamGameNotFound => UpdateUserError::GameCreationError(
                "Steam game not found".to_owned(),
            ),
            CreateGameError::DatabaseError(inner) => UpdateUserError::DatabaseError(inner),
        }
    }
}

} // verus!
