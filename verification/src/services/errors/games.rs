//! Failures of the game engine.

use crate::services::errors::storage::StoreError;
use vstd::prelude::*;
use vstd::std_specs::convert::FromSpecImpl;

verus! {

/// Why a game could not be mirrored.
#[derive(Debug)]
pub enum CreateGameError {
    GameAlreadyExists,
    /// The platform could not be reached, or its reply could not be read.
    SteamApiError(String),
    /// The platform knows no such application.
    SteamGameNotFound,
    DatabaseError(StoreError),
}

/// Why a game could not be shown.
#[derive(Debug)]
pub enum GetGameError {
    GameNotFound,
    DatabaseError(StoreError),
}

impl From<StoreError> for CreateGameError {
    fn from(error: StoreError) -> (e: CreateGameError) {
        CreateGameError::DatabaseError(error)
    }
}

impl FromSpecImpl<StoreError> for CreateGameError {
    open spec fn obeys_from_spec() -> bool {
        true
    }

    open spec fn from_spec(error: StoreError) -> CreateGameError {
        CreateGameError::DatabaseError(error)
    }
}

impl From<StoreError> for GetGameError {
    /// A missing row means that the game is not there; any other failure is
    /// passed on.
    fn from(error: StoreError) -> (e: GetGameError) {
        match error {
            StoreError::RowNotFound => GetGameError::GameNotFound,
            other => GetGameError::DatabaseError(other),
        }
    }
}

impl FromSpecImpl<StoreError> for GetGameError {
    open spec fn obeys_from_spec() -> bool {
        true
    }

    open spec fn from_spec(error: StoreError) -> GetGameError {
        match error {
            StoreError::RowNotFound => GetGameError::GameNotFound,
            other => GetGameError::DatabaseError(other),
        }
    }
}

} // verus!
