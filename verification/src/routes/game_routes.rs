//! The game routes: how the failures of the game engine are reported.

use crate::routes::rejection::{CONFLICT, INTERNAL_SERVER_ERROR, NOT_FOUND, Rejection};
use crate::models::game::GameCreationResponse;
use crate::services::errors::games::{CreateGameError, GetGameError};
use vstd::prelude::*;
use vstd::string::*;

verus! {

/// Whether a rejection reports a failure to mirror a game.
pub open spec fn reported_mirroring(failure: CreateGameError, reply: Rejection) -> bool {
    match failure {
        CreateGameError::GameAlreadyExists => reply.says(
            CONFLICT,
            "This game is already registered in the database!"@,
        ),
        CreateGameError::SteamGameNotFound => reply.says(NOT_FOUND, "Steam game not found"@),
        CreateGameError::SteamApiError(message) => reply.says(
            INTERNAL_SERVER_ERROR,
            "Steam API error: "@ + message@,
        ),
        CreateGameError::DatabaseError(e) => reply.says(
            INTERNAL_SERVER_ERROR,
            "Database error: "@ + e.description(),
        ),
    }
}

/// How a failure to mirror a game is reported.
pub fn create_game_failure(failure: &CreateGameError) -> (reply: Rejection)
    ensures
        reported_mirroring(*failure, reply),
{
    match failure {
        CreateGameError::GameAlreadyExists => Rejection {
            status: CONFLICT,
            message: "This game is already registered in the database!".to_owned(),
        },
        CreateGameError::SteamGameNotFound => Rejection {
            status: NOT_FOUND,
            message: "Steam game not found".to_owned(),
        },
        CreateGameError::SteamApiError(message) => Rejection {
            status: INTERNAL_SERVER_ERROR,
            message: "Steam API error: ".to_owned().concat(message.as_str()),
        },
        CreateGameError::DatabaseError(e) => {
            let text = e.describe();
            Rejection {
                status: INTERNAL_SERVER_ERROR,
                message: "Database error: ".to_owned().concat(text.as_str()),
            }
        },
    }
}

/// Whether a rejection reports a failure to show a game.
pub open spec fn reported_game_lookup(failure: GetGameError, reply: Rejection) -> bool {
    match failure {
        GetGameError::GameNotFound => reply.says(NOT_FOUND, "Game not found"@),
        GetGameError::DatabaseError(e) => reply.says(
            INTERNAL_SERVER_ERROR,
            "Database error: "@ + e.description(),
        ),
    }
}

/// How a failure to show a game is reported.
pub fn get_game_failure(failure: &GetGameError) -> (reply: Rejection)
    ensures
        reported_game_lookup(*failure, reply),
{
    match failure {
        GetGameError::GameNotFound => Rejection {
            status: NOT_FOUND,
            message: "Game not found".to_owned(),
        },
        GetGameError::DatabaseError(e) => {
            let text = e.describe();
            Rejection {
                status: INTERNAL_SERVER_ERROR,
                message: "Database error: ".to_owned().concat(text.as_str()),
            }
        },
    }
}

/// The reply to a request to mirror a game, given what the engine made of it.
pub fn create_game(outcome: Result<GameCreationResponse, CreateGameError>) -> (reply: Result<
    GameCreationResponse,
    Rejection,
>)
    ensures
        match outcome {
            Ok(game) => reply == Ok::<GameCreationResponse, Rejection>(game),
            Err(failure) => reply matches Err(r) && reported_mirroring(failure, r),
        },
{
    match outcome {
        Ok(game) => Ok(game),
        Err(failure) => Err(create_game_failure(&failure)),
    }
}

/// The reply to a request to show a game, given what the engine made of it.
pub fn get_game(outcome: Result<GameCreationResponse, GetGameError>) -> (reply: Result<
    GameCreationResponse,
    Rejection,
>)
    ensures
        match outcome {
            Ok(game) => reply == Ok::<GameCreationResponse, Rejection>(game),
            Err(failure) => reply matches Err(r) && reported_game_lookup(failure, r),
        },
{
    match outcome {
        Ok(game) => Ok(game),
        Err(failure) => Err(get_game_failure(&failure)),
    }
}

} // verus!
