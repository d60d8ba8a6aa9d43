//! The identity routes: how a listing is planned, and how the failures of the
//! identity engine are reported.

use crate::pagination::{clamp_limit, floor_page, offset, QueryParams, rows_before};
use crate::routes::rejection::{BAD_GATEWAY, CONFLICT, INTERNAL_SERVER_ERROR, NOT_FOUND, Rejection};
use crate::services::errors::users::{
    CreateUserError, DeleteUserError, GetUserError, UpdateUserError,
};
use crate::models::user::{
    GetUserResponse, GetUsersResponse, UpdateUserResponse, UserCreationResponse,
    UserUpdateResponse,
};
use crate::services::errors::storage::StoreError;
use crate::services::user_service::UserService;
use crate::steam::decode::optional_text;
use vstd::prelude::*;
use vstd::string::*;

verus! {

/// The query that serves a listing: which names pass, how many rows are
/// wanted, and how many are skipped.
#[derive(Debug)]
pub struct ListQuery {
    /// The pattern that a name must match; `None` lets every name pass.
    pub pattern: Option<String>,
    pub page: i64,
    pub limit: i64,
    pub offset: i64,
}

/// The pattern that a listing filters by, if it filters.
pub open spec fn pattern_of(username: Option<String>) -> Option<Seq<char>> {
    match username {
        Some(name) => Some("%"@ + name@ + "%"@),
        None => None,
    }
}

/// Plans a listing from what the caller sent: the page is raised to 1 where
/// it is lower, the limit is clamped into its bounds, the offset is that of
/// the page's first row (held at `i64::MAX` where it does not fit) and the
/// name, where one is given, becomes a pattern that matches it anywhere.
pub fn get_users(params: &QueryParams) -> (query: ListQuery)
    ensures
        query.page == floor_page(params.page as int),
        query.limit == clamp_limit(params.limit as int),
        query.offset == if rows_before(query.page as int, query.limit as int) <= i64::MAX {
            rows_before(query.page as int, query.limit as int)
        } else {
            i64::MAX as int
        },
        optional_text(query.pattern) == pattern_of(params.username),
{
    let plan = params.plan();
    ListQuery {
        pattern: match &params.username {
            Some(name) => Some(UserService::search_pattern(name.as_str())),
            None => None,
        },
        page: plan.page,
        limit: plan.limit,
        offset: offset(plan.page, plan.limit),
    }
}

/// The reply to a request for a listing, given what the store made of the
/// query: the page, or a report that says no more than that it failed.
pub fn listing(outcome: Result<GetUsersResponse, StoreError>) -> (reply: Result<
    GetUsersResponse,
    Rejection,
>)
    ensures
        match outcome {
            Ok(page) => reply == Ok::<GetUsersResponse, Rejection>(page),
            Err(_) => reply matches Err(r) && r.says(
                INTERNAL_SERVER_ERROR,
                "Failed to fetch users"@,
            ),
        },
{
    match outcome {
        Ok(page) => Ok(page),
        Err(_) => Err(
            Rejection { status: INTERNAL_SERVER_ERROR, message: "Failed to fetch users".to_owned() },
        ),
    }
}

/// Whether a rejection reports a failure to create an identity.
pub open spec fn reported_creation(failure: CreateUserError, reply: Rejection) -> bool {
    match failure {
        CreateUserError::UserAlreadyExists => reply.says(
            CONFLICT,
            "This user is already registered in the database!"@,
        ),
        CreateUserError::SteamUserNotFound => reply.says(NOT_FOUND, "Steam user not found"@),
        CreateUserError::SteamApiError(message) => reply.says(
            INTERNAL_SERVER_ERROR,
            "Steam API error: "@ + message@,
        ),
        CreateUserError::DatabaseError(e) => reply.says(
            INTERNAL_SERVER_ERROR,
            "Database error: "@ + e.description(),
        ),
    }
}

/// How a failure to create an identity is reported.
pub fn create_user_failure(failure: &CreateUserError) -> (reply: Rejection)
    ensures
        reported_creation(*failure, reply),
{
    match failure {
        CreateUserError::UserAlreadyExists => Rejection {
            status: CONFLICT,
            message: "This user is already registered in the database!".to_owned(),
        },
        CreateUserError::SteamUserNotFound => Rejection {
            status: NOT_FOUND,
            message: "Steam user not found".to_owned(),
        },
        CreateUserError::SteamApiError(message) => Rejection {
            status: INTERNAL_SERVER_ERROR,
            message: "Steam API error: ".to_owned().concat(message.as_str()),
        },
        CreateUserError::DatabaseError(e) => {
            let text = e.describe();
            Rejection {
                status: INTERNAL_SERVER_ERROR,
                message: "Database error: ".to_owned().concat(text.as_str()),
            }
        },
    }
}

/// Whether a rejection reports a failure to show an identity.
pub open spec fn reported_lookup(failure: GetUserError, reply: Rejection) -> bool {
    match failure {
        GetUserError::UserNotFound => reply.says(NOT_FOUND, "User not found"@),
        GetUserError::DatabaseError(e) => reply.says(
            INTERNAL_SERVER_ERROR,
            "Database error: "@ + e.description(),
        ),
    }
}

/// How a failure to show an identity is reported.
pub fn get_user_failure(failure: &GetUserError) -> (reply: Rejection)
    ensures
        reported_lookup(*failure, reply),
{
    match failure {
        GetUserError::UserNotFound => Rejection {
            status: NOT_FOUND,
            message: "User not found".to_owned(),
        },
        GetUserError::DatabaseError(e) => {
            let text = e.describe();
            Rejection {
                status: INTERNAL_SERVER_ERROR,
                message: "Database error: ".to_owned().concat(text.as_str()),
            }
        },
    }
}

/// Whether a rejection reports a failure to refresh or update an identity.
pub open spec fn reported_update(failure: UpdateUserError, reply: Rejection) -> bool {
    match failure {
        UpdateUserError::UserNotFound => reply.says(NOT_FOUND, "User not found"@),
        UpdateUserError::SteamUserNotFound => reply.says(NOT_FOUND, "Steam user not found"@),
        UpdateUserError::SteamApiError(message) => reply.says(
            BAD_GATEWAY,
            "Steam API error: "@ + message@,
        ),
        UpdateUserError::DatabaseError(e) => reply.says(
            INTERNAL_SERVER_ERROR,
            "Database error "@ + e.description(),
        ),
        UpdateUserError::GameCreationError(message) => reply.says(
            INTERNAL_SERVER_ERROR,
            "Game creation error: "@ + message@,
        ),
    }
}

/// How a failure to refresh or update an identity is reported. A failure of
/// the platform is 502: a later try may succeed. A missing identity or
/// account is 404: no later try will.
pub fn update_user_failure(failure: &UpdateUserError) -> (reply: Rejection)
    ensures
        reported_update(*failure, reply),
{
    match failure {
        UpdateUserError::UserNotFound => Rejection {
            status: NOT_FOUND,
            message: "User not found".to_owned(),
        },
        UpdateUserError::SteamUserNotFound => Rejection {
            status: NOT_FOUND,
            message: "Steam user not found".to_owned(),
        },
        UpdateUserError::SteamApiError(message) => Rejection {
            status: BAD_GATEWAY,
            message: "Steam API error: ".to_owned().concat(message.as_str()),
        },
        UpdateUserError::DatabaseError(e) => {
            let text = e.describe();
            Rejection {
                status: INTERNAL_SERVER_ERROR,
                message: "Database error ".to_owned().concat(text.as_str()),
            }
        },
        UpdateUserError::GameCreationError(message) => Rejection {
            status: INTERNAL_SERVER_ERROR,
            message: "Game creation error: ".to_owned().concat(message.as_str()),
        },
    }
}

/// Whether a rejection reports a failure to delete an identity.
pub open spec fn reported_deletion(failure: DeleteUserError, reply: Rejection) -> bool {
    match failure {
        DeleteUserError::UserNotFound => reply.says(NOT_FOUND, "User not found"@),
        DeleteUserError::DatabaseError(e) => reply.says(
            INTERNAL_SERVER_ERROR,
            "Database error: "@ + e.description(),
        ),
    }
}

/// How a failure to delete an identity is reported.
pub fn delete_user_failure(failure: &DeleteUserError) -> (reply: Rejection)
    ensures
        reported_deletion(*failure, reply),
{
    match failure {
        DeleteUserError::UserNotFound => Rejection {
            status: NOT_FOUND,
            message: "User not found".to_owned(),
        },
        DeleteUserError::DatabaseError(e) => {
            let text = e.describe();
            Rejection {
                status: INTERNAL_SERVER_ERROR,
                message: "Database error: ".to_owned().concat(text.as_str()),
            }
        },
    }
}

/// The reply to a request to create an identity, given what the engine made
/// of it: the new identity, or the report of the failure.
pub fn create_user(outcome: Result<UserCreationResponse, CreateUserError>) -> (reply: Result<
    UserCreationResponse,
    Rejection,
>)
    ensures
        match outcome {
            Ok(user) => reply == Ok::<UserCreationResponse, Rejection>(user),
            Err(failure) => reply matches Err(r) && reported_creation(failure, r),
        },
{
    match outcome {
        Ok(user) => Ok(user),
        Err(failure) => Err(create_user_failure(&failure)),
    }
}

/// The reply to a request to show an identity, given what the engine made
/// of it.
pub fn get_user(outcome: Result<GetUserResponse, GetUserError>) -> (reply: Result<
    GetUserResponse,
    Rejection,
>)
    ensures
        match outcome {
            Ok(user) => reply == Ok::<GetUserResponse, Rejection>(user),
            Err(failure) => reply matches Err(r) && reported_lookup(failure, r),
        },
{
    match outcome {
        Ok(user) => Ok(user),
        Err(failure) => Err(get_user_failure(&failure)),
    }
}

/// The reply to a request to refresh an identity, given what the engine
/// made of it.
pub fn update_user(outcome: Result<UpdateUserResponse, UpdateUserError>) -> (reply: Result<
    UpdateUserResponse,
    Rejection,
>)
    ensures
        match outcome {
            Ok(done) => reply == Ok::<UpdateUserResponse, Rejection>(done),
            Err(failure) => reply matches Err(r) && reported_update(failure, r),
        },
{
    match outcome {
        Ok(done) => Ok(done),
        Err(failure) => Err(update_user_failure(&failure)),
    }
}

/// The reply to a caller's partial update of an identity, given what the
/// engine made of it.
pub fn patch_user(outcome: Result<UserUpdateResponse, UpdateUserError>) -> (reply: Result<
    UserUpdateResponse,
    Rejection,
>)
    ensures
        match outcome {
            Ok(done) => reply == Ok::<UserUpdateResponse, Rejection>(done),
            Err(failure) => reply matches Err(r) && reported_update(failure, r),
        },
{
    match outcome {
        Ok(done) => Ok(done),
        Err(failure) => Err(update_user_failure(&failure)),
    }
}

/// The reply to a request to delete an identity, given what the engine made
/// of it: nothing where a row went, 404 where none did.
pub fn delete_user(outcome: Result<u64, DeleteUserError>) -> (reply: Result<(), Rejection>)
    ensures
        match outcome {
            Ok(rows) => if rows > 0 {
                reply is Ok
            } else {
                reply matches Err(r) && r.says(NOT_FOUND, "User not found"@)
            },
            Err(failure) => reply matches Err(r) && reported_deletion(failure, r),
        },
{
    match outcome {
        Ok(rows) => if rows > 0 {
            Ok(())
        } else {
            Err(Rejection { status: NOT_FOUND, message: "User not found".to_owned() })
        },
        Err(failure) => Err(delete_user_failure(&failure)),
    }
}

} // verus!
