use profile_mirror::models::game::GameCreationResponse;
use profile_mirror::models::response_status::ResponseStatus;
use profile_mirror::models::user::{UpdateUserResponse, UserCreationResponse, UserUpdateResponse};
use profile_mirror::pagination::QueryParams;
use profile_mirror::routes::game_routes::{
    create_game, create_game_failure as game_refused, get_game, get_game_failure as game_missing,
};
use profile_mirror::routes::health_route::health_checker_handler;
use profile_mirror::routes::inventory_items_routes::{
    fetch_inventory, fetch_inventory_failure as sync_refused,
};
use profile_mirror::routes::user_routes::{
    create_user, create_user_failure, delete_user, delete_user_failure, get_user,
    get_user_failure, get_users, listing, patch_user, update_user, update_user_failure,
};
use profile_mirror::services::errors::games::{CreateGameError, GetGameError};
use profile_mirror::services::errors::inventory_items::CreateInventoryItemError;
use profile_mirror::services::errors::storage::StoreError;
use profile_mirror::services::errors::users::{
    CreateUserError, DeleteUserError, GetUserError, UpdateUserError,
};

#[test]
fn listing_is_planned_from_untrusted_input() {
    let query = get_users(&QueryParams { page: 0, limit: 999999, username: Some("gabe".to_string()) });
    assert_eq!(query.page, 1);
    assert_eq!(query.limit, 100);
    assert_eq!(query.offset, 0);
    assert_eq!(query.pattern.as_deref(), Some("%gabe%"));
    let query = get_users(&QueryParams { page: 3, limit: 0, username: None });
    assert_eq!(query.page, 3);
    assert_eq!(query.limit, 1);
    assert_eq!(query.offset, 2);
    assert!(query.pattern.is_none());
    let query = get_users(&QueryParams { page: -7, limit: -1, username: None });
    assert_eq!((query.page, query.limit, query.offset), (1, 1, 0));
    let query = get_users(&QueryParams { page: 4, limit: 25, username: None });
    assert_eq!((query.page, query.limit, query.offset), (4, 25, 75));
    let query = get_users(&QueryParams { page: i64::MAX, limit: 50, username: None });
    assert_eq!(query.offset, i64::MAX);
}

#[test]
fn failures_to_create_an_identity() {
    let r = create_user_failure(&CreateUserError::UserAlreadyExists);
    assert_eq!((r.status, r.message.as_str()), (409, "This user is already registered in the database!"));
    let r = create_user_failure(&CreateUserError::SteamUserNotFound);
    assert_eq!((r.status, r.message.as_str()), (404, "Steam user not found"));
    let r = create_user_failure(&CreateUserError::SteamApiError("Failed to fetch: x".to_string()));
    assert_eq!((r.status, r.message.as_str()), (500, "Steam API error: Failed to fetch: x"));
    let r = create_user_failure(&CreateUserError::DatabaseError(StoreError::Other("io".to_string())));
    assert_eq!((r.status, r.message.as_str()), (500, "Database error: io"));
}

#[test]
fn failures_to_show_update_and_delete_an_identity() {
    let r = get_user_failure(&GetUserError::UserNotFound);
    assert_eq!((r.status, r.message.as_str()), (404, "User not found"));
    let r = get_user_failure(&GetUserError::DatabaseError(StoreError::RowNotFound));
    assert_eq!((r.status, r.message.as_str()), (500, "Database error: RowNotFound"));
    let r = update_user_failure(&UpdateUserError::UserNotFound);
    assert_eq!((r.status, r.message.as_str()), (404, "User not found"));
    let r = update_user_failure(&UpdateUserError::SteamUserNotFound);
    assert_eq!((r.status, r.message.as_str()), (404, "Steam user not found"));
    let r = update_user_failure(&UpdateUserError::SteamApiError("down".to_string()));
    assert_eq!((r.status, r.message.as_str()), (502, "Steam API error: down"));
    let r = update_user_failure(&UpdateUserError::DatabaseError(StoreError::Exhausted));
    assert_eq!((r.status, r.message.as_str()), (500, "Database error Exhausted"));
    let r = update_user_failure(&UpdateUserError::GameCreationError("Steam game not found".to_string()));
    assert_eq!((r.status, r.message.as_str()), (500, "Game creation error: Steam game not found"));
    let r = delete_user_failure(&DeleteUserError::UserNotFound);
    assert_eq!((r.status, r.message.as_str()), (404, "User not found"));
    let r = delete_user_failure(&DeleteUserError::DatabaseError(StoreError::NullViolation));
    assert_eq!((r.status, r.message.as_str()), (500, "Database error: NullViolation"));
}

#[test]
fn failures_of_the_game_routes() {
    let r = game_refused(&CreateGameError::GameAlreadyExists);
    assert_eq!((r.status, r.message.as_str()), (409, "This game is already registered in the database!"));
    let r = game_refused(&CreateGameError::SteamGameNotFound);
    assert_eq!((r.status, r.message.as_str()), (404, "Steam game not found"));
    let r = game_refused(&CreateGameError::SteamApiError("Failed to parse".to_string()));
    assert_eq!((r.status, r.message.as_str()), (500, "Steam API error: Failed to parse"));
    let r = game_refused(&CreateGameError::DatabaseError(StoreError::UniqueViolation));
    assert_eq!((r.status, r.message.as_str()), (500, "Database error: UniqueViolation"));
    let r = game_missing(&GetGameError::GameNotFound);
    assert_eq!((r.status, r.message.as_str()), (404, "Game not found"));
    let r = game_missing(&GetGameError::DatabaseError(StoreError::Other("x".to_string())));
    assert_eq!((r.status, r.message.as_str()), (500, "Database error: x"));
}

#[test]
fn failures_of_the_inventory_route() {
    let r = sync_refused(&CreateInventoryItemError::InventoryNotFound);
    assert_eq!((r.status, r.message.as_str()), (404, "Steam inventory not found or is private"));
    let r = sync_refused(&CreateInventoryItemError::SteamApiError("s".to_string()));
    assert_eq!((r.status, r.message.as_str()), (500, "Steam API error: s"));
    let r = sync_refused(&CreateInventoryItemError::DatabaseError(StoreError::Exhausted));
    assert_eq!((r.status, r.message.as_str()), (500, "Database error: Exhausted"));
    let r = sync_refused(&CreateInventoryItemError::InventoryItemAlreadyExists);
    assert_eq!((r.status, r.message.as_str()), (409, "Inventory item already exists"));
}

#[test]
fn health_message() {
    assert_eq!(health_checker_handler(), "Up and running!");
}

#[test]
fn routes_pass_a_good_outcome_on_and_report_a_bad_one() {
    let user = UserCreationResponse {
        username: "u".to_string(),
        pf_url: "p".to_string(),
        avatar: "a".to_string(),
    };
    assert_eq!(create_user(Ok(user)).ok().unwrap().username, "u");
    let refused = create_user(Err(CreateUserError::UserAlreadyExists)).err().unwrap();
    assert_eq!(refused.status, 409);
    let refused = get_user(Err(GetUserError::UserNotFound)).err().unwrap();
    assert_eq!((refused.status, refused.message.as_str()), (404, "User not found"));
    let done = update_user(Ok(UpdateUserResponse { message: ResponseStatus::Success })).ok().unwrap();
    assert_eq!(done.message, ResponseStatus::Success);
    let refused = update_user(Err(UpdateUserError::SteamApiError("x".to_string()))).err().unwrap();
    assert_eq!(refused.status, 502);
    let patched = patch_user(Ok(UserUpdateResponse {
        username: "u".to_string(),
        pf_url: "p".to_string(),
        avatar: "a".to_string(),
    }));
    assert_eq!(patched.ok().unwrap().avatar, "a");
    assert_eq!(patch_user(Err(UpdateUserError::UserNotFound)).err().unwrap().status, 404);
    assert!(delete_user(Ok(1)).is_ok());
    let refused = delete_user(Ok(0)).err().unwrap();
    assert_eq!((refused.status, refused.message.as_str()), (404, "User not found"));
    assert_eq!(delete_user(Err(DeleteUserError::UserNotFound)).err().unwrap().status, 404);
    let game = GameCreationResponse {
        appid: "440".to_string(),
        name: "n".to_string(),
        short_description: None,
        header_image: None,
        screenshots: None,
    };
    assert_eq!(create_game(Ok(game)).ok().unwrap().appid, "440");
    assert_eq!(create_game(Err(CreateGameError::SteamGameNotFound)).err().unwrap().status, 404);
    assert_eq!(get_game(Err(GetGameError::GameNotFound)).err().unwrap().status, 404);
    assert!(fetch_inventory(Ok(Vec::new())).ok().unwrap().is_empty());
    let refused = fetch_inventory(Err(CreateInventoryItemError::InventoryNotFound)).err().unwrap();
    assert_eq!(refused.status, 404);
    let refused = listing(Err(StoreError::Other("io".to_string()))).err().unwrap();
    assert_eq!((refused.status, refused.message.as_str()), (500, "Failed to fetch users"));
}
