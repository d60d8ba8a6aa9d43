use profile_mirror::models::response_status::ResponseStatus;
use profile_mirror::models::user::{GetUsers, UpdateUserSchema};
use profile_mirror::repositories::game_repository::GameRepository;
use profile_mirror::repositories::user_repository::UserRepository;
use profile_mirror::services::errors::storage::StoreError;
use profile_mirror::services::errors::users::{
    CreateUserError, DeleteUserError, GetUserError, UpdateUserError,
};
use profile_mirror::services::user_service::UserService;
use profile_mirror::steam::decode::Fetched;

fn replied(body: &str) -> Fetched {
    Fetched::Replied { status: 200, body: body.to_string() }
}

fn profile(gameid: Option<&str>, timecreated: &str) -> Fetched {
    let game = match gameid {
        Some(id) => format!(", \"gameid\": \"{}\", \"gameextrainfo\": \"Team Fortress 2\"", id),
        None => String::new(),
    };
    replied(&format!(
        r#"{{"response": {{"players": [{{
            "steamid": "76561197960287930", "personaname": "Rabscuttle",
            "profileurl": "https://steamcommunity.com/id/gabelogannewell/",
            "avatar": "a.jpg", "avatarmedium": "m.jpg", "avatarfull": "f.jpg",
            "personastate": 1, "communityvisibilitystate": "3",
            "timecreated": {}, "loccountrycode": "US"{}
        }}]}}}}"#,
        timecreated, game
    ))
}

const GAME: &str = r#"{"440": {"success": true, "data": {
    "name": "Team Fortress 2", "short_description": "Nine classes.",
    "header_image": "h.jpg", "screenshots": [{"path_full": "s0.jpg"}]}}}"#;

const ID: &str = "76561197960287930";

#[test]
fn create_with_zero_matching_players_stores_nothing() {
    let mut users = UserRepository::new(1_700_000_000);
    let mut games = GameRepository::new();
    let outcome = UserService::create_user(
        &mut users,
        &mut games,
        ID.to_string(),
        &replied(r#"{"response": {"players": []}}"#),
        &replied(GAME),
    );
    assert!(matches!(outcome, Err(CreateUserError::SteamUserNotFound)));
    assert!(users.rows.is_empty());
    assert_eq!(users.next_id, 1);
    assert!(games.games.is_empty());
    assert!(!users.check_if_user_exits(ID).unwrap());
}

#[test]
fn create_mirrors_the_game_that_is_played() {
    let mut users = UserRepository::new(1_700_000_000);
    let mut games = GameRepository::new();
    let created = UserService::create_user(
        &mut users,
        &mut games,
        ID.to_string(),
        &profile(Some("440"), "1063407589"),
        &replied(GAME),
    )
    .ok()
    .unwrap();
    assert_eq!(created.username, "Rabscuttle");
    assert_eq!(created.pf_url, "https://steamcommunity.com/id/gabelogannewell/");
    assert_eq!(created.avatar, "a.jpg");
    assert_eq!(users.rows.len(), 1);
    let row = &users.rows[0];
    assert_eq!(row.id, 1);
    assert_eq!(row.steam_id, ID);
    assert_eq!(row.username, "Rabscuttle");
    assert_eq!(row.persona_state, 1);
    assert_eq!(row.visibility, 3);
    assert_eq!(row.steam_created_at, 1063407589);
    assert_eq!(row.gameid.as_deref(), Some("440"));
    assert_eq!(row.current_game.as_deref(), Some("Team Fortress 2"));
    assert_eq!(row.country.as_deref(), Some("US"));
    assert_eq!(row.created_at, Some(1_700_000_000));
    assert_eq!(row.updated_at, Some(1_700_000_000));
    assert_eq!(games.games.len(), 1);
    assert_eq!(games.games[0].appid, "440");
    assert_eq!(games.games[0].name, "Team Fortress 2");
    assert_eq!(games.games[0].short_description.as_deref(), Some("Nine classes."));
    assert_eq!(games.games[0].screenshots, Some(vec!["s0.jpg".to_string()]));
    assert!(games.check_if_game_exists("440").unwrap());
}

#[test]
fn create_succeeds_with_partial_game_details() {
    let mut users = UserRepository::new(0);
    let mut games = GameRepository::new();
    let created = UserService::create_user(
        &mut users,
        &mut games,
        ID.to_string(),
        &profile(Some("440"), "1063407589"),
        &replied(r#"{"440": {"success": true, "data": {}}}"#),
    );
    assert!(created.is_ok());
    assert_eq!(games.games.len(), 1);
    assert_eq!(games.games[0].appid, "440");
    assert_eq!(games.games[0].name, "");
    assert_eq!(games.games[0].short_description.as_deref(), Some(""));
    assert_eq!(games.games[0].screenshots, Some(Vec::new()));
}

#[test]
fn create_succeeds_when_the_game_fetch_fails() {
    for game in [
        Fetched::Failed("timed out".to_string()),
        replied("oops"),
        replied(r#"{"440": {"success": false}}"#),
    ] {
        let mut users = UserRepository::new(0);
        let mut games = GameRepository::new();
        let created = UserService::create_user(
            &mut users,
            &mut games,
            ID.to_string(),
            &profile(Some("440"), "1063407589"),
            &game,
        );
        assert!(created.is_ok());
        assert_eq!(users.rows.len(), 1);
        assert!(games.games.is_empty());
        assert_eq!(games.next_id, 1);
    }
}

#[test]
fn create_without_a_game_leaves_games_alone() {
    let mut users = UserRepository::new(0);
    let mut games = GameRepository::new();
    let created = UserService::create_user(
        &mut users,
        &mut games,
        ID.to_string(),
        &profile(None, "1063407589"),
        &replied(GAME),
    );
    assert!(created.is_ok());
    assert!(games.games.is_empty());
    assert_eq!(users.rows[0].gameid, None);
    assert_eq!(users.rows[0].current_game, None);
}

#[test]
fn create_refuses_an_identifier_that_is_stored() {
    let mut users = UserRepository::new(0);
    let mut games = GameRepository::new();
    let first = UserService::create_user(
        &mut users,
        &mut games,
        ID.to_string(),
        &profile(None, "1"),
        &replied(GAME),
    );
    assert!(first.is_ok());
    let second = UserService::create_user(
        &mut users,
        &mut games,
        ID.to_string(),
        &Fetched::Failed("never looked at".to_string()),
        &replied(GAME),
    );
    assert!(matches!(second, Err(CreateUserError::UserAlreadyExists)));
    assert_eq!(users.rows.len(), 1);
}

#[test]
fn create_reports_why_the_platform_gave_nothing() {
    let mut users = UserRepository::new(0);
    let mut games = GameRepository::new();
    let outcome = UserService::create_user(
        &mut users,
        &mut games,
        ID.to_string(),
        &Fetched::Failed("connection refused".to_string()),
        &replied(GAME),
    );
    assert!(matches!(outcome, Err(CreateUserError::SteamApiError(m)) if m == "Failed to fetch: connection refused"));
    let outcome = UserService::create_user(
        &mut users,
        &mut games,
        ID.to_string(),
        &replied("<html>"),
        &replied(GAME),
    );
    assert!(matches!(outcome, Err(CreateUserError::SteamApiError(m)) if m == "Failed to parse"));
    assert!(users.rows.is_empty());
}

#[test]
fn create_without_a_creation_time_uses_the_epoch() {
    let mut users = UserRepository::new(0);
    let mut games = GameRepository::new();
    let created = UserService::create_user(
        &mut users,
        &mut games,
        ID.to_string(),
        &profile(None, "null"),
        &replied(GAME),
    );
    assert!(created.is_ok());
    assert_eq!(users.rows[0].steam_created_at, 0);
}

#[test]
fn create_with_a_time_out_of_range_is_refused_by_the_store() {
    let mut users = UserRepository::new(0);
    let mut games = GameRepository::new();
    let outcome = UserService::create_user(
        &mut users,
        &mut games,
        ID.to_string(),
        &profile(Some("440"), "9223372036854775807"),
        &replied(GAME),
    );
    assert!(matches!(
        outcome,
        Err(CreateUserError::DatabaseError(StoreError::NullViolation))
    ));
    assert!(users.rows.is_empty());
    assert!(games.games.is_empty());
}

#[test]
fn get_tells_a_missing_identity() {
    let mut users = UserRepository::new(0);
    let mut games = GameRepository::new();
    assert!(matches!(UserService::get_user(&users, ID), Err(GetUserError::UserNotFound)));
    UserService::create_user(&mut users, &mut games, ID.to_string(), &profile(None, "5"), &replied(GAME))
        .ok()
        .unwrap();
    let shown = UserService::get_user(&users, ID).ok().unwrap();
    assert_eq!(shown.status, ResponseStatus::Success);
    assert_eq!(shown.user.steam_id, ID);
    assert_eq!(shown.user.username, "Rabscuttle");
    assert_eq!(shown.user.country.as_deref(), Some("US"));
    assert_eq!(shown.user.persona_state, 1);
    assert_eq!(shown.user.visibility, 3);
    assert_eq!(shown.user.steam_created_at, 5);
}

#[test]
fn refresh_overwrites_what_the_platform_reports() {
    let mut users = UserRepository::new(10);
    let mut games = GameRepository::new();
    UserService::create_user(
        &mut users,
        &mut games,
        ID.to_string(),
        &profile(Some("440"), "5"),
        &replied(GAME),
    )
    .ok()
    .unwrap();
    users.now = 20;
    let fresh = replied(
        r#"{"response": {"players": [{
            "steamid": "76561197960287930", "personaname": "Gabe",
            "profileurl": "pf2", "avatar": "a2", "avatarmedium": "m2", "avatarfull": "f2",
            "personastate": "0", "communityvisibilitystate": 1, "timecreated": 99
        }]}}"#,
    );
    let updated = UserService::update_user(&mut users, ID, &fresh).ok().unwrap();
    assert_eq!(updated.message, ResponseStatus::Success);
    assert_eq!(users.rows.len(), 1);
    let row = &users.rows[0];
    assert_eq!(row.id, 1);
    assert_eq!(row.steam_id, ID);
    assert_eq!(row.username, "Gabe");
    assert_eq!(row.pf_url, "pf2");
    assert_eq!(row.avatar, "a2");
    assert_eq!(row.persona_state, 0);
    assert_eq!(row.visibility, 1);
    assert_eq!(row.steam_created_at, 5);
    assert_eq!(row.country.as_deref(), Some("US"));
    assert_eq!(row.current_game.as_deref(), Some("Team Fortress 2"));
    assert_eq!(row.gameid.as_deref(), Some("440"));
    assert_eq!(row.created_at, Some(10));
    assert_eq!(row.updated_at, Some(20));
}

#[test]
fn refresh_that_fails_keeps_the_stored_identity() {
    let mut users = UserRepository::new(10);
    let mut games = GameRepository::new();
    assert!(matches!(
        UserService::update_user(&mut users, ID, &profile(None, "5")),
        Err(UpdateUserError::UserNotFound)
    ));
    UserService::create_user(&mut users, &mut games, ID.to_string(), &profile(None, "5"), &replied(GAME))
        .ok()
        .unwrap();
    let outcome = UserService::update_user(&mut users, ID, &replied(r#"{"response": {"players": []}}"#));
    assert!(matches!(outcome, Err(UpdateUserError::SteamUserNotFound)));
    let outcome = UserService::update_user(&mut users, ID, &Fetched::Failed("down".to_string()));
    assert!(matches!(outcome, Err(UpdateUserError::SteamApiError(m)) if m == "Failed to fetch: down"));
    let outcome = UserService::update_user(&mut users, ID, &replied("[]"));
    assert!(matches!(outcome, Err(UpdateUserError::SteamApiError(m)) if m == "Failed to parse"));
    assert_eq!(users.rows.len(), 1);
    assert_eq!(users.rows[0].username, "Rabscuttle");
    assert_eq!(users.rows[0].updated_at, Some(10));
}

#[test]
fn partial_update_keeps_what_it_does_not_name() {
    let mut users = UserRepository::new(10);
    let mut games = GameRepository::new();
    UserService::create_user(&mut users, &mut games, ID.to_string(), &profile(None, "5"), &replied(GAME))
        .ok()
        .unwrap();
    users.now = 30;
    let body = UpdateUserSchema {
        username: Some("Renamed".to_string()),
        pf_url: None,
        avatar: None,
        persona_state: Some(4),
        visibility: None,
        current_game: Some("Portal".to_string()),
        country: None,
    };
    let reply = UserService::patch_user(&mut users, ID, body).ok().unwrap();
    assert_eq!(reply.username, "Renamed");
    assert_eq!(reply.pf_url, "https://steamcommunity.com/id/gabelogannewell/");
    assert_eq!(reply.avatar, "a.jpg");
    let row = &users.rows[0];
    assert_eq!(row.username, "Renamed");
    assert_eq!(row.persona_state, 4);
    assert_eq!(row.visibility, 3);
    assert_eq!(row.current_game.as_deref(), Some("Portal"));
    assert_eq!(row.country.as_deref(), Some("US"));
    assert_eq!(row.updated_at, Some(30));
    let nothing = UpdateUserSchema {
        username: None,
        pf_url: None,
        avatar: None,
        persona_state: None,
        visibility: None,
        current_game: None,
        country: None,
    };
    assert!(matches!(
        UserService::patch_user(&mut users, "nobody", nothing),
        Err(UpdateUserError::UserNotFound)
    ));
}

#[test]
fn delete_reports_a_missing_identity() {
    let mut users = UserRepository::new(0);
    let mut games = GameRepository::new();
    assert!(matches!(UserService::delete_user(&mut users, 1), Err(DeleteUserError::UserNotFound)));
    UserService::create_user(&mut users, &mut games, ID.to_string(), &profile(None, "5"), &replied(GAME))
        .ok()
        .unwrap();
    assert_eq!(UserService::delete_user(&mut users, 1).ok(), Some(1));
    assert!(users.rows.is_empty());
    assert!(matches!(UserService::delete_user(&mut users, 1), Err(DeleteUserError::UserNotFound)));
    assert_eq!(users.next_id, 2);
}

#[test]
fn listing_carries_its_envelope() {
    let rows = vec![
        GetUsers {
            steam_id: "1".to_string(),
            username: "a".to_string(),
            avatar: "x".to_string(),
            pf_url: "y".to_string(),
            current_game: None,
        },
        GetUsers {
            steam_id: "2".to_string(),
            username: "b".to_string(),
            avatar: "x".to_string(),
            pf_url: "y".to_string(),
            current_game: Some("g".to_string()),
        },
    ];
    let listing = UserService::get_users(rows, 41, 3, 20);
    assert_eq!(listing.status, ResponseStatus::Success);
    assert_eq!(listing.users.len(), 2);
    assert_eq!(listing.users[1].steam_id, "2");
    assert_eq!(listing.pagination.total_in_page, 2);
    assert_eq!(listing.pagination.total, 41);
    assert_eq!(listing.pagination.total_pages, 3);
    assert_eq!(listing.pagination.current_page, 3);
    assert_eq!(listing.pagination.page_size, 20);
    let empty = UserService::get_users(Vec::new(), 0, 1, 20);
    assert_eq!(empty.pagination.total_pages, 1);
}

#[test]
fn addresses_and_patterns() {
    assert_eq!(
        UserService::steam_data_url("KEY", ID),
        "http://api.steampowered.com/ISteamUser/GetPlayerSummaries/v0002/?key=KEY&steamids=76561197960287930&format=json"
    );
    assert_eq!(UserService::search_pattern("gabe"), "%gabe%");
    assert_eq!(UserService::search_pattern(""), "%%");
}
