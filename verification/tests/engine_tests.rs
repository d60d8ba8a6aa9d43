use profile_mirror::models::game::{BindUserToGameSchema, GameModel, UserGamesModel};
use profile_mirror::models::inventory::InventoryModel;
use profile_mirror::models::inventory_items::InventoryItemModel;
use profile_mirror::models::user::UserModel;
use profile_mirror::services::errors::games::CreateGameError;
use profile_mirror::services::errors::inventory::CreateInventoryError;
use profile_mirror::services::errors::inventory_items::CreateInventoryItemError;
use profile_mirror::services::errors::storage::StoreError;
use profile_mirror::services::errors::users::{
    CreateUserError, DeleteUserError, GetUserError, UpdateUserError,
};
use profile_mirror::services::game_service::{GameBinding, GameCreation, GameService};
use profile_mirror::services::inventory_items_service::{InventoryItemService, InventorySync};
use profile_mirror::services::inventory_service::InventoryService;
use profile_mirror::services::protocol::{Ask, Step, Told};
use profile_mirror::services::user_service::{UserCreation, UserService};
use profile_mirror::steam::decode::Fetched;

fn replied(body: &str) -> Fetched {
    Fetched::Replied { status: 200, body: body.to_string() }
}

fn user_row(gameid: Option<&str>) -> UserModel {
    UserModel {
        id: 7,
        steam_id: "765".to_string(),
        username: "Rabscuttle".to_string(),
        pf_url: "p".to_string(),
        avatar: "a".to_string(),
        persona_state: 1,
        visibility: 3,
        steam_created_at: 5,
        gameid: gameid.map(|g| g.to_string()),
        current_game: None,
        country: None,
        created_at: None,
        updated_at: None,
    }
}

fn game_row(id: u128) -> GameModel {
    GameModel {
        id,
        appid: "440".to_string(),
        name: "Team Fortress 2".to_string(),
        short_description: None,
        header_image: None,
        screenshots: None,
    }
}

fn item_row(classid: &str) -> InventoryItemModel {
    InventoryItemModel {
        id: 1,
        inventory_id: 9,
        app_id: "440".to_string(),
        classid: classid.to_string(),
        icon: "i".to_string(),
        name: format!("item {}", classid),
        color: "c".to_string(),
        item_type: "t".to_string(),
        description: "d".to_string(),
        created_at: None,
        updated_at: None,
    }
}

const PROFILE: &str = r#"{"response": {"players": [{
    "steamid": "765", "personaname": "Rabscuttle", "profileurl": "p",
    "avatar": "a", "avatarmedium": "m", "avatarfull": "f",
    "personastate": 1, "communityvisibilitystate": 3, "gameid": "440"}]}}"#;

const GAME: &str = r#"{"440": {"success": true, "data": {"name": "Team Fortress 2"}}}"#;

const INVENTORY: &str = r#"{"success": 1, "descriptions": [
    {"appid": 440, "classid": "100", "instanceid": "0", "name": "one"},
    {"appid": 440, "classid": "200", "instanceid": "0", "name": "two"}]}"#;

#[test]
fn creation_does_not_call_the_platform_for_a_stored_identity() {
    let (state, ask) = match UserService::create_start("765".to_string()) {
        Step::Ask(state, ask) => (state, ask),
        Step::Done(_) => panic!("done too early"),
    };
    assert!(matches!(ask, Ask::UserExists { steam_id } if steam_id == "765"));
    let next = UserService::create_resume(state, Told::Flag(Ok(true)));
    assert!(matches!(next, Step::Done(Err(CreateUserError::UserAlreadyExists))));
}

#[test]
fn creation_walks_from_probe_to_enrichment() {
    let state = match UserService::create_start("765".to_string()) {
        Step::Ask(state, _) => state,
        Step::Done(_) => panic!("done too early"),
    };
    let state = match UserService::create_resume(state, Told::Flag(Ok(false))) {
        Step::Ask(state, Ask::FetchProfile { steam_id }) => {
            assert_eq!(steam_id, "765");
            state
        }
        _ => panic!("the platform was not called"),
    };
    let state = match UserService::create_resume(state, Told::Reply(replied(PROFILE))) {
        Step::Ask(state, Ask::StoreUser { user }) => {
            assert_eq!(user.steam_id, "765");
            assert_eq!(user.personaname, "Rabscuttle");
            assert_eq!(user.formatted_steam_created_at, Some(0));
            assert_eq!(user.gameid.as_deref(), Some("440"));
            state
        }
        _ => panic!("nothing was handed over"),
    };
    let state = match UserService::create_resume(state, Told::User(Ok(user_row(Some("440"))))) {
        Step::Ask(state, Ask::GameExists { appid }) => {
            assert_eq!(appid, "440");
            assert!(matches!(&state, UserCreation::Enriching { .. }));
            state
        }
        _ => panic!("the game was not looked for"),
    };
    let state = match UserService::create_resume(state, Told::Flag(Ok(false))) {
        Step::Ask(state, Ask::FetchGame { appid }) => {
            assert_eq!(appid, "440");
            state
        }
        _ => panic!("the platform was not called for the game"),
    };
    // The platform does not answer: the identity is created all the same.
    match UserService::create_resume(state, Told::Reply(Fetched::Failed("down".to_string()))) {
        Step::Done(Ok(created)) => {
            assert_eq!(created.user.username, "Rabscuttle");
            assert!(matches!(
                created.game,
                Some(Err(CreateGameError::SteamApiError(m))) if m == "Failed to fetch: down"
            ));
        }
        _ => panic!("the creation did not end well"),
    }
}

#[test]
fn creation_without_a_game_ends_when_the_identity_is_stored() {
    let next = UserService::create_resume(UserCreation::AwaitStore, Told::User(Ok(user_row(None))));
    assert!(matches!(next, Step::Done(Ok(created)) if created.game.is_none() && created.user.avatar == "a"));
    let next = UserService::create_resume(
        UserCreation::AwaitStore,
        Told::User(Err(StoreError::UniqueViolation)),
    );
    assert!(matches!(
        next,
        Step::Done(Err(CreateUserError::DatabaseError(StoreError::UniqueViolation)))
    ));
    let next = UserService::create_resume(
        UserCreation::AwaitProfile { steam_id: "765".to_string() },
        Told::Reply(replied(r#"{"response": {"players": []}}"#)),
    );
    assert!(matches!(next, Step::Done(Err(CreateUserError::SteamUserNotFound))));
}

#[test]
fn an_answer_that_does_not_fit_ends_an_engine() {
    let next = UserService::create_resume(UserCreation::AwaitStore, Told::Flag(Ok(true)));
    assert!(matches!(
        next,
        Step::Done(Err(CreateUserError::DatabaseError(StoreError::Other(m)))) if m == "unexpected answer"
    ));
    let next = GameService::create_resume(GameCreation::AwaitExisting, Told::Deleted(Ok(1)));
    assert!(matches!(
        next,
        Step::Done(Err(CreateGameError::DatabaseError(StoreError::Other(m)))) if m == "unexpected answer"
    ));
    let next = InventoryItemService::sync_resume(
        InventorySync::AwaitProbe { inventory_id: 1, templates: Vec::new(), index: 0, saved: Vec::new() },
        Told::Flag(Ok(false)),
    );
    assert!(matches!(
        next,
        Step::Done(Err(CreateInventoryItemError::DatabaseError(StoreError::Other(m)))) if m == "unexpected answer"
    ));
}

#[test]
fn mirroring_a_game_falls_back_to_the_stored_game_on_a_conflict() {
    let state = match GameService::create_start("440".to_string()) {
        Step::Ask(state, Ask::GameExists { appid }) => {
            assert_eq!(appid, "440");
            state
        }
        _ => panic!("the game was not looked for"),
    };
    let state = match GameService::create_resume(state, Told::Flag(Ok(false))) {
        Step::Ask(state, Ask::FetchGame { .. }) => state,
        _ => panic!("the platform was not called"),
    };
    let state = match GameService::create_resume(state, Told::Reply(replied(GAME))) {
        Step::Ask(state, Ask::StoreGame { game }) => {
            assert_eq!(game.appid, "440");
            assert_eq!(game.name, "Team Fortress 2");
            assert!(game.screenshots.is_empty());
            state
        }
        _ => panic!("nothing was handed over"),
    };
    let state = match GameService::create_resume(state, Told::Game(Err(StoreError::UniqueViolation))) {
        Step::Ask(state, Ask::GetGame { appid }) => {
            assert_eq!(appid, "440");
            state
        }
        _ => panic!("the stored game was not asked for"),
    };
    let done = GameService::create_resume(state, Told::Game(Ok(game_row(3))));
    assert!(matches!(done, Step::Done(Ok(game)) if game.name == "Team Fortress 2"));
}

#[test]
fn mirroring_a_stored_game_never_calls_the_platform() {
    let state = match GameService::create_start("440".to_string()) {
        Step::Ask(state, _) => state,
        Step::Done(_) => panic!("done too early"),
    };
    let state = match GameService::create_resume(state, Told::Flag(Ok(true))) {
        Step::Ask(state, Ask::GetGame { appid }) => {
            assert_eq!(appid, "440");
            state
        }
        _ => panic!("the stored game was not asked for"),
    };
    assert!(matches!(
        GameService::create_resume(state, Told::Game(Err(StoreError::Other("io".to_string())))),
        Step::Done(Err(CreateGameError::DatabaseError(StoreError::Other(m)))) if m == "io"
    ));
}

#[test]
fn binding_falls_back_to_the_stored_binding_on_a_conflict() {
    let state = match GameService::bind_start(5, "440".to_string()) {
        Step::Ask(state, Ask::GameExists { .. }) => state,
        _ => panic!("the game was not looked for"),
    };
    let state = match GameService::bind_resume(state, Told::Flag(Ok(true))) {
        Step::Ask(state, Ask::GetGame { .. }) => state,
        _ => panic!("the stored game was not asked for"),
    };
    let body = BindUserToGameSchema { user_id: 5, game_id: 3 };
    let state = match GameService::bind_resume(state, Told::Game(Ok(game_row(3)))) {
        Step::Ask(state, Ask::BindingExists { body: asked }) => {
            assert_eq!(asked, body);
            state
        }
        _ => panic!("the binding was not looked for"),
    };
    let state = match GameService::bind_resume(state, Told::Flag(Ok(false))) {
        Step::Ask(state, Ask::StoreBinding { body: asked }) => {
            assert_eq!(asked, body);
            state
        }
        _ => panic!("nothing was handed over"),
    };
    // Another caller bound the pair in the meantime.
    let state = match GameService::bind_resume(state, Told::Binding(Err(StoreError::UniqueViolation))) {
        Step::Ask(state, Ask::GetBinding { body: asked }) => {
            assert_eq!(asked, body);
            state
        }
        _ => panic!("the stored binding was not asked for"),
    };
    let binding = UserGamesModel { id: 11, user_id: 5, game_id: 3 };
    assert!(matches!(
        GameService::bind_resume(state, Told::Binding(Ok(binding))),
        Step::Done(Ok(b)) if b == binding
    ));
}

#[test]
fn binding_ends_when_the_game_cannot_be_mirrored() {
    let state = match GameService::bind_start(5, "440".to_string()) {
        Step::Ask(state, _) => state,
        Step::Done(_) => panic!("done too early"),
    };
    let state = match GameService::bind_resume(state, Told::Flag(Ok(false))) {
        Step::Ask(state, Ask::FetchGame { .. }) => state,
        _ => panic!("the platform was not called"),
    };
    let done = GameService::bind_resume(state, Told::Reply(replied(r#"{"440": {"success": false}}"#)));
    assert!(matches!(done, Step::Done(Err(CreateGameError::SteamGameNotFound))));
    let done = GameService::bind_resume(
        GameBinding::AwaitProbe { body: BindUserToGameSchema { user_id: 1, game_id: 2 } },
        Told::Flag(Ok(true)),
    );
    assert!(matches!(done, Step::Ask(GameBinding::AwaitExisting, Ask::GetBinding { .. })));
}

#[test]
fn synchronisation_passes_over_what_is_held_or_taken_meanwhile() {
    let state = match InventoryItemService::sync_start("765".to_string(), 753) {
        Step::Ask(state, Ask::InventoryOf { steam_id }) => {
            assert_eq!(steam_id, "765");
            state
        }
        _ => panic!("the container was not asked for"),
    };
    let state = match InventoryItemService::sync_resume(state, Told::InventoryId(Ok(Some(9)))) {
        Step::Ask(state, Ask::FetchInventory { steam_id, app_id }) => {
            assert_eq!(steam_id, "765");
            assert_eq!(app_id, 753);
            state
        }
        _ => panic!("the platform was not called"),
    };
    let state = match InventoryItemService::sync_resume(state, Told::Reply(replied(INVENTORY))) {
        Step::Ask(state, Ask::ItemExists { inventory_id, classid }) => {
            assert_eq!((inventory_id, classid.as_str()), (9, "100"));
            state
        }
        _ => panic!("the first class was not looked for"),
    };
    let state = match InventoryItemService::sync_resume(state, Told::Flag(Ok(false))) {
        Step::Ask(state, Ask::StoreItem { item }) => {
            assert_eq!(item.inventory_id, 9);
            assert_eq!(item.classid, "100");
            assert_eq!(item.app_id, "440");
            assert_eq!(item.name, "one");
            state
        }
        _ => panic!("nothing was handed over"),
    };
    // Another caller stored the class in the meantime: it is passed over.
    let state = match InventoryItemService::sync_resume(state, Told::Item(Err(StoreError::UniqueViolation))) {
        Step::Ask(state, Ask::ItemExists { classid, .. }) => {
            assert_eq!(classid, "200");
            state
        }
        _ => panic!("the second class was not looked for"),
    };
    let state = match InventoryItemService::sync_resume(state, Told::Flag(Ok(false))) {
        Step::Ask(state, Ask::StoreItem { item }) => {
            assert_eq!(item.classid, "200");
            state
        }
        _ => panic!("nothing was handed over"),
    };
    match InventoryItemService::sync_resume(state, Told::Item(Ok(item_row("200")))) {
        Step::Done(Ok(saved)) => {
            assert_eq!(saved.len(), 1);
            assert_eq!(saved[0].name, "item 200");
        }
        _ => panic!("the synchronisation did not end well"),
    }
}

#[test]
fn synchronisation_without_a_container_never_calls_the_platform() {
    let state = match InventoryItemService::sync_start("765".to_string(), 440) {
        Step::Ask(state, _) => state,
        Step::Done(_) => panic!("done too early"),
    };
    assert!(matches!(
        InventoryItemService::sync_resume(state, Told::InventoryId(Ok(None))),
        Step::Done(Err(CreateInventoryItemError::InventoryNotFound))
    ));
    let next = InventoryItemService::sync_resume(
        InventorySync::AwaitInventory { inventory_id: 9 },
        Told::Reply(replied(r#"{"success": 1}"#)),
    );
    assert!(matches!(next, Step::Done(Ok(saved)) if saved.is_empty()));
    let next = InventoryItemService::sync_resume(
        InventorySync::AwaitInventory { inventory_id: 9 },
        Told::Reply(replied(r#"{"success": 2}"#)),
    );
    assert!(matches!(next, Step::Done(Err(CreateInventoryItemError::InventoryNotFound))));
}

#[test]
fn refresh_lookup_deletion_and_patch_step_by_step() {
    let state = match UserService::update_start("765".to_string()) {
        Step::Ask(state, Ask::UserExists { .. }) => state,
        _ => panic!("the identity was not looked for"),
    };
    let state = match UserService::update_resume(state, Told::Flag(Ok(true))) {
        Step::Ask(state, Ask::FetchProfile { .. }) => state,
        _ => panic!("the platform was not called"),
    };
    let state = match UserService::update_resume(state, Told::Reply(replied(PROFILE))) {
        Step::Ask(state, Ask::UpdateUser { steam_id, patch }) => {
            assert_eq!(steam_id, "765");
            assert_eq!(patch.username.as_deref(), Some("Rabscuttle"));
            assert_eq!(patch.persona_state, Some(1));
            assert_eq!(patch.country, None);
            assert_eq!(patch.gameid.as_deref(), Some("440"));
            state
        }
        _ => panic!("nothing was handed over"),
    };
    assert!(matches!(
        UserService::update_resume(state, Told::User(Ok(user_row(None)))),
        Step::Done(Ok(_))
    ));
    let state = match UserService::update_start("765".to_string()) {
        Step::Ask(state, _) => state,
        Step::Done(_) => panic!("done too early"),
    };
    assert!(matches!(
        UserService::update_resume(state, Told::Flag(Ok(false))),
        Step::Done(Err(UpdateUserError::UserNotFound))
    ));

    let state = match UserService::get_start("765".to_string()) {
        Step::Ask(state, _) => state,
        Step::Done(_) => panic!("done too early"),
    };
    let state = match UserService::get_resume(state, Told::Flag(Ok(true))) {
        Step::Ask(state, Ask::GetUser { steam_id }) => {
            assert_eq!(steam_id, "765");
            state
        }
        _ => panic!("the identity was not asked for"),
    };
    assert!(matches!(
        UserService::get_resume(state, Told::User(Err(StoreError::Other("io".to_string())))),
        Step::Done(Err(GetUserError::DatabaseError(_)))
    ));

    let state = match UserService::delete_start(7) {
        Step::Ask(state, Ask::DeleteUser { user_id: 7 }) => state,
        _ => panic!("nothing was asked"),
    };
    assert!(matches!(
        UserService::delete_resume(state, Told::Deleted(Ok(0))),
        Step::Done(Err(DeleteUserError::UserNotFound))
    ));
}

#[test]
fn provision_of_a_container_step_by_step() {
    let state = match InventoryService::create_start("765".to_string()) {
        Step::Ask(state, Ask::HasInventory { steam_id }) => {
            assert_eq!(steam_id, "765");
            state
        }
        _ => panic!("the container was not looked for"),
    };
    let state = match InventoryService::create_resume(state, Told::Flag(Ok(false))) {
        Step::Ask(state, Ask::StoreInventory { steam_id }) => {
            assert_eq!(steam_id, "765");
            state
        }
        _ => panic!("nothing was handed over"),
    };
    let row = InventoryModel { id: 4, user_id: 255, created_at: 0, updated_at: 0 };
    match InventoryService::create_resume(state, Told::Inventory(Ok(row))) {
        Step::Done(Ok(created)) => {
            assert_eq!(created.inventory_id, 4);
            assert_eq!(created.steam_id, "00000000-0000-0000-0000-0000000000ff");
        }
        _ => panic!("the provision did not end well"),
    }
    let state = match InventoryService::create_start("765".to_string()) {
        Step::Ask(state, _) => state,
        Step::Done(_) => panic!("done too early"),
    };
    assert!(matches!(
        InventoryService::create_resume(state, Told::Flag(Ok(true))),
        Step::Done(Err(CreateInventoryError::InventoryAlreadyExists))
    ));
}
