use profile_mirror::models::game::{BindUserToGameSchema, UserGamesModel};
use profile_mirror::models::inventory_items::CreateItemSchema;
use profile_mirror::models::user::{CreateUserSchema, UpdateUser};
use profile_mirror::repositories::game_repository::GameRepository;
use profile_mirror::repositories::inventory_items::InventoryItemsRepository;
use profile_mirror::repositories::user_repository::UserRepository;
use profile_mirror::services::errors::storage::StoreError;

fn user(steam_id: &str) -> CreateUserSchema {
    CreateUserSchema {
        steam_id: steam_id.to_string(),
        personaname: format!("name of {}", steam_id),
        profileurl: "p".to_string(),
        avatar: "a".to_string(),
        personastate: 2,
        communityvisibilitystate: 3,
        formatted_steam_created_at: Some(11),
        gameid: Some("440".to_string()),
        gameextrainfo: Some("Team Fortress 2".to_string()),
        loccountrycode: Some("DE".to_string()),
    }
}

fn item(inventory_id: u128, classid: &str) -> CreateItemSchema {
    CreateItemSchema {
        inventory_id,
        app_id: "440".to_string(),
        classid: classid.to_string(),
        icon: "i".to_string(),
        name: "n".to_string(),
        color: "c".to_string(),
        item_type: "t".to_string(),
        description: "d".to_string(),
    }
}

#[test]
fn identifiers_are_unique() {
    let mut users = UserRepository::new(3);
    let first = users.create_user(user("a")).ok().unwrap();
    assert_eq!(first.id, 1);
    assert_eq!(first.username, "name of a");
    assert_eq!(first.current_game.as_deref(), Some("Team Fortress 2"));
    assert!(matches!(users.create_user(user("a")), Err(StoreError::UniqueViolation)));
    let second = users.create_user(user("b")).ok().unwrap();
    assert_eq!(second.id, 2);
    assert_eq!(users.rows.len(), 2);
    let mut nameless = user("c");
    nameless.formatted_steam_created_at = None;
    assert!(matches!(users.create_user(nameless), Err(StoreError::NullViolation)));
    users.next_id = u128::MAX;
    assert!(matches!(users.create_user(user("d")), Err(StoreError::Exhausted)));
    assert_eq!(users.rows.len(), 2);
}

#[test]
fn rows_are_found_by_their_identifier() {
    let mut users = UserRepository::new(3);
    users.create_user(user("a")).ok().unwrap();
    users.create_user(user("b")).ok().unwrap();
    let shown = users.get_user("b").ok().unwrap();
    assert_eq!(shown.steam_id, "b");
    assert_eq!(shown.username, "name of b");
    assert_eq!(shown.country.as_deref(), Some("DE"));
    assert_eq!(shown.steam_created_at, 11);
    assert!(matches!(users.get_user("c"), Err(StoreError::RowNotFound)));
    assert_eq!(users.get_row("a").ok().unwrap().id, 1);
    assert!(matches!(users.get_row("zz"), Err(StoreError::RowNotFound)));
    assert_eq!(users.id_of("b"), Some(2));
    assert_eq!(users.id_of("c"), None);
}

#[test]
fn update_writes_only_what_it_names() {
    let mut users = UserRepository::new(3);
    users.create_user(user("a")).ok().unwrap();
    users.create_user(user("b")).ok().unwrap();
    users.now = 8;
    let patch = UpdateUser {
        username: None,
        pf_url: Some("new".to_string()),
        avatar: None,
        persona_state: None,
        visibility: Some(1),
        current_game: None,
        country: Some("FR".to_string()),
        gameid: None,
    };
    let row = users.update_user("a", &patch).ok().unwrap();
    assert_eq!(row.username, "name of a");
    assert_eq!(row.pf_url, "new");
    assert_eq!(row.visibility, 1);
    assert_eq!(row.persona_state, 2);
    assert_eq!(row.country.as_deref(), Some("FR"));
    assert_eq!(row.gameid.as_deref(), Some("440"));
    assert_eq!(row.created_at, Some(3));
    assert_eq!(row.updated_at, Some(8));
    assert_eq!(users.rows[0].pf_url, "new");
    assert_eq!(users.rows[1].pf_url, "p");
    assert!(matches!(users.update_user("zz", &patch), Err(StoreError::RowNotFound)));
}

#[test]
fn delete_takes_one_row_out() {
    let mut users = UserRepository::new(3);
    users.create_user(user("a")).ok().unwrap();
    users.create_user(user("b")).ok().unwrap();
    users.create_user(user("c")).ok().unwrap();
    assert_eq!(users.delete_user(2).ok(), Some(1));
    assert_eq!(users.delete_user(2).ok(), Some(0));
    assert_eq!(users.rows.len(), 2);
    assert_eq!(users.rows[0].steam_id, "a");
    assert_eq!(users.rows[1].steam_id, "c");
}

#[test]
fn bindings_are_unique_by_pair() {
    let mut games = GameRepository::new();
    let body = BindUserToGameSchema { user_id: 1, game_id: 2 };
    assert!(matches!(games.get_binding(body), Err(StoreError::RowNotFound)));
    let stored = games.insert_binding(body).ok().unwrap();
    assert_eq!(stored, UserGamesModel { id: 1, user_id: 1, game_id: 2 });
    assert!(matches!(games.insert_binding(body), Err(StoreError::UniqueViolation)));
    assert_eq!(games.get_binding(body).ok(), Some(stored));
    assert_eq!(games.bind_user_to_game(body).ok(), Some(stored));
    assert_eq!(games.user_games.len(), 1);
}

#[test]
fn items_are_unique_by_container_and_class() {
    let mut items = InventoryItemsRepository::new(4);
    let first = items.create_items(item(1, "100")).ok().unwrap();
    assert_eq!(first.id, 1);
    assert_eq!(first.created_at, Some(4));
    assert!(matches!(items.create_items(item(1, "100")), Err(StoreError::UniqueViolation)));
    assert!(items.create_items(item(2, "100")).is_ok());
    assert!(items.create_items(item(1, "101")).is_ok());
    assert_eq!(items.rows.len(), 3);
    items.next_id = u128::MAX;
    assert!(matches!(items.create_items(item(3, "1")), Err(StoreError::Exhausted)));
}
