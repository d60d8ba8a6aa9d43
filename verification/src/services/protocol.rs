//! How an engine talks to the world. An engine never touches the store or
//! the network: it asks, is told, and decides. Whoever runs an engine does
//! what it asks and hands back what came of it.

use crate::models::game::{BindUserToGameSchema, CreateGameSchema, GameModel, UserGamesModel};
use crate::models::inventory::InventoryModel;
use crate::models::inventory_items::{CreateItemSchema, InventoryItemModel};
use crate::models::user::{CreateUserSchema, UpdateUser, UserModel};
use crate::services::errors::storage::StoreError;
use crate::steam::decode::Fetched;
use vstd::prelude::*;

verus! {

/// What an engine asks for.
#[derive(Debug)]
pub enum Ask {
    /// Is an identity with this external identifier stored?
    UserExists { steam_id: String },
    /// The identity with this external identifier.
    GetUser { steam_id: String },
    /// Store this identity.
    StoreUser { user: CreateUserSchema },
    /// Write these fields to the identity with this external identifier.
    UpdateUser { steam_id: String, patch: UpdateUser },
    /// Delete the identity with this local key.
    DeleteUser { user_id: u128 },
    /// Is a game with this application id stored?
    GameExists { appid: String },
    /// The game with this application id.
    GetGame { appid: String },
    /// Store this game.
    StoreGame { game: CreateGameSchema },
    /// Is this identity bound to this game?
    BindingExists { body: BindUserToGameSchema },
    /// The binding of this identity to this game.
    GetBinding { body: BindUserToGameSchema },
    /// Store the binding of this identity to this game.
    StoreBinding { body: BindUserToGameSchema },
    /// Has the identity with this external identifier a container?
    HasInventory { steam_id: String },
    /// The key of the container of the identity with this external
    /// identifier.
    InventoryOf { steam_id: String },
    /// Store a container for the identity with this external identifier.
    StoreInventory { steam_id: String },
    /// Does this container hold an item of this class?
    ItemExists { inventory_id: u128, classid: String },
    /// Store this item.
    StoreItem { item: CreateItemSchema },
    /// Call the platform for the profile of this account.
    FetchProfile { steam_id: String },
    /// Call the platform for the details of this application.
    FetchGame { appid: String },
    /// Call the platform for the inventory of this account in this
    /// application.
    FetchInventory { steam_id: String, app_id: i32 },
}

/// What an engine is told in answer.
#[derive(Debug)]
pub enum Told {
    Flag(Result<bool, StoreError>),
    User(Result<UserModel, StoreError>),
    Deleted(Result<u64, StoreError>),
    Game(Result<GameModel, StoreError>),
    Binding(Result<UserGamesModel, StoreError>),
    InventoryId(Result<Option<u128>, StoreError>),
    Inventory(Result<InventoryModel, StoreError>),
    Item(Result<InventoryItemModel, StoreError>),
    Reply(Fetched),
}

/// Where an engine stands after a decision: it asks for something and waits
/// in a state, or it is done.
#[derive(Debug)]
pub enum Step<S, T> {
    Ask(S, Ask),
    Done(T),
}

/// The failure that stands for an answer that does not fit what was asked.
pub open spec fn is_misfit(e: StoreError) -> bool {
    e matches StoreError::Other(text) && text@ == "unexpected answer"@
}

/// The failure that stands for an answer that does not fit what was asked.
pub fn misfit() -> (e: StoreError)
    ensures
        is_misfit(e),
{
    StoreError::Other("unexpected answer".to_owned())
}

} // verus!
