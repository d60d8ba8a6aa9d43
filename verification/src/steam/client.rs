//! Reading the replies of the external platform: what a reply holds, and in
//! which ways there may be nothing to read.

use crate::json::{Json, json_tree};
use crate::steam::decode::{Decode, Fetched};
use crate::steam::steam_api_response::{players_in, SteamPlayer, SteamPlayerView, SteamResponse};
use crate::steam::steam_game_response::{GameData, GameDataView, SteamGameResponse};
use crate::steam::steam_inventory_response::{SteamInventoryResponse, SteamInventoryResponseView};
use vstd::prelude::*;

verus! {

/// Why a reply of the platform gives nothing to work with.
#[derive(Debug)]
pub enum UpstreamError {
    /// No reply came; a later try may succeed.
    UpstreamUnreachable(String),
    /// A reply came with a status that is no success.
    BadStatus(u16),
    /// The reply is no JSON document, or not of the expected shape: a field
    /// is missing, or a number is neither a whole number nor a string that
    /// spells one.
    Malformed,
    /// The platform knows no account for the identifier.
    UpstreamEmpty,
    /// The platform knows no application for the identifier.
    GameNotFound,
    /// The platform marks the inventory as not available, as it does for a
    /// private or an empty one.
    InventoryUnavailable,
}

/// The application id whose inventories live in another context.
pub const COMMUNITY_APP_ID: i32 = 753;

/// The context of the inventories of `COMMUNITY_APP_ID`.
pub const COMMUNITY_CONTEXT_ID: i32 = 6;

/// The context of the inventories of every other application.
pub const DEFAULT_CONTEXT_ID: i32 = 2;

/// The `success` value by which the platform marks an inventory as available.
pub const INVENTORY_AVAILABLE: i32 = 1;

/// The context in which the platform keeps the inventories of an application.
pub open spec fn context_of(app_id: int) -> int {
    if app_id == COMMUNITY_APP_ID {
        COMMUNITY_CONTEXT_ID as int
    } else {
        DEFAULT_CONTEXT_ID as int
    }
}

/// The context in which the platform keeps the inventories of an application.
pub fn context_id(app_id: i32) -> (context: i32)
    ensures
        context == context_of(app_id as int),
{
    if app_id == COMMUNITY_APP_ID {
        COMMUNITY_CONTEXT_ID
    } else {
        DEFAULT_CONTEXT_ID
    }
}

/// Whether a status is one of success: 200 to 299.
pub open spec fn is_success(status: u16) -> bool {
    200 <= status <= 299
}

/// The document of a reply, where a reply came and its body is JSON.
pub open spec fn document_of(reply: Fetched) -> Result<Json, UpstreamError> {
    match reply {
        Fetched::Failed(why) => Err(UpstreamError::UpstreamUnreachable(why)),
        Fetched::Replied { status, body } => match json_tree(body@) {
            Some(tree) => Ok(tree),
            None => Err(UpstreamError::Malformed),
        },
    }
}

/// The profile in a reply to a request for one account: the first of the
/// players that the reply lists.
pub open spec fn profile_in(reply: Fetched) -> Result<SteamPlayerView, UpstreamError> {
    match document_of(reply) {
        Err(e) => Err(e),
        Ok(tree) => match players_in(tree) {
            None => Err(UpstreamError::Malformed),
            Some(players) => if players.len() == 0 {
                Err(UpstreamError::UpstreamEmpty)
            } else {
                Ok(players[0])
            },
        },
    }
}

/// The details of an application in a reply to a request for that
/// application: the reply's member of that id must be an answer that
/// succeeded and has details.
pub open spec fn game_in(reply: Fetched, appid: Seq<char>) -> Result<GameDataView, UpstreamError> {
    match document_of(reply) {
        Err(e) => Err(e),
        Ok(tree) => match tree.field(appid) {
            None => Err(UpstreamError::GameNotFound),
            Some(entry) => match SteamGameResponse::decoded(entry) {
                None => Err(UpstreamError::Malformed),
                Some(answer) => if answer.success && answer.data is Some {
                    Ok(answer.data->Some_0)
                } else {
                    Err(UpstreamError::GameNotFound)
                },
            },
        },
    }
}

/// The inventory in a reply: the reply must have a status of success and
/// must mark the inventory as available.
pub open spec fn inventory_in(reply: Fetched) -> Result<SteamInventoryResponseView, UpstreamError> {
    match reply {
        Fetched::Failed(why) => Err(UpstreamError::UpstreamUnreachable(why)),
        Fetched::Replied { status, body } => if !is_success(status) {
            Err(UpstreamError::BadStatus(status))
        } else {
            match json_tree(body@) {
                None => Err(UpstreamError::Malformed),
                Some(tree) => match SteamInventoryResponse::decoded(tree) {
                    None => Err(UpstreamError::Malformed),
                    Some(inventory) => if inventory.success != INVENTORY_AVAILABLE {
                        Err(UpstreamError::InventoryUnavailable)
                    } else {
                        Ok(inventory)
                    },
                },
            }
        },
    }
}

fn read_document(reply: &Fetched) -> (document: Result<Json, UpstreamError>)
    ensures
        document == document_of(*reply),
{
    match reply {
        Fetched::Failed(why) => Err(UpstreamError::UpstreamUnreachable(why.clone())),
        Fetched::Replied { status, body } => match Json::parse(body.as_str()) {
            Some(tree) => Ok(tree),
            None => Err(UpstreamError::Malformed),
        },
    }
}

/// Reads the profile out of a reply to a request for one account.
pub fn read_profile(reply: &Fetched) -> (profile: Result<SteamPlayer, UpstreamError>)
    ensures
        match profile {
            Ok(player) => profile_in(*reply) == Ok::<SteamPlayerView, UpstreamError>(player@),
            Err(e) => profile_in(*reply) == Err::<SteamPlayerView, UpstreamError>(e),
        },
{
    let tree = match read_document(reply) {
        Ok(tree) => tree,
        Err(e) => { return Err(e); },
    };
    let response = match SteamResponse::decode(&tree) {
        Some(r) => r,
        None => { return Err(UpstreamError::Malformed); },
    };
    let mut players = response.response.players;
    if players.len() == 0 {
        return Err(UpstreamError::UpstreamEmpty);
    }
    let ghost all = players@;
    let first = players.remove(0);
    proof {
        assert(first == all[0]);
    }
    Ok(first)
}

/// Reads the details of an application out of a reply to a request for it.
pub fn read_game(reply: &Fetched, appid: &str) -> (game: Result<GameData, UpstreamError>)
    ensures
        match game {
            Ok(data) => game_in(*reply, appid@) == Ok::<GameDataView, UpstreamError>(data@),
            Err(e) => game_in(*reply, appid@) == Err::<GameDataView, UpstreamError>(e),
        },
{
    let tree = match read_document(reply) {
        Ok(tree) => tree,
        Err(e) => { return Err(e); },
    };
    let entry = match tree.get(appid) {
        Some(entry) => entry,
        None => { return Err(UpstreamError::GameNotFound); },
    };
    let answer = match SteamGameResponse::decode(entry) {
        Some(answer) => answer,
        None => { return Err(UpstreamError::Malformed); },
    };
    if !answer.success {
        return Err(UpstreamError::GameNotFound);
    }
    match answer.data {
        Some(data) => Ok(data),
        None => Err(UpstreamError::GameNotFound),
    }
}

/// Reads the inventory out of a reply.
pub fn read_inventory(reply: &Fetched) -> (inventory: Result<SteamInventoryResponse, UpstreamError>)
    ensures
        match inventory {
            Ok(found) => inventory_in(*reply) == Ok::<SteamInventoryResponseView, UpstreamError>(
                found@,
            ),
            Err(e) => inventory_in(*reply) == Err::<SteamInventoryResponseView, UpstreamError>(e),
        },
{
    match reply {
        Fetched::Failed(why) => Err(UpstreamError::UpstreamUnreachable(why.clone())),
        Fetched::Replied { status, body } => {
            if *status < 200 || *status > 299 {
                return Err(UpstreamError::BadStatus(*status));
            }
            let tree = match Json::parse(body.as_str()) {
                Some(tree) => tree,
                None => { return Err(UpstreamError::Malformed); },
            };
            let found = match SteamInventoryResponse::decode(&tree) {
                Some(found) => found,
                None => { return Err(UpstreamError::Malformed); },
            };
            if found.success != INVENTORY_AVAILABLE {
                return Err(UpstreamError::InventoryUnavailable);
            }
            Ok(found)
        },
    }
}

} // verus!
