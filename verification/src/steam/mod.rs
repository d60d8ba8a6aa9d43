//! What the external platform sends, decoded from its JSON replies.

pub mod client;
pub mod decode;
pub mod steam_api_response;
pub mod steam_game_response;
pub mod steam_inventory_response;
