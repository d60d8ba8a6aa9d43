//! The engines: what is decided between the store and the external platform.

pub mod errors;
pub mod game_service;
pub mod inventory_items_service;
pub mod inventory_service;
pub mod protocol;
pub mod user_service;
