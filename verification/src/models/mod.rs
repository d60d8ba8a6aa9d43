//! The records that are stored, and the records that requests and replies carry.

pub mod admin;
pub mod game;
pub mod inventory;
pub mod inventory_items;
pub mod response_status;
pub mod user;
