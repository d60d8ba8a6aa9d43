//! Why an operation of an engine fails.

pub mod games;
pub mod inventory;
pub mod inventory_items;
pub mod storage;
pub mod users;
