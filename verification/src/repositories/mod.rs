//! The store as the engines see it: tables of rows, each with a natural key
//! that is unique, and the operations that probe, fetch, insert, update and
//! delete by key. The tables are held in memory.

pub mod game_repository;
pub mod inventory_items;
pub mod inventory_repository;
pub mod table;
pub mod user_repository;
