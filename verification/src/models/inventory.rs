//! Inventory containers: one for an identity at most.

use vstd::prelude::*;

verus! {

/// A stored container.
#[derive(Clone, Copy, Debug, PartialEq, Eq, Structural)]
pub struct InventoryModel {
    pub id: u128,
    pub user_id: u128,
    pub created_at: i64,
    pub updated_at: i64,
}

/// A request to provide a container for an identity.
#[derive(Debug)]
pub struct CreateInventorySchema {
    pub steam_id: String,
}

/// What the creation of a container reports back: the local key of the
/// identity, written as a UUID, and the key of the container.
#[derive(Debug)]
pub struct CreateInventoryResponse {
    pub steam_id: String,
    pub inventory_id: u128,
}

} // verus!
