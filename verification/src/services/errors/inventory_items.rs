//! Failures of the inventory engine.

use crate::services::errors::storage::StoreError;
use vstd::prelude::*;
use vstd::std_specs::convert::FromSpecImpl;

verus! {

/// Why an inventory could not be synchronised.
#[derive(Debug)]
pub enum CreateInventoryItemError {
    InventoryItemAlreadyExists,
    DatabaseError(StoreError),
    /// The platform could not be reached, or its reply could not be read.
    SteamApiError(String),
    /// The identity has no container, or the platform reports the inventory
    /// as unavailable.
    InventoryNotFound,
}

impl From<StoreError> for CreateInventoryItemError {
    fn from(error: StoreError) -> (e: CreateInventoryItemError) {
        CreateInventoryItemError::DatabaseError(error)
    }
}

impl FromSpecImpl<StoreError> for CreateInventoryItemError {
    open spec fn obeys_from_spec() -> bool {
        true
    }

    open spec fn from_spec(error: StoreError) -> CreateInventoryItemError {
        CreateInventoryItemError::DatabaseError(error)
    }
}

} // verus!
