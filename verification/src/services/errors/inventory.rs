//! Failures of the container engine.

use crate::services::errors::storage::StoreError;
use vstd::prelude::*;
use vstd::std_specs::convert::FromSpecImpl;

verus! {

/// Why a container could not be provided.
#[derive(Debug)]
pub enum CreateInventoryError {
    InventoryAlreadyExists,
    DatabaseError(StoreError),
}

impl From<StoreError> for CreateInventoryError {
    fn from(error: StoreError) -> (e: CreateInventoryError) {
        CreateInventoryError::DatabaseError(error)
    }
}

impl FromSpecImpl<StoreError> for CreateInventoryError {
    open spec fn obeys_from_spec() -> bool {
        true
    }

    open spec fn from_spec(error: StoreError) -> CreateInventoryError {
        CreateInventoryError::DatabaseError(error)
    }
}

} // verus!
