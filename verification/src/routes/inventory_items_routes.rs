//! The inventory route: how the failures of the inventory engine are
//! reported.

use crate::routes::rejection::{CONFLICT, INTERNAL_SERVER_ERROR, NOT_FOUND, Rejection};
use crate::models::inventory_items::ItemCreationResponse;
use crate::services::errors::inventory_items::CreateInventoryItemError;
use vstd::prelude::*;
use vstd::string::*;

verus! {

/// A request to synchronise an inventory.
#[derive(Debug)]
pub struct FetchInventoryRequest {
    pub steam_id: String,
    pub app_id: i32,
}

/// Whether a rejection reports a failure to synchronise an inventory.
pub open spec fn reported_sync(failure: CreateInventoryItemError, reply: Rejection) -> bool {
    match failure {
        CreateInventoryItemError::InventoryNotFound => reply.says(
            NOT_FOUND,
            "Steam inventory not found or is private"@,
        ),
        CreateInventoryItemError::SteamApiError(message) => reply.says(
            INTERNAL_SERVER_ERROR,
            "Steam API error: "@ + message@,
        ),
        CreateInventoryItemError::DatabaseError(e) => reply.says(
            INTERNAL_SERVER_ERROR,
            "Database error: "@ + e.description(),
        ),
        CreateInventoryItemError::InventoryItemAlreadyExists => reply.says(
            CONFLICT,
            "Inventory item already exists"@,
        ),
    }
}

/// How a failure to synchronise an inventory is reported. An inventory that
/// is private, empty or without a container is 404: it is an expected
/// outcome, not a fault of the service.
pub fn fetch_inventory_failure(failure: &CreateInventoryItemError) -> (reply: Rejection)
    ensures
        reported_sync(*failure, reply),
{
    match failure {
        CreateInventoryItemError::InventoryNotFound => Rejection {
            status: NOT_FOUND,
            message: "Steam inventory not found or is private".to_owned(),
        },
        CreateInventoryItemError::SteamApiError(message) => Rejection {
            status: INTERNAL_SERVER_ERROR,
            message: "Steam API error: ".to_owned().concat(message.as_str()),
        },
        CreateInventoryItemError::DatabaseError(e) => {
            let text = e.describe();
            Rejection {
                status: INTERNAL_SERVER_ERROR,
                message: "Database error: ".to_owned().concat(text.as_str()),
            }
        },
        CreateInventoryItemError::InventoryItemAlreadyExists => Rejection {
            status: CONFLICT,
            message: "Inventory item already exists".to_owned(),
        },
    }
}

/// The reply to a request to synchronise an inventory, given what the engine
/// made of it: the new items, or the report of the failure.
pub fn fetch_inventory(outcome: Result<Vec<ItemCreationResponse>, CreateInventoryItemError>) -> (reply:
    Result<Vec<ItemCreationResponse>, Rejection>)
    ensures
        match outcome {
            Ok(items) => reply == Ok::<Vec<ItemCreationResponse>, Rejection>(items),
            Err(failure) => reply matches Err(r) && reported_sync(failure, r),
        },
{
    match outcome {
        Ok(items) => Ok(items),
        Err(failure) => Err(fetch_inventory_failure(&failure)),
    }
}

} // verus!
