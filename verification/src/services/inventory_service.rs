//! The container engine: an identity gets its inventory container by an
//! explicit step, once.

use crate::models::inventory::{CreateInventoryResponse, CreateInventorySchema};
use crate::repositories::inventory_repository::InventoryRepository;
use crate::repositories::user_repository::UserRepository;
use crate::services::errors::inventory::CreateInventoryError;
use crate::services::errors::storage::StoreError;
use crate::services::protocol::{Ask, is_misfit, misfit, Step, Told};
use vstd::prelude::*;

verus! {

pub struct InventoryService;

/// Where the provision of a container stands between two decisions.
#[derive(Debug)]
pub enum InventoryCreation {
    /// It was asked whether the identity has a container.
    AwaitProbe { steam_id: String },
    /// The store was asked to store a container.
    AwaitStore,
}

/// A step of the provision of a container.
pub type ProvisionStep = Step<InventoryCreation, Result<CreateInventoryResponse, CreateInventoryError>>;

/// The text of a 128-bit key written as a UUID: 32 hexadecimal digits in
/// five groups, with hyphens between them.
pub uninterp spec fn uuid_text(id: u128) -> Seq<char>;

/// `uuid::Uuid::from_u128` and its `to_string`: the key written as a UUID.
/// The text depends on the key alone.
#[verifier::external_body]
fn write_uuid(id: u128) -> (text: String)
    ensures
        text@ == uuid_text(id),
{
    uuid::Uuid::from_u128(id).to_string()
}

/// How the provision of a container goes on when it is told something.
///
/// Told that the identity has a container, it ends with
/// `InventoryAlreadyExists`. Told that a container was stored, it ends with
/// the container's key and the identity's local key, written as a UUID; told
/// that the store refused the container because the identity has one by
/// now, it ends with `InventoryAlreadyExists`. Told of any other failure of
/// the store, it ends with that failure.
pub open spec fn provision_resumed(state: InventoryCreation, told: Told, next: ProvisionStep)
    -> bool {
    match (state, told) {
        (InventoryCreation::AwaitProbe { .. }, Told::Flag(Ok(true))) => next matches Step::Done(
            Err(failure),
        ) && failure is InventoryAlreadyExists,
        (InventoryCreation::AwaitProbe { steam_id }, Told::Flag(Ok(false))) => next == Step::<
            InventoryCreation,
            Result<CreateInventoryResponse, CreateInventoryError>,
        >::Ask(InventoryCreation::AwaitStore, Ask::StoreInventory { steam_id }),
        (InventoryCreation::AwaitProbe { .. }, Told::Flag(Err(e))) => next matches Step::Done(
            Err(CreateInventoryError::DatabaseError(passed)),
        ) && passed == e,
        (InventoryCreation::AwaitStore, Told::Inventory(Ok(row))) => next matches Step::Done(
            Ok(response),
        ) && response.inventory_id == row.id && response.steam_id@ == uuid_text(row.user_id),
        (
            InventoryCreation::AwaitStore,
            Told::Inventory(Err(StoreError::UniqueViolation)),
        ) => next matches Step::Done(Err(failure)) && failure is InventoryAlreadyExists,
        (InventoryCreation::AwaitStore, Told::Inventory(Err(e))) => next matches Step::Done(
            Err(CreateInventoryError::DatabaseError(passed)),
        ) && passed == e,
        _ => next matches Step::Done(Err(CreateInventoryError::DatabaseError(e))) && is_misfit(e),
    }
}

impl InventoryService {
    /// Begins the provision of a container: it is asked whether the
    /// identity has one.
    pub fn create_start(steam_id: String) -> (step: ProvisionStep)
        ensures
            step matches Step::Ask(
                InventoryCreation::AwaitProbe { steam_id: kept },
                Ask::HasInventory { steam_id: asked },
            ) && kept == steam_id && asked@ == steam_id@,
    {
        let asked = steam_id.clone();
        Step::Ask(InventoryCreation::AwaitProbe { steam_id }, Ask::HasInventory { steam_id: asked })
    }

    /// Goes on with the provision of a container that was told something.
    pub fn create_resume(state: InventoryCreation, told: Told) -> (next: ProvisionStep)
        ensures
            provision_resumed(state, told, next),
    {
        match state {
            InventoryCreation::AwaitProbe { steam_id } => match told {
                Told::Flag(Ok(true)) => Step::Done(
                    Err(CreateInventoryError::InventoryAlreadyExists),
                ),
                Told::Flag(Ok(false)) => Step::Ask(
                    InventoryCreation::AwaitStore,
                    Ask::StoreInventory { steam_id },
                ),
                Told::Flag(Err(e)) => Step::Done(Err(CreateInventoryError::DatabaseError(e))),
                _ => Step::Done(Err(CreateInventoryError::DatabaseError(misfit()))),
            },
            InventoryCreation::AwaitStore => match told {
                Told::Inventory(Ok(row)) => Step::Done(
                    Ok(
                        CreateInventoryResponse {
                            steam_id: write_uuid(row.user_id),
                            inventory_id: row.id,
                        },
                    ),
                ),
                Told::Inventory(Err(StoreError::UniqueViolation)) => Step::Done(
                    Err(CreateInventoryError::InventoryAlreadyExists),
                ),
                Told::Inventory(Err(e)) => Step::Done(
                    Err(CreateInventoryError::DatabaseError(e)),
                ),
                _ => Step::Done(Err(CreateInventoryError::DatabaseError(misfit()))),
            },
        }
    }

    /// Provides the container of an identity in the tables in memory. An
    /// identity that has one is refused as `InventoryAlreadyExists`; an
    /// identifier that is not stored is refused by the store.
    pub fn create_inventory(
        inventories: &mut InventoryRepository,
        users: &UserRepository,
        steam_id: String,
    ) -> (created: Result<CreateInventoryResponse, CreateInventoryError>)
        requires
            old(inventories).wf(),
        ensures
            final(inventories).wf(),
            final(inventories).now == old(inventories).now,
            match created {
                Ok(response) => {
                    &&& old(inventories).refusal(*users, steam_id@) is None
                    &&& response.inventory_id == old(inventories).next_id
                    &&& response.steam_id@ == uuid_text(users.row(steam_id@).id)
                    &&& final(inventories).rows@.len() == old(inventories).rows@.len() + 1
                    &&& final(inventories).container_of(*users, steam_id@) matches Some(row)
                        && row.id == response.inventory_id
                },
                Err(failure) => {
                    &&& final(inventories).rows@ == old(inventories).rows@
                    &&& final(inventories).next_id == old(inventories).next_id
                    &&& match old(inventories).refusal(*users, steam_id@) {
                        Some(StoreError::UniqueViolation) => failure is InventoryAlreadyExists,
                        Some(e) => failure == CreateInventoryError::DatabaseError(e),
                        None => false,
                    }
                },
            },
    {
        let (state, asked) = match Self::create_start(steam_id) {
            Step::Ask(state, Ask::HasInventory { steam_id: asked }) => (state, asked),
            _ => { return Err(CreateInventoryError::DatabaseError(misfit())); },
        };
        let probed = inventories.check_if_user_has_inventory(users, asked.as_str());
        match Self::create_resume(state, Told::Flag(probed)) {
            Step::Done(done) => done,
            Step::Ask(state, Ask::StoreInventory { steam_id: owner }) => {
                let stored = inventories.create_inventory(
                    users,
                    CreateInventorySchema { steam_id: owner },
                );
                match Self::create_resume(state, Told::Inventory(stored)) {
                    Step::Done(done) => done,
                    Step::Ask(_, _) => Err(CreateInventoryError::DatabaseError(misfit())),
                }
            },
            Step::Ask(_, _) => Err(CreateInventoryError::DatabaseError(misfit())),
        }
    }
}

} // verus!
