//! The table of inventory containers.

use crate::models::inventory::{CreateInventorySchema, InventoryModel};
use crate::repositories::table::{last_match, lemma_last_match, lemma_last_match_push};
use crate::repositories::user_repository::UserRepository;
use crate::services::errors::storage::StoreError;
use vstd::prelude::*;

verus! {

/// The containers that are stored. An identity has one container at most.
#[derive(Debug)]
pub struct InventoryRepository {
    pub rows: Vec<InventoryModel>,
    /// The key that the next new row gets.
    pub next_id: u128,
    /// The time with which new rows are stamped.
    pub now: i64,
}

/// The containers of a given identity.
pub open spec fn with_owner(user_id: u128) -> spec_fn(InventoryModel) -> bool {
    |row: InventoryModel| row.user_id == user_id
}

impl InventoryRepository {
    /// The table's invariant: an identity owns one container at most, local
    /// keys are unique and all below the next key.
    pub open spec fn wf(&self) -> bool {
        &&& forall|i: int, j: int|
            0 <= i < j < self.rows@.len() ==> (#[trigger] self.rows@[i]).user_id != (
            #[trigger] self.rows@[j]).user_id
        &&& forall|i: int| 0 <= i < self.rows@.len() ==> (#[trigger] self.rows@[i]).id
            < self.next_id
        &&& forall|i: int, j: int|
            0 <= i < j < self.rows@.len() ==> (#[trigger] self.rows@[i]).id != (
            #[trigger] self.rows@[j]).id
    }

    /// The container of the identity with a given local key.
    pub open spec fn owned_by(&self, user_id: u128) -> Option<InventoryModel> {
        match last_match(self.rows@, with_owner(user_id)) {
            Some(k) => Some(self.rows@[k]),
            None => None,
        }
    }

    /// The container of the identity with a given external identifier; there
    /// is none where the identity is not stored.
    pub open spec fn container_of(&self, users: UserRepository, steam_id: Seq<char>) -> Option<
        InventoryModel,
    > {
        if users.holds(steam_id) {
            self.owned_by(users.row(steam_id).id)
        } else {
            None
        }
    }

    /// Why a new container is refused, if it is.
    pub open spec fn refusal(&self, users: UserRepository, steam_id: Seq<char>) -> Option<
        StoreError,
    > {
        if !users.holds(steam_id) {
            Some(StoreError::RowNotFound)
        } else if self.container_of(users, steam_id) is Some {
            Some(StoreError::UniqueViolation)
        } else if self.next_id == u128::MAX {
            Some(StoreError::Exhausted)
        } else {
            None
        }
    }

    /// An empty table that stamps its rows with `now`.
    pub fn new(now: i64) -> (table: InventoryRepository)
        ensures
            table.wf(),
            table.rows@.len() == 0,
            table.next_id == 1,
            table.now == now,
    {
        InventoryRepository { rows: Vec::new(), next_id: 1, now }
    }

    fn position(&self, user_id: u128) -> (found: Option<usize>)
        ensures
            match found {
                Some(i) => last_match(self.rows@, with_owner(user_id)) == Some(i as int) && i
                    < self.rows@.len(),
                None => last_match(self.rows@, with_owner(user_id)) is None,
            },
    {
        let ghost hit = with_owner(user_id);
        let mut i: usize = self.rows.len();
        proof {
            assert(self.rows@.take(i as int) =~= self.rows@);
        }
        while i > 0
            invariant
                i <= self.rows@.len(),
                hit == with_owner(user_id),
                last_match(self.rows@, hit) == last_match(self.rows@.take(i as int), hit),
            decreases i,
        {
            i -= 1;
            proof {
                assert(self.rows@.take(i + 1).drop_last() =~= self.rows@.take(i as int));
                assert(self.rows@.take(i + 1).last() == self.rows@[i as int]);
            }
            if self.rows[i].user_id == user_id {
                return Some(i);
            }
        }
        None
    }

    /// Whether the identity with this external identifier has a container.
    pub fn check_if_user_has_inventory(&self, users: &UserRepository, steam_id: &str) -> (found:
        Result<bool, StoreError>)
        ensures
            found matches Ok(b) && b == (self.container_of(*users, steam_id@) is Some),
    {
        match users.id_of(steam_id) {
            Some(user_id) => Ok(self.position(user_id).is_some()),
            None => Ok(false),
        }
    }

    /// The key of the container of the identity with this external
    /// identifier, if it has one.
    pub fn get_inventory_id_by_steam_id(&self, users: &UserRepository, steam_id: &str) -> (found:
        Result<Option<u128>, StoreError>)
        ensures
            found matches Ok(id) && match id {
                Some(i) => self.container_of(*users, steam_id@) matches Some(row) && row.id == i,
                None => self.container_of(*users, steam_id@) is None,
            },
    {
        match users.id_of(steam_id) {
            Some(user_id) => match self.position(user_id) {
                Some(k) => Ok(Some(self.rows[k].id)),
                None => Ok(None),
            },
            None => Ok(None),
        }
    }

    /// Provides a container for the identity with the given external
    /// identifier. It is refused with `RowNotFound` where the identity is not
    /// stored, with `UniqueViolation` where it has a container already, and
    /// with `Exhausted` where no key is left.
    pub fn create_inventory(&mut self, users: &UserRepository, body: CreateInventorySchema) -> (stored:
        Result<InventoryModel, StoreError>)
        requires
            old(self).wf(),
        ensures
            final(self).wf(),
            final(self).now == old(self).now,
            match stored {
                Ok(row) => {
                    &&& old(self).refusal(*users, body.steam_id@) is None
                    &&& row == (InventoryModel {
                        id: old(self).next_id,
                        user_id: users.row(body.steam_id@).id,
                        created_at: old(self).now,
                        updated_at: old(self).now,
                    })
                    &&& final(self).rows@ == old(self).rows@.push(row)
                    &&& final(self).next_id == old(self).next_id + 1
                    &&& final(self).container_of(*users, body.steam_id@) == Some(row)
                },
                Err(e) => {
                    &&& old(self).refusal(*users, body.steam_id@) == Some(e)
                    &&& final(self).rows@ == old(self).rows@
                    &&& final(self).next_id == old(self).next_id
                },
            },
    {
        let user_id = match users.id_of(body.steam_id.as_str()) {
            Some(id) => id,
            None => { return Err(StoreError::RowNotFound); },
        };
        if self.position(user_id).is_some() {
            return Err(StoreError::UniqueViolation);
        }
        if self.next_id == u128::MAX {
            return Err(StoreError::Exhausted);
        }
        let row = InventoryModel {
            id: self.next_id,
            user_id,
            created_at: self.now,
            updated_at: self.now,
        };
        proof {
            lemma_last_match(self.rows@, with_owner(user_id));
            lemma_last_match_push(self.rows@, row, with_owner(user_id));
        }
        self.rows.push(row);
        self.next_id = self.next_id + 1;
        Ok(row)
    }
}

} // verus!
