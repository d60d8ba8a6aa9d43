//! The table of identities.

use crate::models::user::{copy_optional_text, CreateUserSchema, GetUser, UpdateUser, UserModel};
use crate::repositories::table::{
    last_match, lemma_last_match, lemma_last_match_push, lemma_none_matches,
};
use crate::services::errors::storage::StoreError;
use vstd::prelude::*;

verus! {

/// The identities that are stored. No two rows have the same `steam_id`, and
/// no two the same `id`.
#[derive(Debug)]
pub struct UserRepository {
    pub rows: Vec<UserModel>,
    /// The key that the next new row gets.
    pub next_id: u128,
    /// The time with which new and changed rows are stamped.
    pub now: i64,
}

/// The rows with a given external identifier.
pub open spec fn with_steam_id(steam_id: Seq<char>) -> spec_fn(UserModel) -> bool {
    |row: UserModel| row.steam_id@ == steam_id
}

/// The rows with a given local key.
pub open spec fn with_user_id(id: u128) -> spec_fn(UserModel) -> bool {
    |row: UserModel| row.id == id
}

/// The row that a new identity is stored as.
pub open spec fn stored_user(body: CreateUserSchema, id: u128, now: i64) -> UserModel {
    UserModel {
        id,
        steam_id: body.steam_id,
        username: body.personaname,
        pf_url: body.profileurl,
        avatar: body.avatar,
        persona_state: body.personastate,
        visibility: body.communityvisibilitystate,
        steam_created_at: body.formatted_steam_created_at->Some_0,
        gameid: body.gameid,
        current_game: body.gameextrainfo,
        country: body.loccountrycode,
        created_at: Some(now),
        updated_at: Some(now),
    }
}

/// A row after an update: a field that the update names replaces the stored
/// one, a field that it leaves out stays as it is.
pub open spec fn merged_user(row: UserModel, patch: UpdateUser, now: i64) -> UserModel {
    UserModel {
        id: row.id,
        steam_id: row.steam_id,
        username: match patch.username {
            Some(v) => v,
            None => row.username,
        },
        pf_url: match patch.pf_url {
            Some(v) => v,
            None => row.pf_url,
        },
        avatar: match patch.avatar {
            Some(v) => v,
            None => row.avatar,
        },
        persona_state: match patch.persona_state {
            Some(v) => v,
            None => row.persona_state,
        },
        visibility: match patch.visibility {
            Some(v) => v,
            None => row.visibility,
        },
        steam_created_at: row.steam_created_at,
        gameid: match patch.gameid {
            Some(v) => Some(v),
            None => row.gameid,
        },
        current_game: match patch.current_game {
            Some(v) => Some(v),
            None => row.current_game,
        },
        country: match patch.country {
            Some(v) => Some(v),
            None => row.country,
        },
        created_at: row.created_at,
        updated_at: Some(now),
    }
}

impl UserRepository {
    /// The table's invariant: external identifiers are unique, local keys are
    /// unique and all below the next key.
    pub open spec fn wf(&self) -> bool {
        &&& forall|i: int, j: int|
            0 <= i < j < self.rows@.len() ==> (#[trigger] self.rows@[i]).steam_id@ != (
            #[trigger] self.rows@[j]).steam_id@
        &&& forall|i: int| 0 <= i < self.rows@.len() ==> (#[trigger] self.rows@[i]).id
            < self.next_id
        &&& forall|i: int, j: int|
            0 <= i < j < self.rows@.len() ==> (#[trigger] self.rows@[i]).id != (
            #[trigger] self.rows@[j]).id
    }

    /// Where the row of an external identifier stands.
    pub open spec fn find(&self, steam_id: Seq<char>) -> Option<int> {
        last_match(self.rows@, with_steam_id(steam_id))
    }

    /// Whether an external identifier is stored.
    pub open spec fn holds(&self, steam_id: Seq<char>) -> bool {
        self.find(steam_id) is Some
    }

    /// The row of an external identifier that is stored.
    pub open spec fn row(&self, steam_id: Seq<char>) -> UserModel
        recommends
            self.holds(steam_id),
    {
        self.rows@[self.find(steam_id)->Some_0]
    }

    /// Why a new identity is refused, if it is.
    pub open spec fn refusal(&self, body: CreateUserSchema) -> Option<StoreError> {
        if self.holds(body.steam_id@) {
            Some(StoreError::UniqueViolation)
        } else if body.formatted_steam_created_at is None {
            Some(StoreError::NullViolation)
        } else if self.next_id == u128::MAX {
            Some(StoreError::Exhausted)
        } else {
            None
        }
    }

    /// An empty table that stamps its rows with `now`.
    pub fn new(now: i64) -> (table: UserRepository)
        ensures
            table.wf(),
            table.rows@.len() == 0,
            table.next_id == 1,
            table.now == now,
    {
        UserRepository { rows: Vec::new(), next_id: 1, now }
    }

    fn position(&self, steam_id: &str) -> (found: Option<usize>)
        ensures
            match found {
                Some(i) => self.find(steam_id@) == Some(i as int) && i < self.rows@.len(),
                None => self.find(steam_id@) is None,
            },
    {
        let wanted = steam_id.to_owned();
        let ghost hit = with_steam_id(steam_id@);
        let mut i: usize = self.rows.len();
        proof {
            assert(self.rows@.take(i as int) =~= self.rows@);
        }
        while i > 0
            invariant
                i <= self.rows@.len(),
                wanted@ == steam_id@,
                hit == with_steam_id(steam_id@),
                last_match(self.rows@, hit) == last_match(self.rows@.take(i as int), hit),
            decreases i,
        {
            i -= 1;
            proof {
                assert(self.rows@.take(i + 1).drop_last() =~= self.rows@.take(i as int));
                assert(self.rows@.take(i + 1).last() == self.rows@[i as int]);
            }
            if self.rows[i].steam_id == wanted {
                return Some(i);
            }
        }
        None
    }

    fn position_of_id(&self, id: u128) -> (found: Option<usize>)
        ensures
            match found {
                Some(i) => last_match(self.rows@, with_user_id(id)) == Some(i as int) && i
                    < self.rows@.len(),
                None => last_match(self.rows@, with_user_id(id)) is None,
            },
    {
        let ghost hit = with_user_id(id);
        let mut i: usize = self.rows.len();
        proof {
            assert(self.rows@.take(i as int) =~= self.rows@);
        }
        while i > 0
            invariant
                i <= self.rows@.len(),
                hit == with_user_id(id),
                last_match(self.rows@, hit) == last_match(self.rows@.take(i as int), hit),
            decreases i,
        {
            i -= 1;
            proof {
                assert(self.rows@.take(i + 1).drop_last() =~= self.rows@.take(i as int));
                assert(self.rows@.take(i + 1).last() == self.rows@[i as int]);
            }
            if self.rows[i].id == id {
                return Some(i);
            }
        }
        None
    }

    /// Whether an identity with this external identifier is stored.
    pub fn check_if_user_exits(&self, steam_id: &str) -> (found: Result<bool, StoreError>)
        ensures
            found matches Ok(b) && b == self.holds(steam_id@),
    {
        Ok(self.position(steam_id).is_some())
    }

    /// The local key of the identity with this external identifier.
    pub fn id_of(&self, steam_id: &str) -> (found: Option<u128>)
        ensures
            match found {
                Some(id) => self.holds(steam_id@) && id == self.row(steam_id@).id,
                None => !self.holds(steam_id@),
            },
    {
        match self.position(steam_id) {
            Some(i) => Some(self.rows[i].id),
            None => None,
        }
    }

    /// Stores a new identity. It is refused with `UniqueViolation` where its
    /// external identifier is stored already, with `NullViolation` where it
    /// has no creation time, and with `Exhausted` where no key is left.
    pub fn create_user(&mut self, body: CreateUserSchema) -> (stored: Result<UserModel, StoreError>)
        requires
            old(self).wf(),
        ensures
            final(self).wf(),
            final(self).now == old(self).now,
            match stored {
                Ok(row) => {
                    &&& old(self).refusal(body) is None
                    &&& row == stored_user(body, old(self).next_id, old(self).now)
                    &&& final(self).rows@ == old(self).rows@.push(row)
                    &&& final(self).next_id == old(self).next_id + 1
                    &&& final(self).holds(body.steam_id@)
                },
                Err(e) => {
                    &&& old(self).refusal(body) == Some(e)
                    &&& final(self).rows@ == old(self).rows@
                    &&& final(self).next_id == old(self).next_id
                },
            },
    {
        if self.position(body.steam_id.as_str()).is_some() {
            return Err(StoreError::UniqueViolation);
        }
        let steam_created_at = match body.formatted_steam_created_at {
            Some(t) => t,
            None => { return Err(StoreError::NullViolation); },
        };
        if self.next_id == u128::MAX {
            return Err(StoreError::Exhausted);
        }
        let row = UserModel {
            id: self.next_id,
            steam_id: body.steam_id,
            username: body.personaname,
            pf_url: body.profileurl,
            avatar: body.avatar,
            persona_state: body.personastate,
            visibility: body.communityvisibilitystate,
            steam_created_at,
            gameid: body.gameid,
            current_game: body.gameextrainfo,
            country: body.loccountrycode,
            created_at: Some(self.now),
            updated_at: Some(self.now),
        };
        proof {
            lemma_last_match(self.rows@, with_steam_id(row.steam_id@));
            lemma_last_match_push(self.rows@, row, with_steam_id(row.steam_id@));
        }
        self.rows.push(row.copy());
        self.next_id = self.next_id + 1;
        Ok(row)
    }

    /// Deletes the identity with this local key and says how many rows went:
    /// one, or none where the key is not stored.
    pub fn delete_user(&mut self, user_id: u128) -> (deleted: Result<u64, StoreError>)
        requires
            old(self).wf(),
        ensures
            final(self).wf(),
            final(self).now == old(self).now,
            final(self).next_id == old(self).next_id,
            match last_match(old(self).rows@, with_user_id(user_id)) {
                Some(i) => deleted matches Ok(n) && n == 1 && final(self).rows@ == old(self).rows@.remove(i),
                None => deleted matches Ok(n) && n == 0 && final(self).rows@ == old(self).rows@,
            },
            last_match(final(self).rows@, with_user_id(user_id)) is None,
    {
        match self.position_of_id(user_id) {
            Some(i) => {
                let ghost before = self.rows@;
                proof {
                    lemma_last_match(before, with_user_id(user_id));
                }
                let _gone = self.rows.remove(i);
                proof {
                    let after = self.rows@;
                    assert forall|k: int| 0 <= k < after.len() implies #[trigger] after[k] == (if k
                        < i {
                        before[k]
                    } else {
                        before[k + 1]
                    }) by {}
                    assert forall|k: int| 0 <= k < after.len() implies !with_user_id(user_id)(
                        #[trigger] after[k],
                    ) by {
                        if k < i {
                            assert(before[k].id != before[i as int].id);
                        } else {
                            assert(before[i as int].id != before[k + 1].id);
                        }
                    }
                    lemma_none_matches(after, with_user_id(user_id));
                }
                Ok(1)
            },
            None => Ok(0),
        }
    }

    /// The identity with this external identifier as it is shown, or
    /// `RowNotFound`.
    pub fn get_user(&self, steam_id: &str) -> (found: Result<GetUser, StoreError>)
        ensures
            match found {
                Ok(user) => {
                    &&& self.holds(steam_id@)
                    &&& user.steam_id == self.row(steam_id@).steam_id
                    &&& user.username == self.row(steam_id@).username
                    &&& user.avatar == self.row(steam_id@).avatar
                    &&& user.pf_url == self.row(steam_id@).pf_url
                    &&& user.country == self.row(steam_id@).country
                    &&& user.current_game == self.row(steam_id@).current_game
                    &&& user.persona_state == self.row(steam_id@).persona_state
                    &&& user.visibility == self.row(steam_id@).visibility
                    &&& user.steam_created_at == self.row(steam_id@).steam_created_at
                },
                Err(e) => !self.holds(steam_id@) && e is RowNotFound,
            },
    {
        match self.position(steam_id) {
            Some(i) => Ok(self.rows[i].shown()),
            None => Err(StoreError::RowNotFound),
        }
    }

    /// The row of the identity with this external identifier, or
    /// `RowNotFound`.
    pub fn get_row(&self, steam_id: &str) -> (found: Result<UserModel, StoreError>)
        ensures
            match found {
                Ok(row) => self.holds(steam_id@) && row == self.row(steam_id@),
                Err(e) => !self.holds(steam_id@) && e is RowNotFound,
            },
    {
        match self.position(steam_id) {
            Some(i) => Ok(self.rows[i].copy()),
            None => Err(StoreError::RowNotFound),
        }
    }

    /// Updates the identity with this external identifier: the fields that
    /// the update names are written, the others stay. `RowNotFound` where the
    /// identifier is not stored.
    pub fn update_user(&mut self, steam_id: &str, patch: &UpdateUser) -> (updated: Result<
        UserModel,
        StoreError,
    >)
        requires
            old(self).wf(),
        ensures
            final(self).wf(),
            final(self).now == old(self).now,
            final(self).next_id == old(self).next_id,
            match updated {
                Ok(row) => {
                    &&& old(self).holds(steam_id@)
                    &&& row == merged_user(old(self).row(steam_id@), *patch, old(self).now)
                    &&& final(self).rows@ == old(self).rows@.update(
                        old(self).find(steam_id@)->Some_0,
                        row,
                    )
                },
                Err(e) => !old(self).holds(steam_id@) && e is RowNotFound && final(self).rows@
                    == old(self).rows@,
            },
    {
        let i = match self.position(steam_id) {
            Some(i) => i,
            None => { return Err(StoreError::RowNotFound); },
        };
        let current = &self.rows[i];
        let row = UserModel {
            id: current.id,
            steam_id: current.steam_id.clone(),
            username: match &patch.username {
                Some(v) => v.clone(),
                None => current.username.clone(),
            },
            pf_url: match &patch.pf_url {
                Some(v) => v.clone(),
                None => current.pf_url.clone(),
            },
            avatar: match &patch.avatar {
                Some(v) => v.clone(),
                None => current.avatar.clone(),
            },
            persona_state: match patch.persona_state {
                Some(v) => v,
                None => current.persona_state,
            },
            visibility: match patch.visibility {
                Some(v) => v,
                None => current.visibility,
            },
            steam_created_at: current.steam_created_at,
            gameid: match &patch.gameid {
                Some(v) => Some(v.clone()),
                None => copy_optional_text(&current.gameid),
            },
            current_game: match &patch.current_game {
                Some(v) => Some(v.clone()),
                None => copy_optional_text(&current.current_game),
            },
            country: match &patch.country {
                Some(v) => Some(v.clone()),
                None => copy_optional_text(&current.country),
            },
            created_at: current.created_at,
            updated_at: Some(self.now),
        };
        let copy = row.copy();
        self.rows.set(i, copy);
        Ok(row)
    }
}

} // verus!
