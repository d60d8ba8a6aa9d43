//! The table of games, and the table that binds identities to games.

use crate::models::game::{BindUserToGameSchema, CreateGameSchema, GameModel, UserGamesModel};
use crate::repositories::table::{
    at_most_one, count_matches, last_match, lemma_count_one, lemma_last_match,
    lemma_last_match_push,
};
use crate::services::errors::storage::StoreError;
use vstd::prelude::*;

verus! {

/// The games that are stored, and the bindings of identities to games. No
/// two games have the same `appid`; no two bindings join the same identity to
/// the same game.
#[derive(Debug)]
pub struct GameRepository {
    pub games: Vec<GameModel>,
    pub user_games: Vec<UserGamesModel>,
    /// The key that the next new row gets, of either table.
    pub next_id: u128,
}

/// The games with a given external application id.
pub open spec fn with_appid(appid: Seq<char>) -> spec_fn(GameModel) -> bool {
    |row: GameModel| row.appid@ == appid
}

/// The games with a given local key.
pub open spec fn with_game_id(id: u128) -> spec_fn(GameModel) -> bool {
    |row: GameModel| row.id == id
}

/// The bindings of a given identity to a given game.
pub open spec fn with_pair(user_id: u128, game_id: u128) -> spec_fn(UserGamesModel) -> bool {
    |row: UserGamesModel| row.user_id == user_id && row.game_id == game_id
}

/// No two bindings join the same identity to the same game.
pub open spec fn pairs_unique(bindings: Seq<UserGamesModel>) -> bool {
    forall|i: int, j: int|
        0 <= i < j < bindings.len() ==> !((#[trigger] bindings[i]).user_id == (
        #[trigger] bindings[j]).user_id && bindings[i].game_id == bindings[j].game_id)
}

/// What binding an identity to a game returns: the binding that is there,
/// or a new one with the next key; `Exhausted` where a new one is needed and
/// no key is left.
pub open spec fn bind_result(
    bindings: Seq<UserGamesModel>,
    next_id: u128,
    body: BindUserToGameSchema,
) -> Result<UserGamesModel, StoreError> {
    match last_match(bindings, with_pair(body.user_id, body.game_id)) {
        Some(i) => Ok(bindings[i]),
        None => if next_id == u128::MAX {
            Err(StoreError::Exhausted)
        } else {
            Ok(UserGamesModel { id: next_id, user_id: body.user_id, game_id: body.game_id })
        },
    }
}

/// The bindings after an identity was bound to a game: as before where the
/// binding was there or could not be made, else with the new binding at the
/// end.
pub open spec fn bind_rows(
    bindings: Seq<UserGamesModel>,
    next_id: u128,
    body: BindUserToGameSchema,
) -> Seq<UserGamesModel> {
    match last_match(bindings, with_pair(body.user_id, body.game_id)) {
        Some(_) => bindings,
        None => if next_id == u128::MAX {
            bindings
        } else {
            bindings.push(
                UserGamesModel { id: next_id, user_id: body.user_id, game_id: body.game_id },
            )
        },
    }
}

/// The next key after an identity was bound to a game.
pub open spec fn bind_next_id(
    bindings: Seq<UserGamesModel>,
    next_id: u128,
    body: BindUserToGameSchema,
) -> u128 {
    if last_match(bindings, with_pair(body.user_id, body.game_id)) is None && next_id
        < u128::MAX {
        (next_id + 1) as u128
    } else {
        next_id
    }
}

/// Binding the same identity to the same game a second time changes nothing
/// and returns what the first binding returned; the table then holds exactly
/// one binding of the two.
pub proof fn law_bind_is_idempotent(
    bindings: Seq<UserGamesModel>,
    next_id: u128,
    body: BindUserToGameSchema,
)
    requires
        pairs_unique(bindings),
        bind_result(bindings, next_id, body) is Ok,
    ensures
        ({
            let after = bind_rows(bindings, next_id, body);
            let after_id = bind_next_id(bindings, next_id, body);
            &&& bind_rows(after, after_id, body) == after
            &&& bind_next_id(after, after_id, body) == after_id
            &&& bind_result(after, after_id, body) == bind_result(bindings, next_id, body)
            &&& count_matches(after, with_pair(body.user_id, body.game_id)) == 1
            &&& pairs_unique(after)
        }),
{
    let hit = with_pair(body.user_id, body.game_id);
    let after = bind_rows(bindings, next_id, body);
    lemma_last_match(bindings, hit);
    if last_match(bindings, hit) is None {
        let row = UserGamesModel { id: next_id, user_id: body.user_id, game_id: body.game_id };
        lemma_last_match_push(bindings, row, hit);
        assert forall|i: int, j: int| 0 <= i < j < after.len() implies !((
        #[trigger] after[i]).user_id == (#[trigger] after[j]).user_id && after[i].game_id
            == after[j].game_id) by {
            if j == bindings.len() {
                assert(after[i] == bindings[i]);
                assert(!hit(bindings[i]));
            } else {
                assert(after[i] == bindings[i]);
                assert(after[j] == bindings[j]);
            }
        }
    }
    assert(at_most_one(after, hit)) by {
        assert forall|i: int, j: int| 0 <= i < j < after.len() implies !(hit(#[trigger] after[i])
            && hit(#[trigger] after[j])) by {}
    }
    lemma_count_one(after, hit);
}

impl GameRepository {
    /// The tables' invariant: application ids are unique, bindings are
    /// unique, local keys are unique and all below the next key.
    pub open spec fn wf(&self) -> bool {
        &&& forall|i: int, j: int|
            0 <= i < j < self.games@.len() ==> (#[trigger] self.games@[i]).appid@ != (
            #[trigger] self.games@[j]).appid@
        &&& forall|i: int| 0 <= i < self.games@.len() ==> (#[trigger] self.games@[i]).id
            < self.next_id
        &&& forall|i: int, j: int|
            0 <= i < j < self.games@.len() ==> (#[trigger] self.games@[i]).id != (
            #[trigger] self.games@[j]).id
        &&& pairs_unique(self.user_games@)
        &&& forall|i: int| 0 <= i < self.user_games@.len() ==> (#[trigger] self.user_games@[i]).id
            < self.next_id
    }

    /// Where the game of an application id stands.
    pub open spec fn find(&self, appid: Seq<char>) -> Option<int> {
        last_match(self.games@, with_appid(appid))
    }

    /// Whether an application id is stored.
    pub open spec fn holds(&self, appid: Seq<char>) -> bool {
        self.find(appid) is Some
    }

    /// The game of an application id that is stored.
    pub open spec fn game(&self, appid: Seq<char>) -> GameModel
        recommends
            self.holds(appid),
    {
        self.games@[self.find(appid)->Some_0]
    }

    /// Whether an identity is bound to a game.
    pub open spec fn binds(&self, user_id: u128, game_id: u128) -> bool {
        last_match(self.user_games@, with_pair(user_id, game_id)) is Some
    }

    /// Empty tables.
    pub fn new() -> (tables: GameRepository)
        ensures
            tables.wf(),
            tables.games@.len() == 0,
            tables.user_games@.len() == 0,
            tables.next_id == 1,
    {
        GameRepository { games: Vec::new(), user_games: Vec::new(), next_id: 1 }
    }

    fn position(&self, appid: &str) -> (found: Option<usize>)
        ensures
            match found {
                Some(i) => self.find(appid@) == Some(i as int) && i < self.games@.len(),
                None => self.find(appid@) is None,
            },
    {
        let wanted = appid.to_owned();
        let ghost hit = with_appid(appid@);
        let mut i: usize = self.games.len();
        proof {
            assert(self.games@.take(i as int) =~= self.games@);
        }
        while i > 0
            invariant
                i <= self.games@.len(),
                wanted@ == appid@,
                hit == with_appid(appid@),
                last_match(self.games@, hit) == last_match(self.games@.take(i as int), hit),
            decreases i,
        {
            i -= 1;
            proof {
                assert(self.games@.take(i + 1).drop_last() =~= self.games@.take(i as int));
                assert(self.games@.take(i + 1).last() == self.games@[i as int]);
            }
            if self.games[i].appid == wanted {
                return Some(i);
            }
        }
        None
    }

    fn position_of_id(&self, id: u128) -> (found: Option<usize>)
        ensures
            match found {
                Some(i) => last_match(self.games@, with_game_id(id)) == Some(i as int) && i
                    < self.games@.len(),
                None => last_match(self.games@, with_game_id(id)) is None,
            },
    {
        let ghost hit = with_game_id(id);
        let mut i: usize = self.games.len();
        proof {
            assert(self.games@.take(i as int) =~= self.games@);
        }
        while i > 0
            invariant
                i <= self.games@.len(),
                hit == with_game_id(id),
                last_match(self.games@, hit) == last_match(self.games@.take(i as int), hit),
            decreases i,
        {
            i -= 1;
            proof {
                assert(self.games@.take(i + 1).drop_last() =~= self.games@.take(i as int));
                assert(self.games@.take(i + 1).last() == self.games@[i as int]);
            }
            if self.games[i].id == id {
                return Some(i);
            }
        }
        None
    }

    fn position_of_pair(&self, user_id: u128, game_id: u128) -> (found: Option<usize>)
        ensures
            match found {
                Some(i) => last_match(self.user_games@, with_pair(user_id, game_id)) == Some(
                    i as int,
                ) && i < self.user_games@.len(),
                None => last_match(self.user_games@, with_pair(user_id, game_id)) is None,
            },
    {
        let ghost hit = with_pair(user_id, game_id);
        let mut i: usize = self.user_games.len();
        proof {
            assert(self.user_games@.take(i as int) =~= self.user_games@);
        }
        while i > 0
            invariant
                i <= self.user_games@.len(),
                hit == with_pair(user_id, game_id),
                last_match(self.user_games@, hit) == last_match(
                    self.user_games@.take(i as int),
                    hit,
                ),
            decreases i,
        {
            i -= 1;
            proof {
                assert(self.user_games@.take(i + 1).drop_last() =~= self.user_games@.take(
                    i as int,
                ));
                assert(self.user_games@.take(i + 1).last() == self.user_games@[i as int]);
            }
            if self.user_games[i].user_id == user_id && self.user_games[i].game_id == game_id {
                return Some(i);
            }
        }
        None
    }

    /// Whether a game with this application id is stored.
    pub fn check_if_game_exists(&self, appid: &str) -> (found: Result<bool, StoreError>)
        ensures
            found matches Ok(b) && b == self.holds(appid@),
    {
        Ok(self.position(appid).is_some())
    }

    /// Stores a new game. It is refused with `UniqueViolation` where its
    /// application id is stored already, and with `Exhausted` where no key is
    /// left.
    pub fn create_game(&mut self, body: CreateGameSchema) -> (stored: Result<
        GameModel,
        StoreError,
    >)
        requires
            old(self).wf(),
        ensures
            final(self).wf(),
            final(self).user_games@ == old(self).user_games@,
            match stored {
                Ok(row) => {
                    &&& !old(self).holds(body.appid@)
                    &&& old(self).next_id < u128::MAX
                    &&& row.id == old(self).next_id
                    &&& row@ == body@
                    &&& final(self).games@.len() == old(self).games@.len() + 1
                    &&& final(self).games@.drop_last() == old(self).games@
                    &&& final(self).games@.last().id == row.id
                    &&& final(self).games@.last()@ == row@
                    &&& final(self).next_id == old(self).next_id + 1
                    &&& final(self).holds(body.appid@)
                    &&& final(self).game(body.appid@)@ == body@
                },
                Err(e) => {
                    &&& old(self).holds(body.appid@) ==> e is UniqueViolation
                    &&& !old(self).holds(body.appid@) ==> e is Exhausted && old(self).next_id
                        == u128::MAX
                    &&& final(self).games@ == old(self).games@
                    &&& final(self).next_id == old(self).next_id
                },
            },
    {
        if self.position(body.appid.as_str()).is_some() {
            return Err(StoreError::UniqueViolation);
        }
        if self.next_id == u128::MAX {
            return Err(StoreError::Exhausted);
        }
        let row = GameModel {
            id: self.next_id,
            appid: body.appid,
            name: body.name,
            short_description: Some(body.short_description),
            header_image: Some(body.header_image),
            screenshots: Some(body.screenshots),
        };
        let shown = copy_game(&row);
        proof {
            lemma_last_match(self.games@, with_appid(row.appid@));
            lemma_last_match_push(self.games@, row, with_appid(row.appid@));
            assert(self.games@.push(row).drop_last() =~= self.games@);
        }
        self.games.push(row);
        self.next_id = self.next_id + 1;
        Ok(shown)
    }

    /// The game with this application id, or `RowNotFound`.
    pub fn get_game_by_appid(&self, appid: &str) -> (found: Result<GameModel, StoreError>)
        ensures
            match found {
                Ok(row) => self.holds(appid@) && row.id == self.game(appid@).id && row@
                    == self.game(appid@)@,
                Err(e) => !self.holds(appid@) && e is RowNotFound,
            },
    {
        match self.position(appid) {
            Some(i) => Ok(copy_game(&self.games[i])),
            None => Err(StoreError::RowNotFound),
        }
    }

    /// The game with this local key, or `RowNotFound`.
    pub fn get_game_by_id(&self, id: &u128) -> (found: Result<GameModel, StoreError>)
        ensures
            match (found, last_match(self.games@, with_game_id(*id))) {
                (Ok(row), Some(i)) => row.id == *id && row@ == self.games@[i]@,
                (Err(e), None) => e is RowNotFound,
                _ => false,
            },
    {
        match self.position_of_id(*id) {
            Some(i) => {
                proof {
                    lemma_last_match(self.games@, with_game_id(*id));
                }
                Ok(copy_game(&self.games[i]))
            },
            None => Err(StoreError::RowNotFound),
        }
    }

    /// Whether an identity is bound to a game.
    pub fn check_if_user_already_has_game(&self, user_id: u128, game_id: u128) -> (found: Result<
        bool,
        StoreError,
    >)
        ensures
            found matches Ok(b) && b == self.binds(user_id, game_id),
    {
        Ok(self.position_of_pair(user_id, game_id).is_some())
    }

    /// The binding of an identity to a game, or `RowNotFound`.
    pub fn get_binding(&self, body: BindUserToGameSchema) -> (found: Result<
        UserGamesModel,
        StoreError,
    >)
        ensures
            match last_match(self.user_games@, with_pair(body.user_id, body.game_id)) {
                Some(i) => found == Ok::<UserGamesModel, StoreError>(self.user_games@[i]),
                None => found matches Err(e) && e is RowNotFound,
            },
    {
        proof {
            lemma_last_match(self.user_games@, with_pair(body.user_id, body.game_id));
        }
        match self.position_of_pair(body.user_id, body.game_id) {
            Some(i) => Ok(self.user_games[i]),
            None => Err(StoreError::RowNotFound),
        }
    }

    /// Stores the binding of an identity to a game. It is refused with
    /// `UniqueViolation` where the binding is there already, and with
    /// `Exhausted` where no key is left.
    pub fn insert_binding(&mut self, body: BindUserToGameSchema) -> (stored: Result<
        UserGamesModel,
        StoreError,
    >)
        requires
            old(self).wf(),
        ensures
            final(self).wf(),
            final(self).games@ == old(self).games@,
            if old(self).binds(body.user_id, body.game_id) {
                stored matches Err(e) && e is UniqueViolation && final(self).user_games@ == old(self).user_games@ && final(self).next_id == old(self).next_id
            } else {
                &&& stored == bind_result(old(self).user_games@, old(self).next_id, body)
                &&& final(self).user_games@ == bind_rows(
                    old(self).user_games@,
                    old(self).next_id,
                    body,
                )
                &&& final(self).next_id == bind_next_id(
                    old(self).user_games@,
                    old(self).next_id,
                    body,
                )
            },
    {
        if self.position_of_pair(body.user_id, body.game_id).is_some() {
            return Err(StoreError::UniqueViolation);
        }
        self.bind_user_to_game(body)
    }

    /// Binds an identity to a game. Where the binding is there already it is
    /// returned and nothing is stored; else a new binding is stored and
    /// returned.
    pub fn bind_user_to_game(&mut self, body: BindUserToGameSchema) -> (bound: Result<
        UserGamesModel,
        StoreError,
    >)
        requires
            old(self).wf(),
        ensures
            final(self).wf(),
            final(self).games@ == old(self).games@,
            bound == bind_result(old(self).user_games@, old(self).next_id, body),
            final(self).user_games@ == bind_rows(old(self).user_games@, old(self).next_id, body),
            final(self).next_id == bind_next_id(old(self).user_games@, old(self).next_id, body),
            bound is Ok ==> final(self).binds(body.user_id, body.game_id),
    {
        let ghost hit = with_pair(body.user_id, body.game_id);
        proof {
            lemma_last_match(self.user_games@, hit);
        }
        match self.position_of_pair(body.user_id, body.game_id) {
            Some(i) => Ok(self.user_games[i]),
            None => {
                if self.next_id == u128::MAX {
                    return Err(StoreError::Exhausted);
                }
                let row = UserGamesModel {
                    id: self.next_id,
                    user_id: body.user_id,
                    game_id: body.game_id,
                };
                proof {
                    lemma_last_match_push(self.user_games@, row, hit);
                }
                self.user_games.push(row);
                self.next_id = self.next_id + 1;
                Ok(row)
            },
        }
    }
}

/// A copy of a stored game.
pub fn copy_game(row: &GameModel) -> (copy: GameModel)
    ensures
        copy.id == row.id,
        copy@ == row@,
{
    let shown = row.shown();
    GameModel {
        id: row.id,
        appid: shown.appid,
        name: shown.name,
        short_description: shown.short_description,
        header_image: shown.header_image,
        screenshots: shown.screenshots,
    }
}

} // verus!
