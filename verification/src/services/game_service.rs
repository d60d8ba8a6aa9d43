//! The game engine: games are mirrored from the platform the first time
//! they are asked for, and identities are bound to them.

use crate::models::game::{
    BindUserToGameSchema, CreateGameSchema, GameCreationResponse, GameView, texts, UserGamesModel,
};
use crate::repositories::game_repository::{bind_next_id, bind_result, bind_rows, GameRepository};
use crate::repositories::table::lemma_last_match;
use crate::services::errors::games::{CreateGameError, GetGameError};
use crate::services::errors::storage::StoreError;
use crate::services::protocol::{Ask, is_misfit, misfit, Step, Told};
use crate::steam::client::{game_in, read_game, UpstreamError};
use crate::steam::decode::{Fetched, views};
use crate::steam::steam_game_response::{GameData, GameDataView};
use crate::text::{decimal, decimal_text};
use vstd::prelude::*;
use vstd::string::*;

verus! {

pub struct GameService;

/// Where the mirroring of a game stands between two decisions.
#[derive(Debug)]
pub enum GameCreation {
    /// It was asked whether the game is stored.
    AwaitProbe { appid: String },
    /// The stored game was asked for.
    AwaitExisting,
    /// The platform was called for the details of the application.
    AwaitDetails { appid: String },
    /// The new game was handed over to be stored.
    AwaitStore { appid: String },
}

/// A step of the mirroring of a game.
pub type GameStep = Step<GameCreation, Result<GameCreationResponse, CreateGameError>>;

/// Where the binding of an identity to a game stands between two decisions.
#[derive(Debug)]
pub enum GameBinding {
    /// The game is being mirrored.
    Mirroring { user_id: u128, game: GameCreation },
    /// It was asked whether the identity is bound to the game.
    AwaitProbe { body: BindUserToGameSchema },
    /// The stored binding was asked for.
    AwaitExisting,
    /// The new binding was handed over to be stored.
    AwaitStore { body: BindUserToGameSchema },
}

/// A step of the binding of an identity to a game.
pub type BindStep = Step<GameBinding, Result<UserGamesModel, CreateGameError>>;

/// Whether a failure of the engine reports a given failure of the platform.
pub open spec fn reports(failure: CreateGameError, cause: UpstreamError) -> bool {
    match cause {
        UpstreamError::UpstreamUnreachable(why) => failure matches CreateGameError::SteamApiError(
            message,
        ) && message@ == "Failed to fetch: "@ + why@,
        UpstreamError::BadStatus(status) => failure matches CreateGameError::SteamApiError(message)
            && message@ == "Steam API returned status: "@ + decimal_text(status as int),
        UpstreamError::Malformed => failure matches CreateGameError::SteamApiError(message)
            && message@ == "Failed to parse"@,
        _ => failure is SteamGameNotFound,
    }
}

/// The game that the details of an application are stored as: an
/// application without screenshots gets an empty list of them.
pub open spec fn game_of(appid: Seq<char>, data: GameDataView) -> GameView {
    GameView {
        appid,
        name: data.name,
        short_description: Some(data.short_description),
        header_image: Some(data.header_image),
        screenshots: Some(
            match data.screenshots {
                Some(list) => list,
                None => Seq::empty(),
            },
        ),
    }
}

/// What to do after a binding was handed to a store that other callers write
/// to at the same time.
#[derive(Debug)]
pub enum BindNext {
    /// The binding is stored.
    Done(UserGamesModel),
    /// Another caller stored the same binding first: fetch that one.
    FetchExisting,
    /// The store failed.
    Failed(StoreError),
}

/// Whether the tables are the same before and after.
pub open spec fn untouched(before: GameRepository, after: GameRepository) -> bool {
    &&& after.games@ == before.games@
    &&& after.user_games@ == before.user_games@
    &&& after.next_id == before.next_id
}

/// How the game table stands after a game was asked to be mirrored from a
/// reply of the platform. A game that is stored already leaves the table as
/// it is, and so does a reply that gives no details. Otherwise the game is
/// stored as one new row, unless no key is left.
pub open spec fn game_kept(
    before: GameRepository,
    after: GameRepository,
    appid: Seq<char>,
    reply: Fetched,
) -> bool {
    if before.holds(appid) {
        untouched(before, after)
    } else {
        match game_in(reply, appid) {
            Err(_) => untouched(before, after),
            Ok(data) => if before.next_id == u128::MAX {
                untouched(before, after)
            } else {
                &&& after.user_games@ == before.user_games@
                &&& after.next_id == before.next_id + 1
                &&& after.games@.len() == before.games@.len() + 1
                &&& after.games@.drop_last() == before.games@
                &&& after.games@.last().id == before.next_id
                &&& after.games@.last()@ == game_of(appid, data)
                &&& after.holds(appid)
                &&& after.game(appid)@ == game_of(appid, data)
            },
        }
    }
}

/// What mirroring a game returns: the game that is stored already, or the
/// failure that reports why the reply gives no details, or the new game.
pub open spec fn game_answer(
    before: GameRepository,
    appid: Seq<char>,
    reply: Fetched,
    saved: Result<GameCreationResponse, CreateGameError>,
) -> bool {
    if before.holds(appid) {
        saved matches Ok(game) && game@ == before.game(appid)@
    } else {
        match game_in(reply, appid) {
            Err(cause) => saved matches Err(failure) && reports(failure, cause),
            Ok(data) => if before.next_id == u128::MAX {
                saved matches Err(CreateGameError::DatabaseError(e)) && e is Exhausted
            } else {
                saved matches Ok(game) && game@ == game_of(appid, data)
            },
        }
    }
}

/// How the mirroring of a game goes on when it is told something.
///
/// Told that the game is stored, it asks for it and the platform is never
/// called; told that it is not, it calls the platform. Told the platform's
/// reply, it ends with the failure that reports why the reply gives no
/// details, or hands over the new game to be stored. Told that the game was
/// stored, it ends with the game; told that the store refused it because the
/// application id is stored by now, it asks for the game that is there. Told
/// of any other failure of the store, it ends with that failure.
pub open spec fn create_resumed(state: GameCreation, told: Told, next: GameStep) -> bool {
    match (state, told) {
        (GameCreation::AwaitProbe { appid }, Told::Flag(Ok(true))) => next == Step::<
            GameCreation,
            Result<GameCreationResponse, CreateGameError>,
        >::Ask(GameCreation::AwaitExisting, Ask::GetGame { appid }),
        (GameCreation::AwaitProbe { appid }, Told::Flag(Ok(false))) => next matches Step::Ask(
            GameCreation::AwaitDetails { appid: kept },
            Ask::FetchGame { appid: asked },
        ) && kept == appid && asked@ == appid@,
        (GameCreation::AwaitProbe { .. }, Told::Flag(Err(e))) => next matches Step::Done(
            Err(CreateGameError::DatabaseError(passed)),
        ) && passed == e,
        (GameCreation::AwaitExisting, Told::Game(Ok(row))) => next matches Step::Done(Ok(game))
            && game@ == row@,
        (GameCreation::AwaitExisting, Told::Game(Err(e))) => next matches Step::Done(
            Err(CreateGameError::DatabaseError(passed)),
        ) && passed == e,
        (GameCreation::AwaitDetails { appid }, Told::Reply(reply)) => match game_in(reply, appid@) {
            Err(cause) => next matches Step::Done(Err(failure)) && reports(failure, cause),
            Ok(data) => next matches Step::Ask(
                GameCreation::AwaitStore { appid: kept },
                Ask::StoreGame { game },
            ) && kept@ == appid@ && game@ == game_of(appid@, data),
        },
        (GameCreation::AwaitStore { .. }, Told::Game(Ok(row))) => next matches Step::Done(Ok(game))
            && game@ == row@,
        (GameCreation::AwaitStore { appid }, Told::Game(Err(StoreError::UniqueViolation))) => next
            == Step::<GameCreation, Result<GameCreationResponse, CreateGameError>>::Ask(
            GameCreation::AwaitExisting,
            Ask::GetGame { appid },
        ),
        (GameCreation::AwaitStore { .. }, Told::Game(Err(e))) => next matches Step::Done(
            Err(CreateGameError::DatabaseError(passed)),
        ) && passed == e,
        _ => next matches Step::Done(Err(CreateGameError::DatabaseError(e))) && is_misfit(e),
    }
}

/// Whether the mirroring of a game is told the game that it ends with.
pub open spec fn told_the_game(game: GameCreation, told: Told) -> bool {
    (game is AwaitExisting || game is AwaitStore) && told matches Told::Game(Ok(_))
}

/// How the binding of an identity to a game goes on when it is told
/// something.
///
/// While the game is being mirrored, the mirroring goes on as it would on
/// its own, and a failure of it ends the binding. Told the game, stored or
/// found, it asks whether the identity is bound to it. Told that it is, it
/// asks for the binding that is there; told that it is not, it hands over a
/// new binding to be stored. Told that the binding was stored, it ends with
/// it; told that the store refused it because the pair is bound by now, it
/// asks for the binding that is there. Told of any other failure of the
/// store, it ends with that failure.
pub open spec fn bind_resumed(state: GameBinding, told: Told, next: BindStep) -> bool {
    match (state, told) {
        (GameBinding::Mirroring { user_id, game }, told) => if told_the_game(game, told) {
            let body = BindUserToGameSchema {
                user_id,
                game_id: told->Game_0->Ok_0.id,
            };
            next == Step::<GameBinding, Result<UserGamesModel, CreateGameError>>::Ask(
                GameBinding::AwaitProbe { body },
                Ask::BindingExists { body },
            )
        } else {
            match next {
                Step::Ask(GameBinding::Mirroring { user_id: kept, game: inner }, ask) => kept
                    == user_id && create_resumed(
                    game,
                    told,
                    Step::<GameCreation, Result<GameCreationResponse, CreateGameError>>::Ask(
                        inner,
                        ask,
                    ),
                ),
                Step::Done(Err(failure)) => create_resumed(
                    game,
                    told,
                    Step::<GameCreation, Result<GameCreationResponse, CreateGameError>>::Done(
                        Err(failure),
                    ),
                ),
                _ => false,
            }
        },
        (GameBinding::AwaitProbe { body }, Told::Flag(Ok(true))) => next == Step::<
            GameBinding,
            Result<UserGamesModel, CreateGameError>,
        >::Ask(GameBinding::AwaitExisting, Ask::GetBinding { body }),
        (GameBinding::AwaitProbe { body }, Told::Flag(Ok(false))) => next == Step::<
            GameBinding,
            Result<UserGamesModel, CreateGameError>,
        >::Ask(GameBinding::AwaitStore { body }, Ask::StoreBinding { body }),
        (GameBinding::AwaitProbe { .. }, Told::Flag(Err(e))) => next matches Step::Done(
            Err(CreateGameError::DatabaseError(passed)),
        ) && passed == e,
        (GameBinding::AwaitExisting, Told::Binding(Ok(binding))) => next == Step::<
            GameBinding,
            Result<UserGamesModel, CreateGameError>,
        >::Done(Ok(binding)),
        (GameBinding::AwaitExisting, Told::Binding(Err(e))) => next matches Step::Done(
            Err(CreateGameError::DatabaseError(passed)),
        ) && passed == e,
        (GameBinding::AwaitStore { .. }, Told::Binding(Ok(binding))) => next == Step::<
            GameBinding,
            Result<UserGamesModel, CreateGameError>,
        >::Done(Ok(binding)),
        (
            GameBinding::AwaitStore { body },
            Told::Binding(Err(StoreError::UniqueViolation)),
        ) => next == Step::<GameBinding, Result<UserGamesModel, CreateGameError>>::Ask(
            GameBinding::AwaitExisting,
            Ask::GetBinding { body },
        ),
        (GameBinding::AwaitStore { .. }, Told::Binding(Err(e))) => next matches Step::Done(
            Err(CreateGameError::DatabaseError(passed)),
        ) && passed == e,
        _ => next matches Step::Done(Err(CreateGameError::DatabaseError(e))) && is_misfit(e),
    }
}

impl GameService {
    /// The address of the details of an application on the platform.
    pub fn steam_game_url(appid: &str) -> (url: String)
        ensures
            url@ == "https://store.steampowered.com/api/appdetails?appids="@ + appid@,
    {
        "https://store.steampowered.com/api/appdetails?appids=".to_owned().concat(appid)
    }

    /// The failure of the engine that reports a failure of the platform.
    pub fn failure_of(cause: UpstreamError) -> (failure: CreateGameError)
        ensures
            reports(failure, cause),
    {
        match cause {
            UpstreamError::UpstreamUnreachable(why) => CreateGameError::SteamApiError(
                "Failed to fetch: ".to_owned().concat(why.as_str()),
            ),
            UpstreamError::BadStatus(status) => {
                let code = decimal(status as i64);
                CreateGameError::SteamApiError(
                    "Steam API returned status: ".to_owned().concat(code.as_str()),
                )
            },
            UpstreamError::Malformed => CreateGameError::SteamApiError(
                "Failed to parse".to_owned(),
            ),
            _ => CreateGameError::SteamGameNotFound,
        }
    }

    /// Reads the details of an application out of the platform's reply.
    pub fn fetch_steam_game_data(appid: &str, reply: &Fetched) -> (game: Result<
        GameData,
        CreateGameError,
    >)
        ensures
            match game {
                Ok(data) => game_in(*reply, appid@) == Ok::<GameDataView, UpstreamError>(data@),
                Err(failure) => game_in(*reply, appid@) matches Err(cause) && reports(
                    failure,
                    cause,
                ),
            },
    {
        match read_game(reply, appid) {
            Ok(data) => Ok(data),
            Err(cause) => Err(Self::failure_of(cause)),
        }
    }

    /// The new game that the details of an application amount to.
    pub fn game_schema(appid: String, data: GameData) -> (schema: CreateGameSchema)
        ensures
            schema@ == game_of(appid@, data@),
    {
        let mut paths: Vec<String> = Vec::new();
        match data.screenshots {
            Some(list) => {
                let mut i: usize = 0;
                while i < list.len()
                    invariant
                        i <= list@.len(),
                        texts(paths@) == views(list@).take(i as int),
                    decreases list@.len() - i,
                {
                    let ghost before = paths@;
                    paths.push(list[i].path_full.clone());
                    proof {
                        assert(texts(paths@) =~= texts(before).push(list@[i as int]@));
                        assert(views(list@).take(i + 1) =~= views(list@).take(i as int).push(
                            list@[i as int]@,
                        ));
                    }
                    i += 1;
                }
                proof {
                    assert(views(list@).take(list@.len() as int) =~= views(list@));
                }
            },
            None => {
                proof {
                    assert(texts(paths@) =~= Seq::<Seq<char>>::empty());
                }
            },
        }
        CreateGameSchema {
            appid,
            name: data.name,
            short_description: data.short_description,
            header_image: data.header_image,
            screenshots: paths,
        }
    }

    /// Begins the mirroring of a game: it is asked whether the game is stored.
    pub fn create_start(appid: String) -> (step: GameStep)
        ensures
            step matches Step::Ask(
                GameCreation::AwaitProbe { appid: kept },
                Ask::GameExists { appid: asked },
            ) && kept == appid && asked@ == appid@,
    {
        let asked = appid.clone();
        Step::Ask(GameCreation::AwaitProbe { appid }, Ask::GameExists { appid: asked })
    }

    fn misfit_step() -> (step: GameStep)
        ensures
            step matches Step::Done(Err(CreateGameError::DatabaseError(e))) && is_misfit(e),
    {
        Step::Done(Err(CreateGameError::DatabaseError(misfit())))
    }

    /// Goes on with the mirroring of a game that was told something.
    pub fn create_resume(state: GameCreation, told: Told) -> (next: GameStep)
        ensures
            create_resumed(state, told, next),
    {
        match state {
            GameCreation::AwaitProbe { appid } => match told {
                Told::Flag(Ok(true)) => Step::Ask(
                    GameCreation::AwaitExisting,
                    Ask::GetGame { appid },
                ),
                Told::Flag(Ok(false)) => {
                    let asked = appid.clone();
                    Step::Ask(GameCreation::AwaitDetails { appid }, Ask::FetchGame { appid: asked })
                },
                Told::Flag(Err(e)) => Step::Done(Err(CreateGameError::DatabaseError(e))),
                _ => Self::misfit_step(),
            },
            GameCreation::AwaitExisting => match told {
                Told::Game(Ok(row)) => Step::Done(Ok(row.shown())),
                Told::Game(Err(e)) => Step::Done(Err(CreateGameError::DatabaseError(e))),
                _ => Self::misfit_step(),
            },
            GameCreation::AwaitDetails { appid } => match told {
                Told::Reply(reply) => match Self::fetch_steam_game_data(appid.as_str(), &reply) {
                    Err(failure) => Step::Done(Err(failure)),
                    Ok(data) => {
                        let kept = appid.clone();
                        Step::Ask(
                            GameCreation::AwaitStore { appid: kept },
                            Ask::StoreGame { game: Self::game_schema(appid, data) },
                        )
                    },
                },
                _ => Self::misfit_step(),
            },
            GameCreation::AwaitStore { appid } => match told {
                Told::Game(Ok(row)) => Step::Done(Ok(row.shown())),
                Told::Game(Err(StoreError::UniqueViolation)) => Step::Ask(
                    GameCreation::AwaitExisting,
                    Ask::GetGame { appid },
                ),
                Told::Game(Err(e)) => Step::Done(Err(CreateGameError::DatabaseError(e))),
                _ => Self::misfit_step(),
            },
        }
    }

    /// Mirrors a game against the tables in memory. A game that is stored
    /// already is returned as it is and the reply is not looked at.
    /// Otherwise the reply must give the details of the application, and the
    /// game is stored.
    pub fn create_game(games: &mut GameRepository, appid: String, reply: &Fetched) -> (saved:
        Result<GameCreationResponse, CreateGameError>)
        requires
            old(games).wf(),
        ensures
            final(games).wf(),
            game_kept(*old(games), *final(games), appid@, *reply),
            game_answer(*old(games), appid@, *reply, saved),
    {
        let (state, asked) = match Self::create_start(appid) {
            Step::Ask(state, Ask::GameExists { appid: asked }) => (state, asked),
            _ => { return Err(CreateGameError::DatabaseError(misfit())); },
        };
        let probed = games.check_if_game_exists(asked.as_str());
        match Self::create_resume(state, Told::Flag(probed)) {
            Step::Done(done) => done,
            Step::Ask(state, Ask::GetGame { appid: wanted }) => {
                let found = games.get_game_by_appid(wanted.as_str());
                match Self::create_resume(state, Told::Game(found)) {
                    Step::Done(done) => done,
                    Step::Ask(_, _) => Err(CreateGameError::DatabaseError(misfit())),
                }
            },
            Step::Ask(state, Ask::FetchGame { appid: _ }) => {
                match Self::create_resume(state, Told::Reply(reply.copy())) {
                    Step::Done(done) => done,
                    Step::Ask(state, Ask::StoreGame { game }) => {
                        let stored = games.create_game(game);
                        match Self::create_resume(state, Told::Game(stored)) {
                            Step::Done(done) => done,
                            Step::Ask(_, _) => Err(CreateGameError::DatabaseError(misfit())),
                        }
                    },
                    Step::Ask(_, _) => Err(CreateGameError::DatabaseError(misfit())),
                }
            },
            Step::Ask(_, _) => Err(CreateGameError::DatabaseError(misfit())),
        }
    }

    /// Decides what follows the insertion of a binding: a violation of the
    /// pair's uniqueness means that the binding is there, stored by another
    /// caller, and is answered by fetching it, not by a failure.
    pub fn resolve_bind(inserted: Result<UserGamesModel, StoreError>) -> (next: BindNext)
        ensures
            match inserted {
                Ok(binding) => next == BindNext::Done(binding),
                Err(StoreError::UniqueViolation) => next is FetchExisting,
                Err(e) => next == BindNext::Failed(e),
            },
    {
        match inserted {
            Ok(binding) => BindNext::Done(binding),
            Err(StoreError::UniqueViolation) => BindNext::FetchExisting,
            Err(e) => BindNext::Failed(e),
        }
    }

    /// Shows the game with an application id, or `GameNotFound`.
    pub fn get_game_by_appid(games: &GameRepository, appid: &str) -> (found: Result<
        GameCreationResponse,
        GetGameError,
    >)
        ensures
            match found {
                Ok(game) => games.holds(appid@) && game@ == games.game(appid@)@,
                Err(failure) => !games.holds(appid@) && failure is GameNotFound,
            },
    {
        match games.get_game_by_appid(appid) {
            Ok(row) => Ok(row.shown()),
            Err(e) => Err(GetGameError::from(e)),
        }
    }

    /// Begins the binding of an identity to the game with an application
    /// id: the game is mirrored first.
    pub fn bind_start(user_id: u128, appid: String) -> (step: BindStep)
        ensures
            step matches Step::Ask(
                GameBinding::Mirroring { user_id: kept, game: GameCreation::AwaitProbe { appid: held } },
                Ask::GameExists { appid: asked },
            ) && kept == user_id && held == appid && asked@ == appid@,
    {
        match Self::create_start(appid) {
            Step::Ask(game, ask) => Step::Ask(GameBinding::Mirroring { user_id, game }, ask),
            Step::Done(_) => Self::misfit_bind(),
        }
    }

    fn misfit_bind() -> (step: BindStep)
        ensures
            step matches Step::Done(Err(CreateGameError::DatabaseError(e))) && is_misfit(e),
    {
        Step::Done(Err(CreateGameError::DatabaseError(misfit())))
    }

    fn probe_binding(user_id: u128, game_id: u128) -> (step: BindStep)
        ensures
            step == Step::<GameBinding, Result<UserGamesModel, CreateGameError>>::Ask(
                GameBinding::AwaitProbe { body: BindUserToGameSchema { user_id, game_id } },
                Ask::BindingExists { body: BindUserToGameSchema { user_id, game_id } },
            ),
    {
        let body = BindUserToGameSchema { user_id, game_id };
        Step::Ask(GameBinding::AwaitProbe { body }, Ask::BindingExists { body })
    }

    /// Goes on with the binding of an identity to a game that was told
    /// something.
    pub fn bind_resume(state: GameBinding, told: Told) -> (next: BindStep)
        ensures
            bind_resumed(state, told, next),
    {
        match state {
            GameBinding::Mirroring { user_id, game } => match (game, told) {
                (GameCreation::AwaitExisting, Told::Game(Ok(row))) => Self::probe_binding(
                    user_id,
                    row.id,
                ),
                (GameCreation::AwaitStore { appid: _ }, Told::Game(Ok(row))) => Self::probe_binding(
                    user_id,
                    row.id,
                ),
                (game, told) => match Self::create_resume(game, told) {
                    Step::Ask(inner, ask) => Step::Ask(
                        GameBinding::Mirroring { user_id, game: inner },
                        ask,
                    ),
                    Step::Done(Err(failure)) => Step::Done(Err(failure)),
                    Step::Done(Ok(_)) => Self::misfit_bind(),
                },
            },
            GameBinding::AwaitProbe { body } => match told {
                Told::Flag(Ok(true)) => Step::Ask(
                    GameBinding::AwaitExisting,
                    Ask::GetBinding { body },
                ),
                Told::Flag(Ok(false)) => Step::Ask(
                    GameBinding::AwaitStore { body },
                    Ask::StoreBinding { body },
                ),
                Told::Flag(Err(e)) => Step::Done(Err(CreateGameError::DatabaseError(e))),
                _ => Self::misfit_bind(),
            },
            GameBinding::AwaitExisting => match told {
                Told::Binding(Ok(binding)) => Step::Done(Ok(binding)),
                Told::Binding(Err(e)) => Step::Done(Err(CreateGameError::DatabaseError(e))),
                _ => Self::misfit_bind(),
            },
            GameBinding::AwaitStore { body } => match told {
                Told::Binding(stored) => match Self::resolve_bind(stored) {
                    BindNext::Done(binding) => Step::Done(Ok(binding)),
                    BindNext::FetchExisting => Step::Ask(
                        GameBinding::AwaitExisting,
                        Ask::GetBinding { body },
                    ),
                    BindNext::Failed(e) => Step::Done(Err(CreateGameError::DatabaseError(e))),
                },
                _ => Self::misfit_bind(),
            },
        }
    }

    /// Binds an identity to the game with an application id, against the
    /// tables in memory. The game is mirrored first where it is not stored;
    /// where that fails, nothing is bound. Binding an identity that is bound
    /// already returns the binding that is there and stores nothing.
    pub fn bind_user(games: &mut GameRepository, user_id: u128, appid: String, reply: &Fetched) -> (bound:
        Result<UserGamesModel, CreateGameError>)
        requires
            old(games).wf(),
        ensures
            final(games).wf(),
            exists|mirrored: GameRepository| #[trigger]
                game_kept(*old(games), mirrored, appid@, *reply) && mirrored.wf() && (
                if mirrored.holds(appid@) {
                    let body = BindUserToGameSchema {
                        user_id,
                        game_id: mirrored.game(appid@).id,
                    };
                    &&& final(games).games@ == mirrored.games@
                    &&& final(games).user_games@ == bind_rows(
                        mirrored.user_games@,
                        mirrored.next_id,
                        body,
                    )
                    &&& final(games).next_id == bind_next_id(
                        mirrored.user_games@,
                        mirrored.next_id,
                        body,
                    )
                    &&& match bound {
                        Ok(binding) => bind_result(mirrored.user_games@, mirrored.next_id, body)
                            == Ok::<UserGamesModel, StoreError>(binding),
                        Err(failure) => failure matches CreateGameError::DatabaseError(e)
                            && bind_result(mirrored.user_games@, mirrored.next_id, body) == Err::<
                            UserGamesModel,
                            StoreError,
                        >(e),
                    }
                } else {
                    untouched(mirrored, *final(games)) && bound is Err
                }),
    {
        let (state, asked) = match Self::bind_start(user_id, appid) {
            Step::Ask(state, Ask::GameExists { appid: asked }) => (state, asked),
            _ => { return Err(CreateGameError::DatabaseError(misfit())); },
        };
        let probed = games.check_if_game_exists(asked.as_str());
        // The game is mirrored.
        let step = match Self::bind_resume(state, Told::Flag(probed)) {
            Step::Ask(state, Ask::GetGame { appid: wanted }) => {
                let found = games.get_game_by_appid(wanted.as_str());
                Self::bind_resume(state, Told::Game(found))
            },
            Step::Ask(state, Ask::FetchGame { appid: _ }) => {
                match Self::bind_resume(state, Told::Reply(reply.copy())) {
                    Step::Ask(state, Ask::StoreGame { game }) => {
                        let stored = games.create_game(game);
                        Self::bind_resume(state, Told::Game(stored))
                    },
                    other => other,
                }
            },
            other => other,
        };
        let ghost mirrored = *games;
        proof {
            assert(game_kept(*old(games), mirrored, asked@, *reply));
        }
        // The identity is bound to it.
        let (state, body) = match step {
            Step::Done(done) => { return done; },
            Step::Ask(state, Ask::BindingExists { body }) => (state, body),
            Step::Ask(_, _) => { return Err(CreateGameError::DatabaseError(misfit())); },
        };
        proof {
            lemma_last_match(games.user_games@, crate::repositories::game_repository::with_pair(
                body.user_id,
                body.game_id,
            ));
        }
        let bound = games.check_if_user_already_has_game(body.user_id, body.game_id);
        match Self::bind_resume(state, Told::Flag(bound)) {
            Step::Done(done) => done,
            Step::Ask(state, Ask::GetBinding { body }) => {
                let found = games.get_binding(body);
                match Self::bind_resume(state, Told::Binding(found)) {
                    Step::Done(done) => done,
                    Step::Ask(_, _) => Err(CreateGameError::DatabaseError(misfit())),
                }
            },
            Step::Ask(state, Ask::StoreBinding { body }) => {
                let stored = games.insert_binding(body);
                match Self::bind_resume(state, Told::Binding(stored)) {
                    Step::Done(done) => done,
                    Step::Ask(_, _) => Err(CreateGameError::DatabaseError(misfit())),
                }
            },
            Step::Ask(_, _) => Err(CreateGameError::DatabaseError(misfit())),
        }
    }
}

} // verus!
