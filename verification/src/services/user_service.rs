//! The identity engine: identities are created from, and refreshed against,
//! what the platform reports of an account.

use crate::models::response_status::ResponseStatus;
use crate::models::user::{
    CreateUserSchema, GetUserResponse, GetUsers, GetUsersResponse, UpdateUser, UpdateUserResponse,
    UpdateUserSchema, UserCreationResponse, UserModel, UserUpdateResponse, UserView,
};
use crate::pagination::{envelope, page_count};
use crate::repositories::game_repository::GameRepository;
use crate::repositories::table::last_match;
use crate::repositories::user_repository::{UserRepository, with_user_id};
use crate::services::errors::games::CreateGameError;
use crate::services::errors::storage::StoreError;
use crate::services::errors::users::{
    CreateUserError, DeleteUserError, GetUserError, UpdateUserError,
};
use crate::services::game_service::{
    create_resumed, game_kept, GameCreation, GameService, untouched,
};
use crate::services::protocol::{Ask, is_misfit, misfit, Step, Told};
use crate::models::game::GameCreationResponse;
use crate::steam::client::{profile_in, read_profile, UpstreamError};
use crate::steam::decode::{Fetched, optional_text};
use crate::steam::steam_api_response::{SteamPlayer, SteamPlayerView};
use crate::text::{decimal, decimal_text};
use vstd::prelude::*;
use vstd::string::*;

verus! {

pub struct UserService;

/// A new identity, and what came of mirroring the game that it plays: `None`
/// where it plays none. That outcome is for the record; it decides nothing.
#[derive(Debug)]
pub struct CreatedUser {
    pub user: UserCreationResponse,
    pub game: Option<Result<GameCreationResponse, CreateGameError>>,
}

/// Where the creation of an identity stands between two decisions.
#[derive(Debug)]
pub enum UserCreation {
    /// It was asked whether the identity is stored.
    AwaitProbe { steam_id: String },
    /// The platform was called for the profile.
    AwaitProfile { steam_id: String },
    /// The new identity was handed over to be stored.
    AwaitStore,
    /// The identity is stored, and the game that it plays is being mirrored.
    Enriching { response: UserCreationResponse, game: GameCreation },
}

/// A step of the creation of an identity.
pub type CreationStep = Step<UserCreation, Result<CreatedUser, CreateUserError>>;

/// Where the refreshing of an identity stands between two decisions.
#[derive(Debug)]
pub enum UserRefresh {
    /// It was asked whether the identity is stored.
    AwaitProbe { steam_id: String },
    /// The platform was called for the profile.
    AwaitProfile { steam_id: String },
    /// The fields of the profile were handed over to be written.
    AwaitUpdate,
}

/// A step of the refreshing of an identity.
pub type RefreshStep = Step<UserRefresh, Result<UpdateUserResponse, UpdateUserError>>;

/// Where the showing of an identity stands between two decisions.
#[derive(Debug)]
pub enum UserLookup {
    /// It was asked whether the identity is stored.
    AwaitProbe { steam_id: String },
    /// The identity was asked for.
    AwaitRow,
}

/// A step of the showing of an identity.
pub type LookupStep = Step<UserLookup, Result<GetUserResponse, GetUserError>>;

/// Where the deletion of an identity stands: the store was asked to delete.
#[derive(Debug)]
pub struct UserDeletion;

/// A step of the deletion of an identity.
pub type DeletionStep = Step<UserDeletion, Result<u64, DeleteUserError>>;

/// Where a caller's partial update stands: the fields were handed over to be
/// written.
#[derive(Debug)]
pub struct UserPatch;

/// A step of a caller's partial update.
pub type PatchStep = Step<UserPatch, Result<UserUpdateResponse, UpdateUserError>>;

/// Whether chrono has a date and time for a number of seconds since the
/// start of 1970.
pub uninterp spec fn has_datetime(seconds: int) -> bool;

/// `chrono::DateTime::from_timestamp` with no nanoseconds: whether it gives a
/// date and time, which it does unless the seconds are out of its range. The
/// answer depends on the seconds alone.
#[verifier::external_body]
fn timestamp_in_range(seconds: i64) -> (known: bool)
    ensures
        known == has_datetime(seconds as int),
{
    chrono::DateTime::from_timestamp(seconds, 0).is_some()
}

/// The time at which the platform says an account was created: the start of
/// 1970 where it says nothing, and none where it names a time out of range.
pub open spec fn source_time(timecreated: Option<int>) -> Option<i64> {
    let seconds = match timecreated {
        Some(t) => t,
        None => 0,
    };
    if has_datetime(seconds) {
        Some(seconds as i64)
    } else {
        None
    }
}

/// The row that an account is mirrored as.
pub open spec fn user_of(steam_id: Seq<char>, player: SteamPlayerView, id: u128, now: i64)
    -> UserView {
    UserView {
        id,
        steam_id,
        username: player.personaname,
        pf_url: player.profileurl,
        avatar: player.avatar,
        persona_state: player.personastate as i32,
        visibility: player.communityvisibilitystate as i32,
        steam_created_at: source_time(player.timecreated)->Some_0,
        gameid: player.gameid,
        current_game: player.gameextrainfo,
        country: player.loccountrycode,
        created_at: Some(now),
        updated_at: Some(now),
    }
}

/// A row after it was refreshed from the platform: what the platform
/// reports replaces what was stored; what it leaves out stays.
pub open spec fn refreshed(row: UserView, player: SteamPlayerView, now: i64) -> UserView {
    UserView {
        id: row.id,
        steam_id: row.steam_id,
        username: player.personaname,
        pf_url: player.profileurl,
        avatar: player.avatar,
        persona_state: player.personastate as i32,
        visibility: player.communityvisibilitystate as i32,
        steam_created_at: row.steam_created_at,
        gameid: match player.gameid {
            Some(v) => Some(v),
            None => row.gameid,
        },
        current_game: match player.gameextrainfo {
            Some(v) => Some(v),
            None => row.current_game,
        },
        country: match player.loccountrycode {
            Some(v) => Some(v),
            None => row.country,
        },
        created_at: row.created_at,
        updated_at: Some(now),
    }
}

/// A row after a caller's partial update: a field that the update names
/// replaces the stored one, a field that it leaves out stays.
pub open spec fn patched(row: UserView, body: UpdateUserSchema, now: i64) -> UserView {
    UserView {
        id: row.id,
        steam_id: row.steam_id,
        username: match body.username {
            Some(v) => v@,
            None => row.username,
        },
        pf_url: match body.pf_url {
            Some(v) => v@,
            None => row.pf_url,
        },
        avatar: match body.avatar {
            Some(v) => v@,
            None => row.avatar,
        },
        persona_state: match body.persona_state {
            Some(v) => v,
            None => row.persona_state,
        },
        visibility: match body.visibility {
            Some(v) => v,
            None => row.visibility,
        },
        steam_created_at: row.steam_created_at,
        gameid: row.gameid,
        current_game: match body.current_game {
            Some(v) => Some(v@),
            None => row.current_game,
        },
        country: match body.country {
            Some(v) => Some(v@),
            None => row.country,
        },
        created_at: row.created_at,
        updated_at: Some(now),
    }
}

/// Whether a failure to create reports a given failure of the platform.
pub open spec fn reports(failure: CreateUserError, cause: UpstreamError) -> bool {
    match cause {
        UpstreamError::UpstreamUnreachable(why) => failure matches CreateUserError::SteamApiError(
            message,
        ) && message@ == "Failed to fetch: "@ + why@,
        UpstreamError::BadStatus(status) => failure matches CreateUserError::SteamApiError(message)
            && message@ == "Steam API returned status: "@ + decimal_text(status as int),
        UpstreamError::Malformed => failure matches CreateUserError::SteamApiError(message)
            && message@ == "Failed to parse"@,
        _ => failure is SteamUserNotFound,
    }
}

/// Whether a failure to refresh reports a given failure of the platform.
pub open spec fn refresh_reports(failure: UpdateUserError, cause: UpstreamError) -> bool {
    match cause {
        UpstreamError::UpstreamUnreachable(why) => failure matches UpdateUserError::SteamApiError(
            message,
        ) && message@ == "Failed to fetch: "@ + why@,
        UpstreamError::BadStatus(status) => failure matches UpdateUserError::SteamApiError(message)
            && message@ == "Steam API returned status: "@ + decimal_text(status as int),
        UpstreamError::Malformed => failure matches UpdateUserError::SteamApiError(message)
            && message@ == "Failed to parse"@,
        _ => failure is SteamUserNotFound,
    }
}

/// Whether the table is the same before and after.
pub open spec fn same_users(before: UserRepository, after: UserRepository) -> bool {
    &&& after.rows@ == before.rows@
    &&& after.next_id == before.next_id
    &&& after.now == before.now
}

/// Whether a new identity is what a profile amounts to.
pub open spec fn schema_of(schema: CreateUserSchema, steam_id: Seq<char>, player: SteamPlayerView)
    -> bool {
    &&& schema.steam_id@ == steam_id
    &&& schema.personaname@ == player.personaname
    &&& schema.profileurl@ == player.profileurl
    &&& schema.avatar@ == player.avatar
    &&& schema.personastate == player.personastate
    &&& schema.communityvisibilitystate == player.communityvisibilitystate
    &&& schema.formatted_steam_created_at == source_time(player.timecreated)
    &&& optional_text(schema.gameid) == player.gameid
    &&& optional_text(schema.gameextrainfo) == player.gameextrainfo
    &&& optional_text(schema.loccountrycode) == player.loccountrycode
}

/// Whether an update names every field that a profile holds.
pub open spec fn patch_of(patch: UpdateUser, player: SteamPlayerView) -> bool {
    &&& optional_text(patch.username) == Some(player.personaname)
    &&& optional_text(patch.pf_url) == Some(player.profileurl)
    &&& optional_text(patch.avatar) == Some(player.avatar)
    &&& patch.persona_state matches Some(state) && state == player.personastate
    &&& patch.visibility matches Some(visibility) && visibility == player.communityvisibilitystate
    &&& optional_text(patch.current_game) == player.gameextrainfo
    &&& optional_text(patch.country) == player.loccountrycode
    &&& optional_text(patch.gameid) == player.gameid
}

/// Whether an update names what a caller's partial update names.
pub open spec fn patch_from(patch: UpdateUser, body: UpdateUserSchema) -> bool {
    &&& patch.username == body.username
    &&& patch.pf_url == body.pf_url
    &&& patch.avatar == body.avatar
    &&& patch.persona_state == body.persona_state
    &&& patch.visibility == body.visibility
    &&& patch.current_game == body.current_game
    &&& patch.country == body.country
    &&& patch.gameid is None
}

/// Whether a reply shows a stored row.
pub open spec fn shows(response: UserCreationResponse, row: UserModel) -> bool {
    &&& response.username == row.username
    &&& response.pf_url == row.pf_url
    &&& response.avatar == row.avatar
}

/// How the creation of an identity goes on when it is told something.
///
/// Told that the identity is stored, it ends with `UserAlreadyExists` and
/// the platform is never called. Told the platform's reply, it ends with the
/// failure that reports why the reply gives no profile, or hands over the
/// new identity to be stored. Told that the identity was stored, it ends
/// where the identity plays no game, and else begins to mirror that game.
/// From then on the mirroring goes on as it would on its own, and however it
/// ends, the creation ends well.
pub open spec fn creation_resumed(state: UserCreation, told: Told, next: CreationStep) -> bool {
    match (state, told) {
        (UserCreation::AwaitProbe { .. }, Told::Flag(Ok(true))) => next matches Step::Done(
            Err(failure),
        ) && failure is UserAlreadyExists,
        (UserCreation::AwaitProbe { steam_id }, Told::Flag(Ok(false))) => next matches Step::Ask(
            UserCreation::AwaitProfile { steam_id: kept },
            Ask::FetchProfile { steam_id: asked },
        ) && kept == steam_id && asked@ == steam_id@,
        (UserCreation::AwaitProbe { .. }, Told::Flag(Err(e))) => next matches Step::Done(
            Err(CreateUserError::DatabaseError(passed)),
        ) && passed == e,
        (UserCreation::AwaitProfile { steam_id }, Told::Reply(reply)) => match profile_in(reply) {
            Err(cause) => next matches Step::Done(Err(failure)) && reports(failure, cause),
            Ok(player) => next matches Step::Ask(UserCreation::AwaitStore, Ask::StoreUser { user })
                && schema_of(user, steam_id@, player),
        },
        (UserCreation::AwaitStore, Told::User(Ok(row))) => match row.gameid {
            None => next matches Step::Done(Ok(created)) && shows(created.user, row)
                && created.game is None,
            Some(appid) => next matches Step::Ask(
                UserCreation::Enriching { response, game: GameCreation::AwaitProbe { appid: held } },
                Ask::GameExists { appid: asked },
            ) && shows(response, row) && held@ == appid@ && asked@ == appid@,
        },
        (UserCreation::AwaitStore, Told::User(Err(e))) => next matches Step::Done(
            Err(CreateUserError::DatabaseError(passed)),
        ) && passed == e,
        (UserCreation::Enriching { response, game }, told) => match next {
            Step::Ask(UserCreation::Enriching { response: kept, game: inner }, ask) => kept
                == response && create_resumed(
                game,
                told,
                Step::<GameCreation, Result<GameCreationResponse, CreateGameError>>::Ask(
                    inner,
                    ask,
                ),
            ),
            Step::Done(Ok(created)) => created.user == response && created.game is Some
                && create_resumed(
                game,
                told,
                Step::<GameCreation, Result<GameCreationResponse, CreateGameError>>::Done(
                    created.game->Some_0,
                ),
            ),
            _ => false,
        },
        _ => next matches Step::Done(Err(CreateUserError::DatabaseError(e))) && is_misfit(e),
    }
}

/// How the refreshing of an identity goes on when it is told something.
///
/// Told that the identity is not stored, it ends with `UserNotFound` and
/// the platform is never called. Told the platform's reply, it ends with the
/// failure that reports why the reply gives no profile, and nothing is
/// written; or it hands over every field of the profile to be written.
pub open spec fn refresh_resumed(state: UserRefresh, told: Told, next: RefreshStep) -> bool {
    match (state, told) {
        (UserRefresh::AwaitProbe { .. }, Told::Flag(Ok(false))) => next matches Step::Done(
            Err(failure),
        ) && failure is UserNotFound,
        (UserRefresh::AwaitProbe { steam_id }, Told::Flag(Ok(true))) => next matches Step::Ask(
            UserRefresh::AwaitProfile { steam_id: kept },
            Ask::FetchProfile { steam_id: asked },
        ) && kept == steam_id && asked@ == steam_id@,
        (UserRefresh::AwaitProbe { .. }, Told::Flag(Err(e))) => next matches Step::Done(
            Err(UpdateUserError::DatabaseError(passed)),
        ) && passed == e,
        (UserRefresh::AwaitProfile { steam_id }, Told::Reply(reply)) => match profile_in(reply) {
            Err(cause) => next matches Step::Done(Err(failure)) && refresh_reports(failure, cause),
            Ok(player) => next matches Step::Ask(
                UserRefresh::AwaitUpdate,
                Ask::UpdateUser { steam_id: asked, patch },
            ) && asked == steam_id && patch_of(patch, player),
        },
        (UserRefresh::AwaitUpdate, Told::User(Ok(_))) => next matches Step::Done(Ok(response))
            && response.message == ResponseStatus::Success,
        (UserRefresh::AwaitUpdate, Told::User(Err(e))) => next matches Step::Done(
            Err(UpdateUserError::DatabaseError(passed)),
        ) && passed == e,
        _ => next matches Step::Done(Err(UpdateUserError::DatabaseError(e))) && is_misfit(e),
    }
}

/// How the showing of an identity goes on when it is told something: told
/// that the identity is not stored, it ends with `UserNotFound`; a failure
/// of the store is told apart from that.
pub open spec fn lookup_resumed(state: UserLookup, told: Told, next: LookupStep) -> bool {
    match (state, told) {
        (UserLookup::AwaitProbe { .. }, Told::Flag(Ok(false))) => next matches Step::Done(
            Err(failure),
        ) && failure is UserNotFound,
        (UserLookup::AwaitProbe { steam_id }, Told::Flag(Ok(true))) => next == Step::<
            UserLookup,
            Result<GetUserResponse, GetUserError>,
        >::Ask(UserLookup::AwaitRow, Ask::GetUser { steam_id }),
        (UserLookup::AwaitProbe { .. }, Told::Flag(Err(e))) => next matches Step::Done(
            Err(GetUserError::DatabaseError(passed)),
        ) && passed == e,
        (UserLookup::AwaitRow, Told::User(Ok(row))) => next matches Step::Done(Ok(response)) && {
            &&& response.status == ResponseStatus::Success
            &&& response.user.steam_id == row.steam_id
            &&& response.user.username == row.username
            &&& response.user.avatar == row.avatar
            &&& response.user.pf_url == row.pf_url
            &&& response.user.country == row.country
            &&& response.user.current_game == row.current_game
            &&& response.user.persona_state == row.persona_state
            &&& response.user.visibility == row.visibility
            &&& response.user.steam_created_at == row.steam_created_at
        },
        (UserLookup::AwaitRow, Told::User(Err(e))) => next matches Step::Done(
            Err(GetUserError::DatabaseError(passed)),
        ) && passed == e,
        _ => next matches Step::Done(Err(GetUserError::DatabaseError(e))) && is_misfit(e),
    }
}

/// How the deletion of an identity ends when it is told how many rows went:
/// with `UserNotFound` where none went.
pub open spec fn deletion_resumed(told: Told, next: DeletionStep) -> bool {
    match told {
        Told::Deleted(Ok(rows)) => if rows == 0 {
            next matches Step::Done(Err(failure)) && failure is UserNotFound
        } else {
            next == Step::<UserDeletion, Result<u64, DeleteUserError>>::Done(Ok(rows))
        },
        Told::Deleted(Err(e)) => next matches Step::Done(
            Err(DeleteUserError::DatabaseError(passed)),
        ) && passed == e,
        _ => next matches Step::Done(Err(DeleteUserError::DatabaseError(e))) && is_misfit(e),
    }
}

/// How a caller's partial update ends when it is told what was written: with
/// `UserNotFound` where the store found no row to write to.
pub open spec fn patch_resumed(told: Told, next: PatchStep) -> bool {
    match told {
        Told::User(Ok(row)) => next matches Step::Done(Ok(response)) && response.username
            == row.username && response.pf_url == row.pf_url && response.avatar == row.avatar,
        Told::User(Err(StoreError::RowNotFound)) => next matches Step::Done(Err(failure))
            && failure is UserNotFound,
        Told::User(Err(e)) => next matches Step::Done(Err(UpdateUserError::DatabaseError(passed)))
            && passed == e,
        _ => next matches Step::Done(Err(UpdateUserError::DatabaseError(e))) && is_misfit(e),
    }
}

impl UserService {
    /// One page of a listing: the rows of the page, with the envelope that
    /// says which page it is and how many there are.
    pub fn get_users(users: Vec<GetUsers>, total: i64, page: i64, limit: i64) -> (listing:
        GetUsersResponse)
        requires
            limit >= 1,
        ensures
            listing.status == ResponseStatus::Success,
            listing.users == users,
            listing.pagination.total_in_page == users@.len(),
            listing.pagination.total == total,
            listing.pagination.total_pages == page_count(total as int, limit as int),
            listing.pagination.current_page == page,
            listing.pagination.page_size == limit,
    {
        let pagination = envelope(&users, total, page, limit);
        GetUsersResponse { status: ResponseStatus::Success, users, pagination }
    }

    /// The pattern by which a listing is filtered: any text, the wanted
    /// name, any text.
    pub fn search_pattern(username: &str) -> (pattern: String)
        ensures
            pattern@ == "%"@ + username@ + "%"@,
    {
        "%".to_owned().concat(username).concat("%")
    }

    /// The address of an account's summary on the platform.
    pub fn steam_data_url(key: &str, steam_id: &str) -> (url: String)
        ensures
            url@ == "http://api.steampowered.com/ISteamUser/GetPlayerSummaries/v0002/?key="@
                + key@ + "&steamids="@ + steam_id@ + "&format=json"@,
    {
        let url = "http://api.steampowered.com/ISteamUser/GetPlayerSummaries/v0002/?key=".to_owned();
        let url = url.concat(key);
        let url = url.concat("&steamids=");
        let url = url.concat(steam_id);
        url.concat("&format=json")
    }

    /// The failure to create that reports a failure of the platform.
    pub fn failure_of(cause: UpstreamError) -> (failure: CreateUserError)
        ensures
            reports(failure, cause),
    {
        match cause {
            UpstreamError::UpstreamUnreachable(why) => CreateUserError::SteamApiError(
                "Failed to fetch: ".to_owned().concat(why.as_str()),
            ),
            UpstreamError::BadStatus(status) => {
                let code = decimal(status as i64);
                CreateUserError::SteamApiError(
                    "Steam API returned status: ".to_owned().concat(code.as_str()),
                )
            },
            UpstreamError::Malformed => CreateUserError::SteamApiError(
                "Failed to parse".to_owned(),
            ),
            _ => CreateUserError::SteamUserNotFound,
        }
    }

    /// The failure to refresh that reports a failure of the platform.
    pub fn refresh_failure_of(cause: UpstreamError) -> (failure: UpdateUserError)
        ensures
            refresh_reports(failure, cause),
    {
        match cause {
            UpstreamError::UpstreamUnreachable(why) => UpdateUserError::SteamApiError(
                "Failed to fetch: ".to_owned().concat(why.as_str()),
            ),
            UpstreamError::BadStatus(status) => {
                let code = decimal(status as i64);
                UpdateUserError::SteamApiError(
                    "Steam API returned status: ".to_owned().concat(code.as_str()),
                )
            },
            UpstreamError::Malformed => UpdateUserError::SteamApiError(
                "Failed to parse".to_owned(),
            ),
            _ => UpdateUserError::SteamUserNotFound,
        }
    }

    /// Reads an account's profile out of the platform's reply.
    pub fn fetch_steam_data(reply: &Fetched) -> (profile: Result<SteamPlayer, CreateUserError>)
        ensures
            match profile {
                Ok(player) => profile_in(*reply) == Ok::<SteamPlayerView, UpstreamError>(player@),
                Err(failure) => profile_in(*reply) matches Err(cause) && reports(failure, cause),
            },
    {
        match read_profile(reply) {
            Ok(player) => Ok(player),
            Err(cause) => Err(Self::failure_of(cause)),
        }
    }

    /// The new identity that a profile amounts to.
    pub fn user_schema(steam_id: String, player: SteamPlayer) -> (schema: CreateUserSchema)
        ensures
            schema.steam_id == steam_id,
            schema.personaname == player.personaname,
            schema.profileurl == player.profileurl,
            schema.avatar == player.avatar,
            schema.personastate == player.personastate,
            schema.communityvisibilitystate == player.communityvisibilitystate,
            schema.formatted_steam_created_at == source_time(player@.timecreated),
            schema.gameid == player.gameid,
            schema.gameextrainfo == player.gameextrainfo,
            schema.loccountrycode == player.loccountrycode,
            schema_of(schema, steam_id@, player@),
    {
        let timestamp: i64 = match player.timecreated {
            Some(t) => t,
            None => 0,
        };
        let formatted_steam_created_at = if timestamp_in_range(timestamp) {
            Some(timestamp)
        } else {
            None
        };
        CreateUserSchema {
            steam_id,
            personaname: player.personaname,
            profileurl: player.profileurl,
            avatar: player.avatar,
            personastate: player.personastate,
            communityvisibilitystate: player.communityvisibilitystate,
            formatted_steam_created_at,
            gameid: player.gameid,
            gameextrainfo: player.gameextrainfo,
            loccountrycode: player.loccountrycode,
        }
    }

    /// What the platform's update of an identity names: every field of the
    /// profile that is there.
    pub fn refresh_patch(player: SteamPlayer) -> (patch: UpdateUser)
        ensures
            patch.username == Some(player.personaname),
            patch.pf_url == Some(player.profileurl),
            patch.avatar == Some(player.avatar),
            patch.persona_state == Some(player.personastate),
            patch.visibility == Some(player.communityvisibilitystate),
            patch.current_game == player.gameextrainfo,
            patch.country == player.loccountrycode,
            patch.gameid == player.gameid,
            patch_of(patch, player@),
    {
        UpdateUser {
            username: Some(player.personaname),
            pf_url: Some(player.profileurl),
            avatar: Some(player.avatar),
            persona_state: Some(player.personastate),
            visibility: Some(player.communityvisibilitystate),
            current_game: player.gameextrainfo,
            country: player.loccountrycode,
            gameid: player.gameid,
        }
    }

    /// Begins the creation of an identity: it is asked whether the identity
    /// is stored.
    pub fn create_start(steam_id: String) -> (step: CreationStep)
        ensures
            step matches Step::Ask(
                UserCreation::AwaitProbe { steam_id: kept },
                Ask::UserExists { steam_id: asked },
            ) && kept == steam_id && asked@ == steam_id@,
    {
        let asked = steam_id.clone();
        Step::Ask(UserCreation::AwaitProbe { steam_id }, Ask::UserExists { steam_id: asked })
    }

    fn misfit_creation() -> (step: CreationStep)
        ensures
            step matches Step::Done(Err(CreateUserError::DatabaseError(e))) && is_misfit(e),
    {
        Step::Done(Err(CreateUserError::DatabaseError(misfit())))
    }

    /// Goes on with the creation of an identity that was told something.
    pub fn create_resume(state: UserCreation, told: Told) -> (next: CreationStep)
        ensures
            creation_resumed(state, told, next),
    {
        match state {
            UserCreation::AwaitProbe { steam_id } => match told {
                Told::Flag(Ok(true)) => Step::Done(Err(CreateUserError::UserAlreadyExists)),
                Told::Flag(Ok(false)) => {
                    let asked = steam_id.clone();
                    Step::Ask(
                        UserCreation::AwaitProfile { steam_id },
                        Ask::FetchProfile { steam_id: asked },
                    )
                },
                Told::Flag(Err(e)) => Step::Done(Err(CreateUserError::DatabaseError(e))),
                _ => Self::misfit_creation(),
            },
            UserCreation::AwaitProfile { steam_id } => match told {
                Told::Reply(reply) => match Self::fetch_steam_data(&reply) {
                    Err(failure) => Step::Done(Err(failure)),
                    Ok(player) => Step::Ask(
                        UserCreation::AwaitStore,
                        Ask::StoreUser { user: Self::user_schema(steam_id, player) },
                    ),
                },
                _ => Self::misfit_creation(),
            },
            UserCreation::AwaitStore => match told {
                Told::User(Ok(row)) => {
                    let response = UserCreationResponse {
                        username: row.username,
                        pf_url: row.pf_url,
                        avatar: row.avatar,
                    };
                    match row.gameid {
                        None => Step::Done(Ok(CreatedUser { user: response, game: None })),
                        Some(appid) => match GameService::create_start(appid) {
                            Step::Ask(game, ask) => Step::Ask(
                                UserCreation::Enriching { response, game },
                                ask,
                            ),
                            Step::Done(_) => Self::misfit_creation(),
                        },
                    }
                },
                Told::User(Err(e)) => Step::Done(Err(CreateUserError::DatabaseError(e))),
                _ => Self::misfit_creation(),
            },
            UserCreation::Enriching { response, game } => match GameService::create_resume(
                game,
                told,
            ) {
                Step::Ask(inner, ask) => Step::Ask(
                    UserCreation::Enriching { response, game: inner },
                    ask,
                ),
                Step::Done(outcome) => Step::Done(
                    Ok(CreatedUser { user: response, game: Some(outcome) }),
                ),
            },
        }
    }

    /// Creates the identity of an account from what the platform replied,
    /// against the tables in memory.
    ///
    /// An identifier that is stored already is refused as
    /// `UserAlreadyExists`, before either reply is looked at. A reply that
    /// gives no profile is reported, as `SteamUserNotFound` where the platform
    /// knows no such account, and nothing is stored. Otherwise the identity
    /// is stored. Where the profile names a game that is being played, that
    /// game is then mirrored from `game`, as far as that succeeds: a failure
    /// to mirror the game does not fail the creation.
    pub fn create_user(
        users: &mut UserRepository,
        games: &mut GameRepository,
        steam_id: String,
        profile: &Fetched,
        game: &Fetched,
    ) -> (created: Result<UserCreationResponse, CreateUserError>)
        requires
            old(users).wf(),
            old(games).wf(),
        ensures
            final(users).wf(),
            final(games).wf(),
            final(users).now == old(users).now,
            created is Err ==> same_users(*old(users), *final(users)) && untouched(
                *old(games),
                *final(games),
            ),
            if old(users).holds(steam_id@) {
                created matches Err(failure) && failure is UserAlreadyExists
            } else {
                match profile_in(*profile) {
                    Err(cause) => created matches Err(failure) && reports(failure, cause),
                    Ok(player) => match created {
                        Ok(response) => {
                            &&& source_time(player.timecreated) is Some
                            &&& response.username@ == player.personaname
                            &&& response.pf_url@ == player.profileurl
                            &&& response.avatar@ == player.avatar
                            &&& final(users).rows@.len() == old(users).rows@.len() + 1
                            &&& final(users).rows@.drop_last() == old(users).rows@
                            &&& final(users).rows@.last()@ == user_of(
                                steam_id@,
                                player,
                                old(users).next_id,
                                old(users).now,
                            )
                            &&& final(users).holds(steam_id@)
                            &&& match player.gameid {
                                Some(appid) => game_kept(
                                    *old(games),
                                    *final(games),
                                    appid,
                                    *game,
                                ),
                                None => untouched(*old(games), *final(games)),
                            }
                        },
                        Err(failure) => failure matches CreateUserError::DatabaseError(e) && (
                        if source_time(player.timecreated) is None {
                            e is NullViolation
                        } else {
                            e is Exhausted && old(users).next_id == u128::MAX
                        }),
                    },
                }
            },
    {
        let (state, asked) = match Self::create_start(steam_id) {
            Step::Ask(state, Ask::UserExists { steam_id: asked }) => (state, asked),
            _ => { return Err(CreateUserError::DatabaseError(misfit())); },
        };
        let probed = users.check_if_user_exits(asked.as_str());
        let state = match Self::create_resume(state, Told::Flag(probed)) {
            Step::Ask(state, Ask::FetchProfile { steam_id: _ }) => state,
            Step::Done(Err(failure)) => { return Err(failure); },
            _ => { return Err(CreateUserError::DatabaseError(misfit())); },
        };
        let (state, schema) = match Self::create_resume(state, Told::Reply(profile.copy())) {
            Step::Ask(state, Ask::StoreUser { user }) => (state, user),
            Step::Done(Err(failure)) => { return Err(failure); },
            _ => { return Err(CreateUserError::DatabaseError(misfit())); },
        };
        let stored = users.create_user(schema);
        proof {
            if stored is Ok {
                assert(users.rows@.drop_last() =~= old(users).rows@);
            }
        }
        // The identity is stored; from here on nothing fails the creation.
        let step = Self::create_resume(state, Told::User(stored));
        let (state, wanted) = match step {
            Step::Done(Ok(created)) => { return Ok(created.user); },
            Step::Done(Err(failure)) => { return Err(failure); },
            Step::Ask(state, Ask::GameExists { appid: wanted }) => (state, wanted),
            Step::Ask(_, _) => { return Err(CreateUserError::DatabaseError(misfit())); },
        };
        let probed = games.check_if_game_exists(wanted.as_str());
        let step = match Self::create_resume(state, Told::Flag(probed)) {
            Step::Ask(state, Ask::GetGame { appid }) => {
                let found = games.get_game_by_appid(appid.as_str());
                Self::create_resume(state, Told::Game(found))
            },
            Step::Ask(state, Ask::FetchGame { appid: _ }) => {
                match Self::create_resume(state, Told::Reply(game.copy())) {
                    Step::Ask(state, Ask::StoreGame { game: new_game }) => {
                        let stored = games.create_game(new_game);
                        Self::create_resume(state, Told::Game(stored))
                    },
                    other => other,
                }
            },
            other => other,
        };
        match step {
            Step::Done(Ok(created)) => Ok(created.user),
            Step::Done(Err(failure)) => Err(failure),
            Step::Ask(_, _) => Err(CreateUserError::DatabaseError(misfit())),
        }
    }

    /// Begins the deletion of the identity with a local key.
    pub fn delete_start(user_id: u128) -> (step: DeletionStep)
        ensures
            step == Step::<UserDeletion, Result<u64, DeleteUserError>>::Ask(
                UserDeletion,
                Ask::DeleteUser { user_id },
            ),
    {
        Step::Ask(UserDeletion, Ask::DeleteUser { user_id })
    }

    /// Ends the deletion of an identity that was told how many rows went.
    pub fn delete_resume(state: UserDeletion, told: Told) -> (next: DeletionStep)
        ensures
            deletion_resumed(told, next),
    {
        match told {
            Told::Deleted(Ok(rows)) => if rows == 0 {
                Step::Done(Err(DeleteUserError::UserNotFound))
            } else {
                Step::Done(Ok(rows))
            },
            Told::Deleted(Err(e)) => Step::Done(Err(DeleteUserError::DatabaseError(e))),
            _ => Step::Done(Err(DeleteUserError::DatabaseError(misfit()))),
        }
    }

    /// Deletes the identity with a local key from the table in memory, or
    /// `UserNotFound` where no such identity is stored.
    pub fn delete_user(users: &mut UserRepository, user_id: u128) -> (deleted: Result<
        u64,
        DeleteUserError,
    >)
        requires
            old(users).wf(),
        ensures
            final(users).wf(),
            final(users).now == old(users).now,
            final(users).next_id == old(users).next_id,
            match last_match(old(users).rows@, with_user_id(user_id)) {
                Some(i) => deleted matches Ok(n) && n == 1 && final(users).rows@ == old(users).rows@.remove(i),
                None => deleted matches Err(failure) && failure is UserNotFound && final(users).rows@ == old(users).rows@,
            },
    {
        match Self::delete_start(user_id) {
            Step::Ask(state, Ask::DeleteUser { user_id: key }) => {
                let gone = users.delete_user(key);
                match Self::delete_resume(state, Told::Deleted(gone)) {
                    Step::Done(done) => done,
                    Step::Ask(_, _) => Err(DeleteUserError::DatabaseError(misfit())),
                }
            },
            _ => Err(DeleteUserError::DatabaseError(misfit())),
        }
    }

    /// Begins the showing of an identity: whether it is there is probed
    /// first, so that a missing identity and a failing store are told apart.
    pub fn get_start(steam_id: String) -> (step: LookupStep)
        ensures
            step matches Step::Ask(
                UserLookup::AwaitProbe { steam_id: kept },
                Ask::UserExists { steam_id: asked },
            ) && kept == steam_id && asked@ == steam_id@,
    {
        let asked = steam_id.clone();
        Step::Ask(UserLookup::AwaitProbe { steam_id }, Ask::UserExists { steam_id: asked })
    }

    /// Goes on with the showing of an identity that was told something.
    pub fn get_resume(state: UserLookup, told: Told) -> (next: LookupStep)
        ensures
            lookup_resumed(state, told, next),
    {
        match state {
            UserLookup::AwaitProbe { steam_id } => match told {
                Told::Flag(Ok(false)) => Step::Done(Err(GetUserError::UserNotFound)),
                Told::Flag(Ok(true)) => Step::Ask(UserLookup::AwaitRow, Ask::GetUser { steam_id }),
                Told::Flag(Err(e)) => Step::Done(Err(GetUserError::DatabaseError(e))),
                _ => Step::Done(Err(GetUserError::DatabaseError(misfit()))),
            },
            UserLookup::AwaitRow => match told {
                Told::User(Ok(row)) => Step::Done(
                    Ok(GetUserResponse { status: ResponseStatus::Success, user: row.shown() }),
                ),
                Told::User(Err(e)) => Step::Done(Err(GetUserError::DatabaseError(e))),
                _ => Step::Done(Err(GetUserError::DatabaseError(misfit()))),
            },
        }
    }

    /// Shows the identity with an external identifier that is stored in
    /// memory, or `UserNotFound`.
    pub fn get_user(users: &UserRepository, steam_id: &str) -> (found: Result<
        GetUserResponse,
        GetUserError,
    >)
        ensures
            match found {
                Ok(response) => {
                    &&& users.holds(steam_id@)
                    &&& response.status == ResponseStatus::Success
                    &&& response.user.steam_id == users.row(steam_id@).steam_id
                    &&& response.user.username == users.row(steam_id@).username
                    &&& response.user.avatar == users.row(steam_id@).avatar
                    &&& response.user.pf_url == users.row(steam_id@).pf_url
                    &&& response.user.country == users.row(steam_id@).country
                    &&& response.user.current_game == users.row(steam_id@).current_game
                    &&& response.user.persona_state == users.row(steam_id@).persona_state
                    &&& response.user.visibility == users.row(steam_id@).visibility
                    &&& response.user.steam_created_at == users.row(steam_id@).steam_created_at
                },
                Err(failure) => !users.holds(steam_id@) && failure is UserNotFound,
            },
    {
        let (state, asked) = match Self::get_start(steam_id.to_owned()) {
            Step::Ask(state, Ask::UserExists { steam_id: asked }) => (state, asked),
            _ => { return Err(GetUserError::DatabaseError(misfit())); },
        };
        let probed = users.check_if_user_exits(asked.as_str());
        match Self::get_resume(state, Told::Flag(probed)) {
            Step::Done(done) => done,
            Step::Ask(state, Ask::GetUser { steam_id: wanted }) => {
                let found = users.get_row(wanted.as_str());
                match Self::get_resume(state, Told::User(found)) {
                    Step::Done(done) => done,
                    Step::Ask(_, _) => Err(GetUserError::DatabaseError(misfit())),
                }
            },
            Step::Ask(_, _) => Err(GetUserError::DatabaseError(misfit())),
        }
    }

    /// Begins the refreshing of an identity: it is asked whether the
    /// identity is stored.
    pub fn update_start(steam_id: String) -> (step: RefreshStep)
        ensures
            step matches Step::Ask(
                UserRefresh::AwaitProbe { steam_id: kept },
                Ask::UserExists { steam_id: asked },
            ) && kept == steam_id && asked@ == steam_id@,
    {
        let asked = steam_id.clone();
        Step::Ask(UserRefresh::AwaitProbe { steam_id }, Ask::UserExists { steam_id: asked })
    }

    /// Goes on with the refreshing of an identity that was told something.
    pub fn update_resume(state: UserRefresh, told: Told) -> (next: RefreshStep)
        ensures
            refresh_resumed(state, told, next),
    {
        match state {
            UserRefresh::AwaitProbe { steam_id } => match told {
                Told::Flag(Ok(false)) => Step::Done(Err(UpdateUserError::UserNotFound)),
                Told::Flag(Ok(true)) => {
                    let asked = steam_id.clone();
                    Step::Ask(
                        UserRefresh::AwaitProfile { steam_id },
                        Ask::FetchProfile { steam_id: asked },
                    )
                },
                Told::Flag(Err(e)) => Step::Done(Err(UpdateUserError::DatabaseError(e))),
                _ => Step::Done(Err(UpdateUserError::DatabaseError(misfit()))),
            },
            UserRefresh::AwaitProfile { steam_id } => match told {
                Told::Reply(reply) => match read_profile(&reply) {
                    Err(cause) => Step::Done(Err(Self::refresh_failure_of(cause))),
                    Ok(player) => Step::Ask(
                        UserRefresh::AwaitUpdate,
                        Ask::UpdateUser { steam_id, patch: Self::refresh_patch(player) },
                    ),
                },
                _ => Step::Done(Err(UpdateUserError::DatabaseError(misfit()))),
            },
            UserRefresh::AwaitUpdate => match told {
                Told::User(Ok(_)) => Step::Done(
                    Ok(UpdateUserResponse { message: ResponseStatus::Success }),
                ),
                Told::User(Err(e)) => Step::Done(Err(UpdateUserError::DatabaseError(e))),
                _ => Step::Done(Err(UpdateUserError::DatabaseError(misfit()))),
            },
        }
    }

    /// Refreshes an identity that is stored in memory from what the platform
    /// replied: every field that the profile holds replaces the stored one.
    /// An identifier that is not stored is `UserNotFound`, and the reply is
    /// not looked at. A reply that gives no profile is reported and leaves
    /// the stored identity as it is.
    pub fn update_user(users: &mut UserRepository, steam_id: &str, reply: &Fetched) -> (updated:
        Result<UpdateUserResponse, UpdateUserError>)
        requires
            old(users).wf(),
        ensures
            final(users).wf(),
            final(users).now == old(users).now,
            final(users).next_id == old(users).next_id,
            updated is Err ==> final(users).rows@ == old(users).rows@,
            if !old(users).holds(steam_id@) {
                updated matches Err(failure) && failure is UserNotFound
            } else {
                match profile_in(*reply) {
                    Err(cause) => updated matches Err(failure) && refresh_reports(failure, cause),
                    Ok(player) => {
                        &&& updated matches Ok(response) && response.message
                            == ResponseStatus::Success
                        &&& final(users).rows@.len() == old(users).rows@.len()
                        &&& final(users).holds(steam_id@)
                        &&& final(users).find(steam_id@) == old(users).find(steam_id@)
                        &&& final(users).row(steam_id@)@ == refreshed(
                            old(users).row(steam_id@)@,
                            player,
                            old(users).now,
                        )
                        &&& forall|i: int|
                            0 <= i < old(users).rows@.len() && Some(i) != old(users).find(
                                steam_id@,
                            ) ==> #[trigger] final(users).rows@[i] == old(users).rows@[i]
                    },
                }
            },
    {
        let (state, asked) = match Self::update_start(steam_id.to_owned()) {
            Step::Ask(state, Ask::UserExists { steam_id: asked }) => (state, asked),
            _ => { return Err(UpdateUserError::DatabaseError(misfit())); },
        };
        let probed = users.check_if_user_exits(asked.as_str());
        let state = match Self::update_resume(state, Told::Flag(probed)) {
            Step::Ask(state, Ask::FetchProfile { steam_id: _ }) => state,
            Step::Done(done) => { return done; },
            Step::Ask(_, _) => { return Err(UpdateUserError::DatabaseError(misfit())); },
        };
        let (state, wanted, patch) = match Self::update_resume(state, Told::Reply(reply.copy())) {
            Step::Ask(state, Ask::UpdateUser { steam_id: wanted, patch }) => (state, wanted, patch),
            Step::Done(done) => { return done; },
            Step::Ask(_, _) => { return Err(UpdateUserError::DatabaseError(misfit())); },
        };
        let written = users.update_user(wanted.as_str(), &patch);
        proof {
            crate::repositories::table::lemma_last_match(
                old(users).rows@,
                crate::repositories::user_repository::with_steam_id(steam_id@),
            );
            lemma_update_keeps_place(
                old(users).rows@,
                users.rows@,
                old(users).find(steam_id@)->Some_0,
                steam_id@,
            );
        }
        match Self::update_resume(state, Told::User(written)) {
            Step::Done(done) => done,
            Step::Ask(_, _) => Err(UpdateUserError::DatabaseError(misfit())),
        }
    }

    /// Begins a caller's partial update: the fields that the update names
    /// are handed over to be written.
    pub fn patch_start(steam_id: String, body: UpdateUserSchema) -> (step: PatchStep)
        ensures
            step matches Step::Ask(UserPatch, Ask::UpdateUser { steam_id: asked, patch })
                && asked == steam_id && patch_from(patch, body),
    {
        let patch = UpdateUser {
            username: body.username,
            pf_url: body.pf_url,
            avatar: body.avatar,
            persona_state: body.persona_state,
            visibility: body.visibility,
            current_game: body.current_game,
            country: body.country,
            gameid: None,
        };
        Step::Ask(UserPatch, Ask::UpdateUser { steam_id, patch })
    }

    /// Ends a caller's partial update that was told what was written.
    pub fn patch_resume(state: UserPatch, told: Told) -> (next: PatchStep)
        ensures
            patch_resumed(told, next),
    {
        match told {
            Told::User(Ok(row)) => Step::Done(
                Ok(
                    UserUpdateResponse {
                        username: row.username,
                        pf_url: row.pf_url,
                        avatar: row.avatar,
                    },
                ),
            ),
            Told::User(Err(StoreError::RowNotFound)) => Step::Done(
                Err(UpdateUserError::UserNotFound),
            ),
            Told::User(Err(e)) => Step::Done(Err(UpdateUserError::DatabaseError(e))),
            _ => Step::Done(Err(UpdateUserError::DatabaseError(misfit()))),
        }
    }

    /// Applies a caller's partial update to an identity that is stored in
    /// memory: a field that the update names is written, a field that it
    /// leaves out stays as stored.
    pub fn patch_user(users: &mut UserRepository, steam_id: &str, body: UpdateUserSchema) -> (updated:
        Result<UserUpdateResponse, UpdateUserError>)
        requires
            old(users).wf(),
        ensures
            final(users).wf(),
            final(users).now == old(users).now,
            final(users).next_id == old(users).next_id,
            if !old(users).holds(steam_id@) {
                updated matches Err(failure) && failure is UserNotFound && final(users).rows@
                    == old(users).rows@
            } else {
                let row = patched(old(users).row(steam_id@)@, body, old(users).now);
                &&& updated matches Ok(response) && response.username@ == row.username
                    && response.pf_url@ == row.pf_url && response.avatar@ == row.avatar
                &&& final(users).rows@.len() == old(users).rows@.len()
                &&& final(users).find(steam_id@) == old(users).find(steam_id@)
                &&& final(users).row(steam_id@)@ == row
                &&& forall|i: int|
                    0 <= i < old(users).rows@.len() && Some(i) != old(users).find(steam_id@)
                        ==> #[trigger] final(users).rows@[i] == old(users).rows@[i]
            },
    {
        match Self::patch_start(steam_id.to_owned(), body) {
            Step::Ask(state, Ask::UpdateUser { steam_id: wanted, patch }) => {
                let written = users.update_user(wanted.as_str(), &patch);
                proof {
                    if old(users).holds(steam_id@) {
                        crate::repositories::table::lemma_last_match(
                            old(users).rows@,
                            crate::repositories::user_repository::with_steam_id(steam_id@),
                        );
                        lemma_update_keeps_place(
                            old(users).rows@,
                            users.rows@,
                            old(users).find(steam_id@)->Some_0,
                            steam_id@,
                        );
                    }
                }
                match Self::patch_resume(state, Told::User(written)) {
                    Step::Done(done) => done,
                    Step::Ask(_, _) => Err(UpdateUserError::DatabaseError(misfit())),
                }
            },
            _ => Err(UpdateUserError::DatabaseError(misfit())),
        }
    }
}

/// Writing a row over the one found for an identifier, with the same
/// identifier, leaves it where it was found.
pub proof fn lemma_update_keeps_place(
    before: Seq<UserModel>,
    after: Seq<UserModel>,
    place: int,
    steam_id: Seq<char>,
)
    requires
        0 <= place < before.len(),
        after.len() == before.len(),
        forall|i: int| 0 <= i < before.len() && i != place ==> after[i] == before[i],
        after[place].steam_id@ == steam_id,
        before[place].steam_id@ == steam_id,
        last_match(before, crate::repositories::user_repository::with_steam_id(steam_id)) == Some(
            place,
        ),
    ensures
        last_match(after, crate::repositories::user_repository::with_steam_id(steam_id)) == Some(
            place,
        ),
    decreases before.len(),
{
    let hit = crate::repositories::user_repository::with_steam_id(steam_id);
    if place == before.len() - 1 {
        assert(hit(after.last()));
    } else {
        assert(after.last() == before.last());
        assert(!hit(before.last()));
        let b = before.drop_last();
        let a = after.drop_last();
        assert forall|i: int| 0 <= i < b.len() && i != place implies a[i] == b[i] by {
            assert(a[i] == after[i]);
            assert(b[i] == before[i]);
        }
        lemma_update_keeps_place(b, a, place, steam_id);
    }
}

} // verus!
