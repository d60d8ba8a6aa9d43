//! Identities: the local mirror of one external account.

use crate::models::response_status::ResponseStatus;
use crate::pagination::PaginationMeta;
use crate::steam::decode::optional_text;
use vstd::prelude::*;

verus! {

/// A stored identity. `steam_id` is the stable external identifier and is
/// unique; `id` is the local key and never leaves the store.
#[derive(Debug)]
pub struct UserModel {
    pub id: u128,
    pub steam_id: String,
    pub username: String,
    pub pf_url: String,
    pub avatar: String,
    pub persona_state: i32,
    pub visibility: i32,
    pub steam_created_at: i64,
    pub gameid: Option<String>,
    pub current_game: Option<String>,
    pub country: Option<String>,
    pub created_at: Option<i64>,
    pub updated_at: Option<i64>,
}

/// The mathematical content of a stored identity.
pub struct UserView {
    pub id: u128,
    pub steam_id: Seq<char>,
    pub username: Seq<char>,
    pub pf_url: Seq<char>,
    pub avatar: Seq<char>,
    pub persona_state: i32,
    pub visibility: i32,
    pub steam_created_at: i64,
    pub gameid: Option<Seq<char>>,
    pub current_game: Option<Seq<char>>,
    pub country: Option<Seq<char>>,
    pub created_at: Option<i64>,
    pub updated_at: Option<i64>,
}

impl View for UserModel {
    type V = UserView;

    open spec fn view(&self) -> UserView {
        UserView {
            id: self.id,
            steam_id: self.steam_id@,
            username: self.username@,
            pf_url: self.pf_url@,
            avatar: self.avatar@,
            persona_state: self.persona_state,
            visibility: self.visibility,
            steam_created_at: self.steam_created_at,
            gameid: optional_text(self.gameid),
            current_game: optional_text(self.current_game),
            country: optional_text(self.country),
            created_at: self.created_at,
            updated_at: self.updated_at,
        }
    }
}

/// A request to mirror an account.
#[derive(Debug)]
pub struct CreateUserRequest {
    pub steam_id: String,
}

/// A new identity, ready to be stored.
#[derive(Debug)]
pub struct CreateUserSchema {
    pub steam_id: String,
    pub personaname: String,
    pub profileurl: String,
    pub avatar: String,
    pub personastate: i32,
    pub communityvisibilitystate: i32,
    pub formatted_steam_created_at: Option<i64>,
    pub gameid: Option<String>,
    pub gameextrainfo: Option<String>,
    pub loccountrycode: Option<String>,
}

/// What the creation of an identity reports back.
#[derive(Debug)]
pub struct UserCreationResponse {
    pub username: String,
    pub pf_url: String,
    pub avatar: String,
}

/// One identity in a listing.
#[derive(Debug)]
pub struct GetUsers {
    pub steam_id: String,
    pub username: String,
    pub avatar: String,
    pub pf_url: String,
    pub current_game: Option<String>,
}

/// One page of a listing.
#[derive(Debug)]
pub struct GetUsersResponse {
    pub status: ResponseStatus,
    pub users: Vec<GetUsers>,
    pub pagination: PaginationMeta,
}

/// An identity as it is shown.
#[derive(Debug)]
pub struct GetUser {
    pub steam_id: String,
    pub username: String,
    pub avatar: String,
    pub pf_url: String,
    pub country: Option<String>,
    pub current_game: Option<String>,
    pub persona_state: i32,
    pub visibility: i32,
    pub steam_created_at: i64,
}

/// The reply that shows an identity.
#[derive(Debug)]
pub struct GetUserResponse {
    pub status: ResponseStatus,
    pub user: GetUser,
}

/// A partial update sent by a caller: a field that is `None` is left as it is.
#[derive(Debug)]
pub struct UpdateUserSchema {
    pub username: Option<String>,
    pub pf_url: Option<String>,
    pub avatar: Option<String>,
    pub persona_state: Option<i32>,
    pub visibility: Option<i32>,
    pub current_game: Option<String>,
    pub country: Option<String>,
}

/// What a partial update reports back.
#[derive(Debug)]
pub struct UserUpdateResponse {
    pub username: String,
    pub pf_url: String,
    pub avatar: String,
}

/// The fields that a refresh from the external source writes.
#[derive(Debug)]
pub struct UpdateUser {
    pub username: Option<String>,
    pub pf_url: Option<String>,
    pub avatar: Option<String>,
    pub persona_state: Option<i32>,
    pub visibility: Option<i32>,
    pub current_game: Option<String>,
    pub country: Option<String>,
    pub gameid: Option<String>,
}

/// What a refresh reports back.
#[derive(Debug)]
pub struct UpdateUserResponse {
    pub message: ResponseStatus,
}

/// A copy of a string that may be missing.
pub fn copy_optional_text(text: &Option<String>) -> (copy: Option<String>)
    ensures
        copy == *text,
{
    match text {
        Some(s) => Some(s.clone()),
        None => None,
    }
}

impl UserModel {
    pub fn copy(&self) -> (copy: UserModel)
        ensures
            copy == *self,
    {
        UserModel {
            id: self.id,
            steam_id: self.steam_id.clone(),
            username: self.username.clone(),
            pf_url: self.pf_url.clone(),
            avatar: self.avatar.clone(),
            persona_state: self.persona_state,
            visibility: self.visibility,
            steam_created_at: self.steam_created_at,
            gameid: copy_optional_text(&self.gameid),
            current_game: copy_optional_text(&self.current_game),
            country: copy_optional_text(&self.country),
            created_at: self.created_at,
            updated_at: self.updated_at,
        }
    }

    /// The row as it is shown on its own.
    pub fn shown(&self) -> (user: GetUser)
        ensures
            user.steam_id == self.steam_id,
            user.username == self.username,
            user.avatar == self.avatar,
            user.pf_url == self.pf_url,
            user.country == self.country,
            user.current_game == self.current_game,
            user.persona_state == self.persona_state,
            user.visibility == self.visibility,
            user.steam_created_at == self.steam_created_at,
    {
        GetUser {
            steam_id: self.steam_id.clone(),
            username: self.username.clone(),
            avatar: self.avatar.clone(),
            pf_url: self.pf_url.clone(),
            country: copy_optional_text(&self.country),
            current_game: copy_optional_text(&self.current_game),
            persona_state: self.persona_state,
            visibility: self.visibility,
            steam_created_at: self.steam_created_at,
        }
    }
}

} // verus!
