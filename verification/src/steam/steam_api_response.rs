//! The reply to a request for player summaries.

use crate::json::Json;
use crate::steam::decode::{all_decoded, Decode, decode_all, optional_int, optional_text, views};
use vstd::prelude::*;

verus! {

/// The reply as a whole.
#[derive(Debug)]
pub struct SteamResponse {
    pub response: SteamPlayers,
}

/// The players that matched the request.
#[derive(Debug)]
pub struct SteamPlayers {
    pub players: Vec<SteamPlayer>,
}

/// One player's public profile.
#[derive(Debug)]
pub struct SteamPlayer {
    pub steamid: String,
    pub personaname: String,
    pub profileurl: String,
    pub avatar: String,
    pub avatarmedium: String,
    pub avatarfull: String,
    pub personastate: i32,
    pub communityvisibilitystate: i32,
    pub timecreated: Option<i64>,
    pub loccountrycode: Option<String>,
    pub gameextrainfo: Option<String>,
    pub gameid: Option<String>,
}

/// The mathematical content of a `SteamPlayer`.
pub struct SteamPlayerView {
    pub steamid: Seq<char>,
    pub personaname: Seq<char>,
    pub profileurl: Seq<char>,
    pub avatar: Seq<char>,
    pub avatarmedium: Seq<char>,
    pub avatarfull: Seq<char>,
    pub personastate: int,
    pub communityvisibilitystate: int,
    pub timecreated: Option<int>,
    pub loccountrycode: Option<Seq<char>>,
    pub gameextrainfo: Option<Seq<char>>,
    pub gameid: Option<Seq<char>>,
}

impl View for SteamPlayer {
    type V = SteamPlayerView;

    open spec fn view(&self) -> SteamPlayerView {
        SteamPlayerView {
            steamid: self.steamid@,
            personaname: self.personaname@,
            profileurl: self.profileurl@,
            avatar: self.avatar@,
            avatarmedium: self.avatarmedium@,
            avatarfull: self.avatarfull@,
            personastate: self.personastate as int,
            communityvisibilitystate: self.communityvisibilitystate as int,
            timecreated: optional_int(self.timecreated),
            loccountrycode: optional_text(self.loccountrycode),
            gameextrainfo: optional_text(self.gameextrainfo),
            gameid: optional_text(self.gameid),
        }
    }
}

impl View for SteamPlayers {
    type V = Seq<SteamPlayerView>;

    open spec fn view(&self) -> Seq<SteamPlayerView> {
        views(self.players@)
    }
}

impl View for SteamResponse {
    type V = Seq<SteamPlayerView>;

    open spec fn view(&self) -> Seq<SteamPlayerView> {
        self.response@
    }
}

impl Decode for SteamPlayer {
    /// A player is an object with the string members `steamid`, `personaname`,
    /// `profileurl`, `avatar`, `avatarmedium` and `avatarfull`, the members
    /// `personastate` and `communityvisibilitystate`, each a whole number
    /// within `i32` written as a number or as a string, and the optional
    /// members `timecreated` (a whole number in either form),
    /// `loccountrycode`, `gameextrainfo` and `gameid` (strings).
    open spec fn decoded(j: Json) -> Option<SteamPlayerView> {
        if j.text_at("steamid"@) is Some && j.text_at("personaname"@) is Some && j.text_at(
            "profileurl"@,
        ) is Some && j.text_at("avatar"@) is Some && j.text_at("avatarmedium"@) is Some
            && j.text_at("avatarfull"@) is Some && j.loose_i32_at("personastate"@) is Some
            && j.loose_i32_at("communityvisibilitystate"@) is Some && j.optional_loose_integer_at(
            "timecreated"@,
        ) is Some && j.optional_text_at("loccountrycode"@) is Some && j.optional_text_at(
            "gameextrainfo"@,
        ) is Some && j.optional_text_at("gameid"@) is Some {
            Some(
                SteamPlayerView {
                    steamid: j.text_at("steamid"@)->Some_0,
                    personaname: j.text_at("personaname"@)->Some_0,
                    profileurl: j.text_at("profileurl"@)->Some_0,
                    avatar: j.text_at("avatar"@)->Some_0,
                    avatarmedium: j.text_at("avatarmedium"@)->Some_0,
                    avatarfull: j.text_at("avatarfull"@)->Some_0,
                    personastate: j.loose_i32_at("personastate"@)->Some_0,
                    communityvisibilitystate: j.loose_i32_at("communityvisibilitystate"@)->Some_0,
                    timecreated: j.optional_loose_integer_at("timecreated"@)->Some_0,
                    loccountrycode: j.optional_text_at("loccountrycode"@)->Some_0,
                    gameextrainfo: j.optional_text_at("gameextrainfo"@)->Some_0,
                    gameid: j.optional_text_at("gameid"@)->Some_0,
                },
            )
        } else {
            None
        }
    }

    fn decode(j: &Json) -> (record: Option<SteamPlayer>) {
        let steamid = match j.get_text("steamid") {
            Some(s) => s.clone(),
            None => { return None; },
        };
        let personaname = match j.get_text("personaname") {
            Some(s) => s.clone(),
            None => { return None; },
        };
        let profileurl = match j.get_text("profileurl") {
            Some(s) => s.clone(),
            None => { return None; },
        };
        let avatar = match j.get_text("avatar") {
            Some(s) => s.clone(),
            None => { return None; },
        };
        let avatarmedium = match j.get_text("avatarmedium") {
            Some(s) => s.clone(),
            None => { return None; },
        };
        let avatarfull = match j.get_text("avatarfull") {
            Some(s) => s.clone(),
            None => { return None; },
        };
        let personastate = match j.get_loose_i32("personastate") {
            Some(n) => n,
            None => { return None; },
        };
        let communityvisibilitystate = match j.get_loose_i32("communityvisibilitystate") {
            Some(n) => n,
            None => { return None; },
        };
        let timecreated = match j.get_optional_loose_integer("timecreated") {
            Some(n) => n,
            None => { return None; },
        };
        let loccountrycode = match j.get_optional_text("loccountrycode") {
            Some(s) => s,
            None => { return None; },
        };
        let gameextrainfo = match j.get_optional_text("gameextrainfo") {
            Some(s) => s,
            None => { return None; },
        };
        let gameid = match j.get_optional_text("gameid") {
            Some(s) => s,
            None => { return None; },
        };
        Some(
            SteamPlayer {
                steamid,
                personaname,
                profileurl,
                avatar,
                avatarmedium,
                avatarfull,
                personastate,
                communityvisibilitystate,
                timecreated,
                loccountrycode,
                gameextrainfo,
                gameid,
            },
        )
    }
}

/// The players of a reply: the list `players` of the object `response`, each
/// of its values a player. A reply of another shape holds none.
pub open spec fn players_in(reply: Json) -> Option<Seq<SteamPlayerView>> {
    match reply.field("response"@) {
        Some(response) => match response.field("players"@) {
            Some(Json::List(items)) => all_decoded::<SteamPlayer>(items@),
            _ => None,
        },
        None => None,
    }
}

impl Decode for SteamResponse {
    open spec fn decoded(j: Json) -> Option<Seq<SteamPlayerView>> {
        players_in(j)
    }

    fn decode(j: &Json) -> (record: Option<SteamResponse>) {
        let response = match j.get("response") {
            Some(r) => r,
            None => { return None; },
        };
        let items = match response.get("players") {
            Some(p) => match p.as_list() {
                Some(items) => items,
                None => { return None; },
            },
            None => { return None; },
        };
        match decode_all::<SteamPlayer>(items) {
            Some(players) => Some(SteamResponse { response: SteamPlayers { players } }),
            None => None,
        }
    }
}

} // verus!
