//! The reply to a request for the details of one application.

use crate::json::Json;
use crate::steam::decode::{all_decoded, Decode, decode_all, optional_int, optional_views};
use vstd::prelude::*;

verus! {

/// One screenshot of an application.
#[derive(Debug)]
pub struct Screenshot {
    pub path_full: String,
}

/// The details of an application.
#[derive(Debug)]
pub struct GameData {
    pub name: String,
    pub short_description: String,
    pub header_image: String,
    pub screenshots: Option<Vec<Screenshot>>,
    pub steam_appid: Option<i64>,
    pub required_age: Option<i64>,
}

/// What the platform answers for one application id: whether it knows the
/// application, and its details where it does.
#[derive(Debug)]
pub struct SteamGameResponse {
    pub success: bool,
    pub data: Option<GameData>,
}

impl View for Screenshot {
    type V = Seq<char>;

    open spec fn view(&self) -> Seq<char> {
        self.path_full@
    }
}

/// The mathematical content of `GameData`.
pub struct GameDataView {
    pub name: Seq<char>,
    pub short_description: Seq<char>,
    pub header_image: Seq<char>,
    pub screenshots: Option<Seq<Seq<char>>>,
    pub steam_appid: Option<int>,
    pub required_age: Option<int>,
}

impl View for GameData {
    type V = GameDataView;

    open spec fn view(&self) -> GameDataView {
        GameDataView {
            name: self.name@,
            short_description: self.short_description@,
            header_image: self.header_image@,
            screenshots: optional_views(self.screenshots),
            steam_appid: optional_int(self.steam_appid),
            required_age: optional_int(self.required_age),
        }
    }
}

/// The mathematical content of a `SteamGameResponse`.
pub struct SteamGameResponseView {
    pub success: bool,
    pub data: Option<GameDataView>,
}

impl View for SteamGameResponse {
    type V = SteamGameResponseView;

    open spec fn view(&self) -> SteamGameResponseView {
        SteamGameResponseView {
            success: self.success,
            data: match self.data {
                Some(d) => Some(d@),
                None => None,
            },
        }
    }
}

impl Decode for Screenshot {
    /// A screenshot is an object with the string member `path_full`.
    open spec fn decoded(j: Json) -> Option<Seq<char>> {
        j.text_at("path_full"@)
    }

    fn decode(j: &Json) -> (record: Option<Screenshot>) {
        match j.get_text("path_full") {
            Some(s) => Some(Screenshot { path_full: s.clone() }),
            None => None,
        }
    }
}

/// The screenshots of an application: none where the member `screenshots` is
/// missing or `null`, else a list in which every value is a screenshot.
pub open spec fn screenshots_in(j: Json) -> Option<Option<Seq<Seq<char>>>> {
    match j.present("screenshots"@) {
        None => Some(None),
        Some(Json::List(items)) => match all_decoded::<Screenshot>(items@) {
            Some(list) => Some(Some(list)),
            None => None,
        },
        Some(_) => None,
    }
}

fn decode_screenshots(j: &Json) -> (found: Option<Option<Vec<Screenshot>>>)
    ensures
        match found {
            Some(list) => screenshots_in(*j) == Some(optional_views(list)),
            None => screenshots_in(*j) is None,
        },
{
    match j.get_present("screenshots") {
        None => Some(None),
        Some(value) => match value.as_list() {
            Some(items) => match decode_all::<Screenshot>(items) {
                Some(list) => Some(Some(list)),
                None => None,
            },
            None => None,
        },
    }
}

impl Decode for GameData {
    /// The details are an object whose members `name`, `short_description`
    /// and `header_image` are strings where they are there, whose member
    /// `screenshots` is a list of screenshots where it is there, and whose
    /// members `steam_appid` and `required_age`, where they are there, are
    /// whole numbers written as numbers or as strings.
    open spec fn decoded(j: Json) -> Option<GameDataView> {
        if j.text_or_empty_at("name"@) is Some && j.text_or_empty_at("short_description"@) is Some
            && j.text_or_empty_at("header_image"@) is Some && screenshots_in(j) is Some
            && j.optional_loose_integer_at("steam_appid"@) is Some && j.optional_loose_integer_at(
            "required_age"@,
        ) is Some {
            Some(
                GameDataView {
                    name: j.text_or_empty_at("name"@)->Some_0,
                    short_description: j.text_or_empty_at("short_description"@)->Some_0,
                    header_image: j.text_or_empty_at("header_image"@)->Some_0,
                    screenshots: screenshots_in(j)->Some_0,
                    steam_appid: j.optional_loose_integer_at("steam_appid"@)->Some_0,
                    required_age: j.optional_loose_integer_at("required_age"@)->Some_0,
                },
            )
        } else {
            None
        }
    }

    fn decode(j: &Json) -> (record: Option<GameData>) {
        let name = match j.get_text_or_empty("name") {
            Some(s) => s,
            None => { return None; },
        };
        let short_description = match j.get_text_or_empty("short_description") {
            Some(s) => s,
            None => { return None; },
        };
        let header_image = match j.get_text_or_empty("header_image") {
            Some(s) => s,
            None => { return None; },
        };
        let screenshots = match decode_screenshots(j) {
            Some(list) => list,
            None => { return None; },
        };
        let steam_appid = match j.get_optional_loose_integer("steam_appid") {
            Some(n) => n,
            None => { return None; },
        };
        let required_age = match j.get_optional_loose_integer("required_age") {
            Some(n) => n,
            None => { return None; },
        };
        Some(
            GameData {
                name,
                short_description,
                header_image,
                screenshots,
                steam_appid,
                required_age,
            },
        )
    }
}

/// The details in an answer: none where the member `data` is missing or
/// `null`.
pub open spec fn data_in(j: Json) -> Option<Option<GameDataView>> {
    match j.present("data"@) {
        None => Some(None),
        Some(value) => match GameData::decoded(value) {
            Some(d) => Some(Some(d)),
            None => None,
        },
    }
}

impl Decode for SteamGameResponse {
    /// An answer is an object with the member `success`, `true` or `false`,
    /// and the details under `data` where there are any.
    open spec fn decoded(j: Json) -> Option<SteamGameResponseView> {
        match (j.bool_at("success"@), data_in(j)) {
            (Some(success), Some(data)) => Some(SteamGameResponseView { success, data }),
            _ => None,
        }
    }

    fn decode(j: &Json) -> (record: Option<SteamGameResponse>) {
        let success = match j.get_bool("success") {
            Some(b) => b,
            None => { return None; },
        };
        let data = match j.get_present("data") {
            None => None,
            Some(value) => match GameData::decode(value) {
                Some(d) => Some(d),
                None => { return None; },
            },
        };
        Some(SteamGameResponse { success, data })
    }
}

} // verus!
