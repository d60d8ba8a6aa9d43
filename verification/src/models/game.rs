//! Games, and which identity has which game.

use crate::steam::decode::optional_text;
use vstd::prelude::*;

verus! {

/// A stored game. `appid` is the external application id and is unique.
#[derive(Debug)]
pub struct GameModel {
    pub id: u128,
    pub appid: String,
    pub name: String,
    pub short_description: Option<String>,
    pub header_image: Option<String>,
    pub screenshots: Option<Vec<String>>,
}

/// A game as replies show it.
#[derive(Debug)]
pub struct GameCreationResponse {
    pub appid: String,
    pub name: String,
    pub short_description: Option<String>,
    pub header_image: Option<String>,
    pub screenshots: Option<Vec<String>>,
}

/// A request to mirror a game.
#[derive(Debug)]
pub struct CreateGameRequest {
    pub appid: String,
}

/// A new game, ready to be stored.
#[derive(Debug)]
pub struct CreateGameSchema {
    pub appid: String,
    pub name: String,
    pub short_description: String,
    pub header_image: String,
    pub screenshots: Vec<String>,
}

/// A request to bind an identity to a game, both by their local keys.
#[derive(Clone, Copy, Debug, PartialEq, Eq, Structural)]
pub struct BindUserToGameSchema {
    pub user_id: u128,
    pub game_id: u128,
}

/// A stored binding: this identity has this game. The pair is unique.
#[derive(Clone, Copy, Debug, PartialEq, Eq, Structural)]
pub struct UserGamesModel {
    pub id: u128,
    pub user_id: u128,
    pub game_id: u128,
}

/// The characters of each string of a list.
pub open spec fn texts(list: Seq<String>) -> Seq<Seq<char>> {
    list.map_values(|s: String| s@)
}

/// The characters of each string of a list that may be missing.
pub open spec fn optional_texts(list: Option<Vec<String>>) -> Option<Seq<Seq<char>>> {
    match list {
        Some(l) => Some(texts(l@)),
        None => None,
    }
}

/// The mathematical content of a game, stored or shown.
pub struct GameView {
    pub appid: Seq<char>,
    pub name: Seq<char>,
    pub short_description: Option<Seq<char>>,
    pub header_image: Option<Seq<char>>,
    pub screenshots: Option<Seq<Seq<char>>>,
}

impl View for GameModel {
    type V = GameView;

    open spec fn view(&self) -> GameView {
        GameView {
            appid: self.appid@,
            name: self.name@,
            short_description: optional_text(self.short_description),
            header_image: optional_text(self.header_image),
            screenshots: optional_texts(self.screenshots),
        }
    }
}

impl View for GameCreationResponse {
    type V = GameView;

    open spec fn view(&self) -> GameView {
        GameView {
            appid: self.appid@,
            name: self.name@,
            short_description: optional_text(self.short_description),
            header_image: optional_text(self.header_image),
            screenshots: optional_texts(self.screenshots),
        }
    }
}

impl View for CreateGameSchema {
    type V = GameView;

    open spec fn view(&self) -> GameView {
        GameView {
            appid: self.appid@,
            name: self.name@,
            short_description: Some(self.short_description@),
            header_image: Some(self.header_image@),
            screenshots: Some(texts(self.screenshots@)),
        }
    }
}

/// A copy of a list of strings.
pub fn copy_texts(list: &Vec<String>) -> (copy: Vec<String>)
    ensures
        copy@ == list@,
{
    let mut copy: Vec<String> = Vec::new();
    let mut i: usize = 0;
    while i < list.len()
        invariant
            i <= list@.len(),
            copy@ == list@.take(i as int),
        decreases list@.len() - i,
    {
        copy.push(list[i].clone());
        proof {
            assert(copy@ =~= list@.take(i + 1));
        }
        i += 1;
    }
    proof {
        assert(list@.take(list@.len() as int) =~= list@);
    }
    copy
}

impl GameModel {
    /// The game as replies show it.
    pub fn shown(&self) -> (game: GameCreationResponse)
        ensures
            game@ == self@,
    {
        GameCreationResponse {
            appid: self.appid.clone(),
            name: self.name.clone(),
            short_description: match &self.short_description {
                Some(s) => Some(s.clone()),
                None => None,
            },
            header_image: match &self.header_image {
                Some(s) => Some(s.clone()),
                None => None,
            },
            screenshots: match &self.screenshots {
                Some(list) => Some(copy_texts(list)),
                None => None,
            },
        }
    }
}

} // verus!
