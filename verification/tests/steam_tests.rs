use profile_mirror::json::Json;
use profile_mirror::steam::client::{
    context_id, read_game, read_inventory, read_profile, UpstreamError,
};
use profile_mirror::steam::decode::{decode_all, decode_each, Decode, Fetched};
use profile_mirror::steam::steam_api_response::{SteamPlayer, SteamResponse};
use profile_mirror::steam::steam_game_response::{Screenshot, SteamGameResponse};
use profile_mirror::steam::steam_inventory_response::{
    Asset, Description, DescriptionDetail, SteamInventoryResponse,
};

fn replied(body: &str) -> Fetched {
    Fetched::Replied { status: 200, body: body.to_string() }
}

const PLAYER: &str = r#"{"response": {"players": [{
    "steamid": "76561197960287930",
    "personaname": "Rabscuttle",
    "profileurl": "https://steamcommunity.com/id/gabelogannewell/",
    "avatar": "a.jpg", "avatarmedium": "m.jpg", "avatarfull": "f.jpg",
    "personastate": "1", "communityvisibilitystate": 3,
    "timecreated": "1063407589", "loccountrycode": "US",
    "gameextrainfo": "Team Fortress 2", "gameid": "440",
    "primaryclanid": "103582791429521412", "lastlogoff": 1.5
}]}}"#;

#[test]
fn profile_is_decoded_with_numbers_in_either_form() {
    let player = read_profile(&replied(PLAYER)).ok().unwrap();
    assert_eq!(player.steamid, "76561197960287930");
    assert_eq!(player.personaname, "Rabscuttle");
    assert_eq!(player.profileurl, "https://steamcommunity.com/id/gabelogannewell/");
    assert_eq!(player.avatar, "a.jpg");
    assert_eq!(player.avatarmedium, "m.jpg");
    assert_eq!(player.avatarfull, "f.jpg");
    assert_eq!(player.personastate, 1);
    assert_eq!(player.communityvisibilitystate, 3);
    assert_eq!(player.timecreated, Some(1063407589));
    assert_eq!(player.loccountrycode.as_deref(), Some("US"));
    assert_eq!(player.gameextrainfo.as_deref(), Some("Team Fortress 2"));
    assert_eq!(player.gameid.as_deref(), Some("440"));
}

#[test]
fn profile_without_optional_fields() {
    let body = r#"{"response": {"players": [{
        "steamid": "1", "personaname": "n", "profileurl": "u",
        "avatar": "a", "avatarmedium": "m", "avatarfull": "f",
        "personastate": 0, "communityvisibilitystate": 1, "loccountrycode": null
    }]}}"#;
    let player = read_profile(&replied(body)).ok().unwrap();
    assert_eq!(player.timecreated, None);
    assert_eq!(player.loccountrycode, None);
    assert_eq!(player.gameextrainfo, None);
    assert_eq!(player.gameid, None);
}

#[test]
fn no_players_is_upstream_empty() {
    let outcome = read_profile(&replied(r#"{"response": {"players": []}}"#));
    assert!(matches!(outcome, Err(UpstreamError::UpstreamEmpty)));
}

#[test]
fn transport_failure_is_unreachable() {
    let outcome = read_profile(&Fetched::Failed("timed out".to_string()));
    assert!(matches!(outcome, Err(UpstreamError::UpstreamUnreachable(why)) if why == "timed out"));
    let outcome = read_game(&Fetched::Failed("refused".to_string()), "440");
    assert!(matches!(outcome, Err(UpstreamError::UpstreamUnreachable(why)) if why == "refused"));
    let outcome = read_inventory(&Fetched::Failed("reset".to_string()));
    assert!(matches!(outcome, Err(UpstreamError::UpstreamUnreachable(why)) if why == "reset"));
}

#[test]
fn a_number_that_is_no_integer_is_a_parse_error() {
    let body = PLAYER.replace("\"personastate\": \"1\"", "\"personastate\": \"online\"");
    assert!(matches!(read_profile(&replied(&body)), Err(UpstreamError::Malformed)));
    let body = PLAYER.replace("\"personastate\": \"1\"", "\"personastate\": 1.5");
    assert!(matches!(read_profile(&replied(&body)), Err(UpstreamError::Malformed)));
    let body = PLAYER.replace("\"timecreated\": \"1063407589\"", "\"timecreated\": [1]");
    assert!(matches!(read_profile(&replied(&body)), Err(UpstreamError::Malformed)));
}

#[test]
fn a_reply_of_another_shape_is_malformed() {
    assert!(matches!(read_profile(&replied("not json")), Err(UpstreamError::Malformed)));
    assert!(matches!(read_profile(&replied("{}")), Err(UpstreamError::Malformed)));
    assert!(matches!(
        read_profile(&replied(r#"{"response": {"players": {}}}"#)),
        Err(UpstreamError::Malformed)
    ));
    assert!(matches!(
        read_profile(&replied(r#"{"response": {"players": [{"steamid": "1"}]}}"#)),
        Err(UpstreamError::Malformed)
    ));
}

#[test]
fn strict_list_fails_as_a_whole_and_lenient_list_passes_over() {
    let tree = Json::parse(r#"[{"path_full": "a"}, {"nope": 1}, {"path_full": "b"}]"#).unwrap();
    let list = tree.as_list().unwrap();
    assert!(decode_all::<Screenshot>(list).is_none());
    let kept = decode_each::<Screenshot>(list);
    assert_eq!(kept.len(), 2);
    assert_eq!(kept[0].path_full, "a");
    assert_eq!(kept[1].path_full, "b");
    let good = Json::parse(r#"[{"path_full": "a"}, {"path_full": "b"}]"#).unwrap();
    assert_eq!(decode_all::<Screenshot>(good.as_list().unwrap()).unwrap().len(), 2);
}

const GAME: &str = r#"{"440": {"success": true, "data": {
    "name": "Team Fortress 2", "steam_appid": 440, "required_age": "17",
    "short_description": "Nine distinct classes.",
    "header_image": "https://cdn/header.jpg",
    "screenshots": [{"id": 0, "path_thumbnail": "t0", "path_full": "s0.jpg"},
                    {"id": 1, "path_thumbnail": "t1", "path_full": "s1.jpg"}]
}}}"#;

#[test]
fn game_is_decoded() {
    let data = read_game(&replied(GAME), "440").ok().unwrap();
    assert_eq!(data.name, "Team Fortress 2");
    assert_eq!(data.short_description, "Nine distinct classes.");
    assert_eq!(data.header_image, "https://cdn/header.jpg");
    assert_eq!(data.steam_appid, Some(440));
    assert_eq!(data.required_age, Some(17));
    let shots = data.screenshots.unwrap();
    assert_eq!(shots.len(), 2);
    assert_eq!(shots[0].path_full, "s0.jpg");
    assert_eq!(shots[1].path_full, "s1.jpg");
}

#[test]
fn game_with_partial_details() {
    let data = read_game(&replied(r#"{"440": {"success": true, "data": {}}}"#), "440").ok().unwrap();
    assert_eq!(data.name, "");
    assert_eq!(data.short_description, "");
    assert_eq!(data.header_image, "");
    assert!(data.screenshots.is_none());
    assert_eq!(data.steam_appid, None);
}

#[test]
fn game_that_the_platform_does_not_know() {
    assert!(matches!(
        read_game(&replied(r#"{"440": {"success": false}}"#), "440"),
        Err(UpstreamError::GameNotFound)
    ));
    assert!(matches!(
        read_game(&replied(r#"{"440": {"success": true}}"#), "440"),
        Err(UpstreamError::GameNotFound)
    ));
    assert!(matches!(
        read_game(&replied(r#"{"440": {"success": true, "data": null}}"#), "440"),
        Err(UpstreamError::GameNotFound)
    ));
    assert!(matches!(read_game(&replied(GAME), "441"), Err(UpstreamError::GameNotFound)));
}

#[test]
fn game_reply_that_cannot_be_read() {
    assert!(matches!(read_game(&replied("<html>"), "440"), Err(UpstreamError::Malformed)));
    assert!(matches!(
        read_game(&replied(r#"{"440": {"data": {}}}"#), "440"),
        Err(UpstreamError::Malformed)
    ));
    assert!(matches!(
        read_game(&replied(r#"{"440": {"success": true, "data": {"required_age": "adult"}}}"#), "440"),
        Err(UpstreamError::Malformed)
    ));
    assert!(matches!(
        read_game(&replied(r#"{"440": {"success": true, "data": {"screenshots": [{"id": 1}]}}}"#), "440"),
        Err(UpstreamError::Malformed)
    ));
    let entry = Json::parse(r#"{"success": "yes"}"#).unwrap();
    assert!(SteamGameResponse::decode(&entry).is_none());
}

const INVENTORY: &str = r##"{
    "assets": [
        {"appid": 440, "contextid": "2", "assetid": "1", "classid": "100", "instanceid": "0", "amount": "1"},
        {"appid": "440", "contextid": "2", "assetid": "2", "classid": "200", "instanceid": "0", "amount": "1"},
        {"appid": 440}
    ],
    "descriptions": [
        {"appid": 440, "classid": "100", "instanceid": "0", "icon_url": "icon100",
         "name": "Scattergun", "name_color": "7D6D00", "type": "Level 1 Scattergun",
         "descriptions": [
            {"type": "text", "value": "plain", "name": "description"},
            {"type": "html", "value": "other", "name": "attribute"},
            {"value": 5},
            {"type": "html", "value": "<b>Shoots</b>", "name": "description", "color": "ff0000"},
            {"type": "html", "value": "second", "name": "description"}
         ]},
        {"appid": "440", "classid": "200", "instanceid": "0", "name": "Bat"},
        {"appid": 440, "classid": 300, "instanceid": "0", "name": "Broken"},
        {"appid": 440, "classid": "100", "instanceid": "1", "name": "Scattergun again"}
    ],
    "total_inventory_count": "3",
    "success": 1
}"##;

#[test]
fn inventory_is_decoded_leniently() {
    let inventory = read_inventory(&replied(INVENTORY)).ok().unwrap();
    assert_eq!(inventory.success, 1);
    assert_eq!(inventory.total_inventory_count, 3);
    let assets = inventory.assets.unwrap();
    assert_eq!(assets.len(), 2);
    assert_eq!(assets[1].appid, 440);
    assert_eq!(assets[1].assetid, "2");
    let descriptions = inventory.descriptions.unwrap();
    assert_eq!(descriptions.len(), 3);
    assert_eq!(descriptions[0].classid, "100");
    assert_eq!(descriptions[0].icon_url, "icon100");
    assert_eq!(descriptions[0].name_color, "7D6D00");
    assert_eq!(descriptions[0].item_type, "Level 1 Scattergun");
    assert_eq!(descriptions[0].descriptions.len(), 4);
    assert_eq!(descriptions[0].descriptions[2].color, "ff0000");
    assert_eq!(descriptions[1].appid, 440);
    assert_eq!(descriptions[1].icon_url, "");
    assert_eq!(descriptions[1].item_type, "");
    assert!(descriptions[1].descriptions.is_empty());
    assert_eq!(descriptions[2].name, "Scattergun again");
}

#[test]
fn inventory_that_is_not_available() {
    assert!(matches!(
        read_inventory(&replied(r#"{"success": 0}"#)),
        Err(UpstreamError::InventoryUnavailable)
    ));
    assert!(matches!(
        read_inventory(&replied(r#"{"success": "15", "total_inventory_count": 0}"#)),
        Err(UpstreamError::InventoryUnavailable)
    ));
}

#[test]
fn inventory_reply_with_a_bad_status() {
    let reply = Fetched::Replied { status: 403, body: INVENTORY.to_string() };
    assert!(matches!(read_inventory(&reply), Err(UpstreamError::BadStatus(403))));
    let reply = Fetched::Replied { status: 199, body: INVENTORY.to_string() };
    assert!(matches!(read_inventory(&reply), Err(UpstreamError::BadStatus(199))));
    let reply = Fetched::Replied { status: 299, body: INVENTORY.to_string() };
    assert!(read_inventory(&reply).is_ok());
    let reply = Fetched::Replied { status: 300, body: INVENTORY.to_string() };
    assert!(matches!(read_inventory(&reply), Err(UpstreamError::BadStatus(300))));
}

#[test]
fn inventory_reply_that_cannot_be_read() {
    assert!(matches!(read_inventory(&replied("null")), Err(UpstreamError::Malformed)));
    assert!(matches!(read_inventory(&replied("{}")), Err(UpstreamError::Malformed)));
    assert!(matches!(
        read_inventory(&replied(r#"{"success": true}"#)),
        Err(UpstreamError::Malformed)
    ));
    assert!(matches!(
        read_inventory(&replied(r#"{"success": 1, "descriptions": {}}"#)),
        Err(UpstreamError::Malformed)
    ));
    assert!(matches!(
        read_inventory(&replied(r#"{"success": 1, "total_inventory_count": 4294967296}"#)),
        Err(UpstreamError::Malformed)
    ));
}

#[test]
fn inventory_without_lists() {
    let inventory = read_inventory(&replied(r#"{"success": 1}"#)).ok().unwrap();
    assert!(inventory.assets.is_none());
    assert!(inventory.descriptions.is_none());
    assert_eq!(inventory.total_inventory_count, 0);
}

#[test]
fn records_decode_one_by_one() {
    let tree = Json::parse(r#"{"value": "v"}"#).unwrap();
    let detail = DescriptionDetail::decode(&tree).unwrap();
    assert_eq!(detail.value, "v");
    assert_eq!(detail.detail_type, "");
    assert_eq!(detail.name, "");
    assert_eq!(detail.color, "");
    assert!(DescriptionDetail::decode(&Json::parse(r#"{"type": "html"}"#).unwrap()).is_none());
    assert!(Asset::decode(&Json::parse(r#"{"appid": 1}"#).unwrap()).is_none());
    assert!(Description::decode(&Json::parse(r#"{"appid": 1, "classid": "c", "name": "n"}"#).unwrap()).is_none());
    assert!(SteamPlayer::decode(&Json::Null).is_none());
    assert!(SteamResponse::decode(&Json::parse(PLAYER).unwrap()).is_some());
    assert!(SteamInventoryResponse::decode(&Json::parse(INVENTORY).unwrap()).is_some());
}

#[test]
fn context_depends_on_the_application() {
    assert_eq!(context_id(753), 6);
    assert_eq!(context_id(440), 2);
    assert_eq!(context_id(730), 2);
    assert_eq!(context_id(0), 2);
    assert_eq!(context_id(-753), 2);
}
