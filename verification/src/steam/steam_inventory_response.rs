//! The reply to a request for an inventory.

use crate::json::Json;
use crate::steam::decode::{
    Decode, decode_each, decode_optional_each, each_decoded, optional_each_at, optional_views,
    views,
};
use vstd::prelude::*;

verus! {

/// An inventory as the platform reports it.
#[derive(Debug)]
pub struct SteamInventoryResponse {
    pub assets: Option<Vec<Asset>>,
    pub descriptions: Option<Vec<Description>>,
    pub total_inventory_count: i32,
    pub success: i32,
}

/// One item held.
#[derive(Debug)]
pub struct Asset {
    pub appid: i32,
    pub contextid: String,
    pub assetid: String,
    pub classid: String,
    pub instanceid: String,
    pub amount: String,
}

/// The template of an item: what every item of one class looks like.
#[derive(Debug)]
pub struct Description {
    pub appid: i32,
    pub classid: String,
    pub instanceid: String,
    pub icon_url: String,
    pub name: String,
    pub name_color: String,
    pub item_type: String,
    pub descriptions: Vec<DescriptionDetail>,
}

/// One fragment of the text that describes an item.
#[derive(Debug)]
pub struct DescriptionDetail {
    pub detail_type: String,
    pub value: String,
    pub name: String,
    pub color: String,
}

/// The mathematical content of an `Asset`.
pub struct AssetView {
    pub appid: int,
    pub contextid: Seq<char>,
    pub assetid: Seq<char>,
    pub classid: Seq<char>,
    pub instanceid: Seq<char>,
    pub amount: Seq<char>,
}

/// The mathematical content of a `DescriptionDetail`.
pub struct DescriptionDetailView {
    pub detail_type: Seq<char>,
    pub value: Seq<char>,
    pub name: Seq<char>,
    pub color: Seq<char>,
}

/// The mathematical content of a `Description`.
pub struct DescriptionView {
    pub appid: int,
    pub classid: Seq<char>,
    pub instanceid: Seq<char>,
    pub icon_url: Seq<char>,
    pub name: Seq<char>,
    pub name_color: Seq<char>,
    pub item_type: Seq<char>,
    pub descriptions: Seq<DescriptionDetailView>,
}

/// The mathematical content of a `SteamInventoryResponse`.
pub struct SteamInventoryResponseView {
    pub assets: Option<Seq<AssetView>>,
    pub descriptions: Option<Seq<DescriptionView>>,
    pub total_inventory_count: int,
    pub success: int,
}

impl View for Asset {
    type V = AssetView;

    open spec fn view(&self) -> AssetView {
        AssetView {
            appid: self.appid as int,
            contextid: self.contextid@,
            assetid: self.assetid@,
            classid: self.classid@,
            instanceid: self.instanceid@,
            amount: self.amount@,
        }
    }
}

impl View for DescriptionDetail {
    type V = DescriptionDetailView;

    open spec fn view(&self) -> DescriptionDetailView {
        DescriptionDetailView {
            detail_type: self.detail_type@,
            value: self.value@,
            name: self.name@,
            color: self.color@,
        }
    }
}

impl View for Description {
    type V = DescriptionView;

    open spec fn view(&self) -> DescriptionView {
        DescriptionView {
            appid: self.appid as int,
            classid: self.classid@,
            instanceid: self.instanceid@,
            icon_url: self.icon_url@,
            name: self.name@,
            name_color: self.name_color@,
            item_type: self.item_type@,
            descriptions: views(self.descriptions@),
        }
    }
}

impl View for SteamInventoryResponse {
    type V = SteamInventoryResponseView;

    open spec fn view(&self) -> SteamInventoryResponseView {
        SteamInventoryResponseView {
            assets: optional_views(self.assets),
            descriptions: optional_views(self.descriptions),
            total_inventory_count: self.total_inventory_count as int,
            success: self.success as int,
        }
    }
}

impl Decode for Asset {
    /// An asset is an object with the member `appid`, a whole number within
    /// `i32` written as a number or as a string, and the string members
    /// `contextid`, `assetid`, `classid`, `instanceid` and `amount`.
    open spec fn decoded(j: Json) -> Option<AssetView> {
        if j.loose_i32_at("appid"@) is Some && j.text_at("contextid"@) is Some && j.text_at(
            "assetid"@,
        ) is Some && j.text_at("classid"@) is Some && j.text_at("instanceid"@) is Some
            && j.text_at("amount"@) is Some {
            Some(
                AssetView {
                    appid: j.loose_i32_at("appid"@)->Some_0,
                    contextid: j.text_at("contextid"@)->Some_0,
                    assetid: j.text_at("assetid"@)->Some_0,
                    classid: j.text_at("classid"@)->Some_0,
                    instanceid: j.text_at("instanceid"@)->Some_0,
                    amount: j.text_at("amount"@)->Some_0,
                },
            )
        } else {
            None
        }
    }

    fn decode(j: &Json) -> (record: Option<Asset>) {
        let appid = match j.get_loose_i32("appid") {
            Some(n) => n,
            None => { return None; },
        };
        let contextid = match j.get_text("contextid") {
            Some(s) => s.clone(),
            None => { return None; },
        };
        let assetid = match j.get_text("assetid") {
            Some(s) => s.clone(),
            None => { return None; },
        };
        let classid = match j.get_text("classid") {
            Some(s) => s.clone(),
            None => { return None; },
        };
        let instanceid = match j.get_text("instanceid") {
            Some(s) => s.clone(),
            None => { return None; },
        };
        let amount = match j.get_text("amount") {
            Some(s) => s.clone(),
            None => { return None; },
        };
        Some(Asset { appid, contextid, assetid, classid, instanceid, amount })
    }
}

impl Decode for DescriptionDetail {
    /// A fragment is an object with the string member `value` and, where
    /// they are there, the string members `type`, `name` and `color`.
    open spec fn decoded(j: Json) -> Option<DescriptionDetailView> {
        match (
            j.text_or_empty_at("type"@),
            j.text_at("value"@),
            j.text_or_empty_at("name"@),
            j.text_or_empty_at("color"@),
        ) {
            (Some(detail_type), Some(value), Some(name), Some(color)) => Some(
                DescriptionDetailView { detail_type, value, name, color },
            ),
            _ => None,
        }
    }

    fn decode(j: &Json) -> (record: Option<DescriptionDetail>) {
        let detail_type = match j.get_text_or_empty("type") {
            Some(s) => s,
            None => { return None; },
        };
        let value = match j.get_text("value") {
            Some(s) => s.clone(),
            None => { return None; },
        };
        let name = match j.get_text_or_empty("name") {
            Some(s) => s,
            None => { return None; },
        };
        let color = match j.get_text_or_empty("color") {
            Some(s) => s,
            None => { return None; },
        };
        Some(DescriptionDetail { detail_type, value, name, color })
    }
}

/// The fragments of a template: those values of its list `descriptions` that
/// are fragments. A template without such a list has none.
pub open spec fn fragments_in(j: Json) -> Seq<DescriptionDetailView> {
    match j.field("descriptions"@) {
        Some(Json::List(items)) => each_decoded::<DescriptionDetail>(items@),
        _ => Seq::empty(),
    }
}

fn decode_fragments(j: &Json) -> (fragments: Vec<DescriptionDetail>)
    ensures
        views(fragments@) == fragments_in(*j),
{
    match j.get("descriptions") {
        Some(value) => match value.as_list() {
            Some(items) => decode_each::<DescriptionDetail>(items),
            None => {
                let none: Vec<DescriptionDetail> = Vec::new();
                assert(views(none@) =~= Seq::<DescriptionDetailView>::empty());
                none
            },
        },
        None => {
            let none: Vec<DescriptionDetail> = Vec::new();
            assert(views(none@) =~= Seq::<DescriptionDetailView>::empty());
            none
        },
    }
}

impl Decode for Description {
    /// A template is an object with the member `appid`, a whole number within
    /// `i32` written as a number or as a string, the string members
    /// `classid`, `instanceid` and `name`, and, where they are there, the
    /// string members `icon_url`, `name_color` and `type`. Its fragments are
    /// read leniently: what is no fragment is passed over.
    open spec fn decoded(j: Json) -> Option<DescriptionView> {
        if j.loose_i32_at("appid"@) is Some && j.text_at("classid"@) is Some && j.text_at(
            "instanceid"@,
        ) is Some && j.text_or_empty_at("icon_url"@) is Some && j.text_at("name"@) is Some
            && j.text_or_empty_at("name_color"@) is Some && j.text_or_empty_at("type"@) is Some {
            Some(
                DescriptionView {
                    appid: j.loose_i32_at("appid"@)->Some_0,
                    classid: j.text_at("classid"@)->Some_0,
                    instanceid: j.text_at("instanceid"@)->Some_0,
                    icon_url: j.text_or_empty_at("icon_url"@)->Some_0,
                    name: j.text_at("name"@)->Some_0,
                    name_color: j.text_or_empty_at("name_color"@)->Some_0,
                    item_type: j.text_or_empty_at("type"@)->Some_0,
                    descriptions: fragments_in(j),
                },
            )
        } else {
            None
        }
    }

    fn decode(j: &Json) -> (record: Option<Description>) {
        let appid = match j.get_loose_i32("appid") {
            Some(n) => n,
            None => { return None; },
        };
        let classid = match j.get_text("classid") {
            Some(s) => s.clone(),
            None => { return None; },
        };
        let instanceid = match j.get_text("instanceid") {
            Some(s) => s.clone(),
            None => { return None; },
        };
        let icon_url = match j.get_text_or_empty("icon_url") {
            Some(s) => s,
            None => { return None; },
        };
        let name = match j.get_text("name") {
            Some(s) => s.clone(),
            None => { return None; },
        };
        let name_color = match j.get_text_or_empty("name_color") {
            Some(s) => s,
            None => { return None; },
        };
        let item_type = match j.get_text_or_empty("type") {
            Some(s) => s,
            None => { return None; },
        };
        let descriptions = decode_fragments(j);
        Some(
            Description {
                appid,
                classid,
                instanceid,
                icon_url,
                name,
                name_color,
                item_type,
                descriptions,
            },
        )
    }
}

/// The item count of a reply: the member `total_inventory_count`, a whole
/// number within `i32` in either form, and 0 where the member is missing or
/// `null`.
pub open spec fn count_in(j: Json) -> Option<int> {
    match j.optional_loose_integer_at("total_inventory_count"@) {
        Some(None) => Some(0),
        Some(Some(n)) => if i32::MIN <= n <= i32::MAX {
            Some(n)
        } else {
            None
        },
        None => None,
    }
}

impl Decode for SteamInventoryResponse {
    /// A reply is an object with the member `success`, a whole number within
    /// `i32` written as a number or as a string, an item count, and the lists
    /// `assets` and `descriptions` where they are there. The values of these
    /// lists are read leniently: one that is no asset, or no template, is
    /// passed over and does not spoil the reply.
    open spec fn decoded(j: Json) -> Option<SteamInventoryResponseView> {
        match (
            optional_each_at::<Asset>(j, "assets"@),
            optional_each_at::<Description>(j, "descriptions"@),
            count_in(j),
            j.loose_i32_at("success"@),
        ) {
            (Some(assets), Some(descriptions), Some(total_inventory_count), Some(success)) => Some(
                SteamInventoryResponseView {
                    assets,
                    descriptions,
                    total_inventory_count,
                    success,
                },
            ),
            _ => None,
        }
    }

    fn decode(j: &Json) -> (record: Option<SteamInventoryResponse>) {
        let assets = match decode_optional_each::<Asset>(j, "assets") {
            Some(list) => list,
            None => { return None; },
        };
        let descriptions = match decode_optional_each::<Description>(j, "descriptions") {
            Some(list) => list,
            None => { return None; },
        };
        let total_inventory_count: i32 = match j.get_optional_loose_integer(
            "total_inventory_count",
        ) {
            Some(None) => 0,
            Some(Some(n)) => if -2147483648 <= n && n <= 2147483647 {
                n as i32
            } else {
                return None;
            },
            None => { return None; },
        };
        let success = match j.get_loose_i32("success") {
            Some(n) => n,
            None => { return None; },
        };
        Some(SteamInventoryResponse { assets, descriptions, total_inventory_count, success })
    }
}

} // verus!
