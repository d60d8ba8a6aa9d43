//! Inventory items: one for each item class that a container holds.

use vstd::prelude::*;

verus! {

/// A stored item. The pair of container and class is unique.
#[derive(Debug)]
pub struct InventoryItemModel {
    pub id: u128,
    pub inventory_id: u128,
    pub app_id: String,
    pub classid: String,
    pub icon: String,
    pub name: String,
    pub color: String,
    pub item_type: String,
    pub description: String,
    pub created_at: Option<i64>,
    pub updated_at: Option<i64>,
}

/// A new item, ready to be stored.
#[derive(Debug)]
pub struct CreateItemSchema {
    pub inventory_id: u128,
    pub app_id: String,
    pub classid: String,
    pub icon: String,
    pub name: String,
    pub color: String,
    pub item_type: String,
    pub description: String,
}

/// An item as replies show it.
#[derive(Debug)]
pub struct ItemCreationResponse {
    pub app_id: String,
    pub icon: String,
    pub name: String,
    pub color: String,
    pub item_type: String,
    pub description: String,
}

/// The mathematical content of a new item.
pub struct ItemView {
    pub inventory_id: u128,
    pub app_id: Seq<char>,
    pub classid: Seq<char>,
    pub icon: Seq<char>,
    pub name: Seq<char>,
    pub color: Seq<char>,
    pub item_type: Seq<char>,
    pub description: Seq<char>,
}

/// The mathematical content of an item as replies show it.
pub struct ShownItemView {
    pub app_id: Seq<char>,
    pub icon: Seq<char>,
    pub name: Seq<char>,
    pub color: Seq<char>,
    pub item_type: Seq<char>,
    pub description: Seq<char>,
}

/// The mathematical content of a stored item.
pub struct StoredItemView {
    pub id: u128,
    pub item: ItemView,
    pub created_at: Option<i64>,
    pub updated_at: Option<i64>,
}

impl View for CreateItemSchema {
    type V = ItemView;

    open spec fn view(&self) -> ItemView {
        ItemView {
            inventory_id: self.inventory_id,
            app_id: self.app_id@,
            classid: self.classid@,
            icon: self.icon@,
            name: self.name@,
            color: self.color@,
            item_type: self.item_type@,
            description: self.description@,
        }
    }
}

impl View for InventoryItemModel {
    type V = StoredItemView;

    open spec fn view(&self) -> StoredItemView {
        StoredItemView {
            id: self.id,
            item: ItemView {
                inventory_id: self.inventory_id,
                app_id: self.app_id@,
                classid: self.classid@,
                icon: self.icon@,
                name: self.name@,
                color: self.color@,
                item_type: self.item_type@,
                description: self.description@,
            },
            created_at: self.created_at,
            updated_at: self.updated_at,
        }
    }
}

impl View for ItemCreationResponse {
    type V = ShownItemView;

    open spec fn view(&self) -> ShownItemView {
        ShownItemView {
            app_id: self.app_id@,
            icon: self.icon@,
            name: self.name@,
            color: self.color@,
            item_type: self.item_type@,
            description: self.description@,
        }
    }
}

/// An item as replies show it.
pub open spec fn shown_item(item: ItemView) -> ShownItemView {
    ShownItemView {
        app_id: item.app_id,
        icon: item.icon,
        name: item.name,
        color: item.color,
        item_type: item.item_type,
        description: item.description,
    }
}

impl InventoryItemModel {
    /// The item as replies show it.
    pub fn shown(&self) -> (item: ItemCreationResponse)
        ensures
            item@ == shown_item(self@.item),
    {
        ItemCreationResponse {
            app_id: self.app_id.clone(),
            icon: self.icon.clone(),
            name: self.name.clone(),
            color: self.color.clone(),
            item_type: self.item_type.clone(),
            description: self.description.clone(),
        }
    }

    pub fn copy(&self) -> (copy: InventoryItemModel)
        ensures
            copy == *self,
    {
        InventoryItemModel {
            id: self.id,
            inventory_id: self.inventory_id,
            app_id: self.app_id.clone(),
            classid: self.classid.clone(),
            icon: self.icon.clone(),
            name: self.name.clone(),
            color: self.color.clone(),
            item_type: self.item_type.clone(),
            description: self.description.clone(),
            created_at: self.created_at,
            updated_at: self.updated_at,
        }
    }
}

} // verus!
