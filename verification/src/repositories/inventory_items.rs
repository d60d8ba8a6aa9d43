//! The table of inventory items.

use crate::models::inventory_items::{CreateItemSchema, InventoryItemModel, StoredItemView};
use crate::repositories::table::{last_match, lemma_last_match};
use crate::steam::decode::views;
use crate::services::errors::storage::StoreError;
use vstd::prelude::*;

verus! {

/// The items that are stored. A container holds one item of a class at most.
#[derive(Debug)]
pub struct InventoryItemsRepository {
    pub rows: Vec<InventoryItemModel>,
    /// The key that the next new row gets.
    pub next_id: u128,
    /// The time with which new rows are stamped.
    pub now: i64,
}

/// The items of a given class in a given container.
pub open spec fn with_class(inventory_id: u128, classid: Seq<char>) -> spec_fn(
    StoredItemView,
) -> bool {
    |row: StoredItemView| row.item.inventory_id == inventory_id && row.item.classid == classid
}

/// Whether a container holds an item of a class.
pub open spec fn holds_class(rows: Seq<StoredItemView>, inventory_id: u128, classid: Seq<char>)
    -> bool {
    last_match(rows, with_class(inventory_id, classid)) is Some
}

/// The row that a new item is stored as.
pub open spec fn stored_item(body: CreateItemSchema, id: u128, now: i64) -> StoredItemView {
    StoredItemView { id, item: body@, created_at: Some(now), updated_at: Some(now) }
}

impl InventoryItemsRepository {
    /// The table's invariant: the pair of container and class is unique,
    /// local keys are unique and all below the next key.
    pub open spec fn wf(&self) -> bool {
        &&& forall|i: int, j: int|
            0 <= i < j < self.rows@.len() ==> !((#[trigger] self.rows@[i]).inventory_id == (
            #[trigger] self.rows@[j]).inventory_id && self.rows@[i].classid@
                == self.rows@[j].classid@)
        &&& forall|i: int| 0 <= i < self.rows@.len() ==> (#[trigger] self.rows@[i]).id
            < self.next_id
        &&& forall|i: int, j: int|
            0 <= i < j < self.rows@.len() ==> (#[trigger] self.rows@[i]).id != (
            #[trigger] self.rows@[j]).id
    }

    /// The rows of the table, as mathematical values.
    pub open spec fn content(&self) -> Seq<StoredItemView> {
        views(self.rows@)
    }

    /// Whether a container holds an item of a class.
    pub open spec fn holds(&self, inventory_id: u128, classid: Seq<char>) -> bool {
        holds_class(self.content(), inventory_id, classid)
    }

    /// An empty table that stamps its rows with `now`.
    pub fn new(now: i64) -> (table: InventoryItemsRepository)
        ensures
            table.wf(),
            table.rows@.len() == 0,
            table.next_id == 1,
            table.now == now,
    {
        InventoryItemsRepository { rows: Vec::new(), next_id: 1, now }
    }

    fn position(&self, inventory_id: u128, classid: &str) -> (found: Option<usize>)
        ensures
            match found {
                Some(i) => last_match(self.content(), with_class(inventory_id, classid@)) == Some(
                    i as int,
                ) && i < self.rows@.len(),
                None => last_match(self.content(), with_class(inventory_id, classid@)) is None,
            },
    {
        let wanted = classid.to_owned();
        let ghost hit = with_class(inventory_id, classid@);
        let ghost content = self.content();
        let mut i: usize = self.rows.len();
        proof {
            assert(content.take(i as int) =~= content);
        }
        while i > 0
            invariant
                i <= self.rows@.len(),
                wanted@ == classid@,
                hit == with_class(inventory_id, classid@),
                content == self.content(),
                last_match(content, hit) == last_match(content.take(i as int), hit),
            decreases i,
        {
            i -= 1;
            proof {
                assert(content.take(i + 1).drop_last() =~= content.take(i as int));
                assert(content.take(i + 1).last() == self.rows@[i as int]@);
            }
            if self.rows[i].inventory_id == inventory_id && self.rows[i].classid == wanted {
                return Some(i);
            }
        }
        None
    }

    /// Whether a container holds an item of a class.
    pub fn check_item_exists(&self, inventory_id: u128, classid: &str) -> (found: Result<
        bool,
        StoreError,
    >)
        ensures
            found matches Ok(b) && b == self.holds(inventory_id, classid@),
    {
        Ok(self.position(inventory_id, classid).is_some())
    }

    /// Stores a new item. It is refused with `UniqueViolation` where its
    /// container holds an item of its class already, and with `Exhausted`
    /// where no key is left.
    pub fn create_items(&mut self, body: CreateItemSchema) -> (stored: Result<
        InventoryItemModel,
        StoreError,
    >)
        requires
            old(self).wf(),
        ensures
            final(self).wf(),
            final(self).now == old(self).now,
            match stored {
                Ok(row) => {
                    &&& !old(self).holds(body.inventory_id, body.classid@)
                    &&& old(self).next_id < u128::MAX
                    &&& row@ == stored_item(body, old(self).next_id, old(self).now)
                    &&& final(self).rows@ == old(self).rows@.push(row)
                    &&& final(self).content() == old(self).content().push(row@)
                    &&& final(self).next_id == old(self).next_id + 1
                },
                Err(e) => {
                    &&& old(self).holds(body.inventory_id, body.classid@) ==> e is UniqueViolation
                    &&& !old(self).holds(body.inventory_id, body.classid@) ==> e is Exhausted
                        && old(self).next_id == u128::MAX
                    &&& final(self).rows@ == old(self).rows@
                    &&& final(self).next_id == old(self).next_id
                },
            },
    {
        if self.position(body.inventory_id, body.classid.as_str()).is_some() {
            return Err(StoreError::UniqueViolation);
        }
        if self.next_id == u128::MAX {
            return Err(StoreError::Exhausted);
        }
        let row = InventoryItemModel {
            id: self.next_id,
            inventory_id: body.inventory_id,
            app_id: body.app_id,
            classid: body.classid,
            icon: body.icon,
            name: body.name,
            color: body.color,
            item_type: body.item_type,
            description: body.description,
            created_at: Some(self.now),
            updated_at: Some(self.now),
        };
        proof {
            lemma_last_match(self.content(), with_class(row.inventory_id, row.classid@));
            assert(views(self.rows@.push(row)) =~= views(self.rows@).push(row@));
            assert forall|i: int| 0 <= i < self.rows@.len() implies !(self.rows@[i].inventory_id
                == row.inventory_id && self.rows@[i].classid@ == row.classid@) by {
                assert(self.content()[i] == self.rows@[i]@);
            }
        }
        self.rows.push(row.copy());
        self.next_id = self.next_id + 1;
        Ok(row)
    }
}

} // verus!
