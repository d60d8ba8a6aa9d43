//! The inventory engine: the items of an inventory are taken into the store,
//! each item class once.

use crate::models::inventory_items::{
    CreateItemSchema, ItemCreationResponse, ItemView, shown_item, ShownItemView, StoredItemView,
};
use crate::repositories::inventory_items::{holds_class, InventoryItemsRepository, with_class};
use crate::repositories::inventory_repository::InventoryRepository;
use crate::repositories::table::lemma_last_match_push;
use crate::repositories::user_repository::UserRepository;
use crate::services::errors::inventory_items::CreateInventoryItemError;
use crate::services::errors::storage::StoreError;
use crate::services::protocol::{Ask, is_misfit, misfit, Step, Told};
use crate::steam::client::{context_id, inventory_in, read_inventory, UpstreamError};
use crate::steam::decode::{Fetched, views};
use crate::steam::steam_inventory_response::{
    Description, DescriptionDetail, DescriptionDetailView, DescriptionView, SteamInventoryResponse,
    SteamInventoryResponseView,
};
use crate::text::{decimal, decimal_text};
use vstd::prelude::*;
use vstd::string::*;

verus! {

pub struct InventoryItemService;

/// Where a synchronisation stands between two decisions.
#[derive(Debug)]
pub enum InventorySync {
    /// The container of the identity was asked for.
    AwaitContainer { steam_id: String, app_id: i32 },
    /// The platform was called for the inventory.
    AwaitInventory { inventory_id: u128 },
    /// It was asked whether the container holds the class of the template
    /// at `index`.
    AwaitProbe {
        inventory_id: u128,
        templates: Vec<Description>,
        index: usize,
        saved: Vec<ItemCreationResponse>,
    },
    /// The item of the template at `index` was handed over to be stored.
    AwaitStore {
        inventory_id: u128,
        templates: Vec<Description>,
        index: usize,
        saved: Vec<ItemCreationResponse>,
    },
}

/// A step of a synchronisation.
pub type SyncStep = Step<InventorySync, Result<Vec<ItemCreationResponse>, CreateInventoryItemError>>;

/// Whether a fragment is the primary description of an item: display text,
/// named as the description.
pub open spec fn is_primary(fragment: DescriptionDetailView) -> bool {
    fragment.detail_type == "html"@ && fragment.name == "description"@
}

/// The description of an item: the text of the first primary fragment, and
/// empty where there is none.
pub open spec fn description_text(fragments: Seq<DescriptionDetailView>) -> Seq<char>
    decreases fragments.len(),
{
    if fragments.len() == 0 {
        Seq::empty()
    } else if is_primary(fragments[0]) {
        fragments[0].value
    } else {
        description_text(fragments.drop_first())
    }
}

/// The item that a template is stored as in a container.
pub open spec fn item_of(inventory_id: u128, template: DescriptionView) -> ItemView {
    ItemView {
        inventory_id,
        app_id: decimal_text(template.appid),
        classid: template.classid,
        icon: template.icon_url,
        name: template.name,
        color: template.name_color,
        item_type: template.item_type,
        description: description_text(template.descriptions),
    }
}

/// The templates of an inventory; an inventory without a list of templates
/// has none.
pub open spec fn templates_of(inventory: SteamInventoryResponseView) -> Seq<DescriptionView> {
    match inventory.descriptions {
        Some(list) => list,
        None => Seq::empty(),
    }
}

/// The rows of the item table after the templates were taken into a
/// container, one after the other: a template whose class the container
/// holds already is passed over, any other is stored as a new row at the end,
/// with the next key.
pub open spec fn ingested(
    rows: Seq<StoredItemView>,
    next_id: u128,
    now: i64,
    inventory_id: u128,
    templates: Seq<DescriptionView>,
) -> Seq<StoredItemView>
    decreases templates.len(),
{
    if templates.len() == 0 {
        rows
    } else {
        let before = ingested(rows, next_id, now, inventory_id, templates.drop_last());
        let template = templates.last();
        if holds_class(before, inventory_id, template.classid) {
            before
        } else {
            before.push(
                StoredItemView {
                    id: (next_id + (before.len() - rows.len())) as u128,
                    item: item_of(inventory_id, template),
                    created_at: Some(now),
                    updated_at: Some(now),
                },
            )
        }
    }
}

/// Rows as replies show them.
pub open spec fn shown_items(rows: Seq<StoredItemView>) -> Seq<ShownItemView> {
    rows.map_values(|row: StoredItemView| shown_item(row.item))
}

/// Whether a failure of the engine reports a given failure of the platform.
pub open spec fn reports(failure: CreateInventoryItemError, cause: UpstreamError) -> bool {
    match cause {
        UpstreamError::UpstreamUnreachable(why) => failure matches CreateInventoryItemError::SteamApiError(
            message,
        ) && message@ == "Failed to fetch inventory: "@ + why@,
        UpstreamError::BadStatus(status) => failure matches CreateInventoryItemError::SteamApiError(
            message,
        ) && message@ == "Steam API returned status: "@ + decimal_text(status as int),
        UpstreamError::Malformed => failure matches CreateInventoryItemError::SteamApiError(
            message,
        ) && message@ == "Failed to parse inventory"@,
        _ => failure is InventoryNotFound,
    }
}

/// Synchronising only adds rows at the end of the table, one for a template
/// at most: the rows that were stored are kept as they were, and a container
/// keeps holding every class that it held.
pub proof fn law_sync_only_adds(
    rows: Seq<StoredItemView>,
    next_id: u128,
    now: i64,
    inventory_id: u128,
    templates: Seq<DescriptionView>,
)
    ensures
        rows.len() <= ingested(rows, next_id, now, inventory_id, templates).len() <= rows.len()
            + templates.len(),
        ingested(rows, next_id, now, inventory_id, templates).take(rows.len() as int) == rows,
        forall|classid: Seq<char>| #[trigger]
            holds_class(rows, inventory_id, classid) ==> holds_class(
                ingested(rows, next_id, now, inventory_id, templates),
                inventory_id,
                classid,
            ),
    decreases templates.len(),
{
    let after = ingested(rows, next_id, now, inventory_id, templates);
    if templates.len() == 0 {
        assert(after.take(rows.len() as int) =~= rows);
    } else {
        law_sync_only_adds(rows, next_id, now, inventory_id, templates.drop_last());
        let before = ingested(rows, next_id, now, inventory_id, templates.drop_last());
        assert(after.take(rows.len() as int) =~= before.take(rows.len() as int));
        if !holds_class(before, inventory_id, templates.last().classid) {
            assert forall|classid: Seq<char>| #[trigger]
                holds_class(rows, inventory_id, classid) implies holds_class(
                after,
                inventory_id,
                classid,
            ) by {
                lemma_last_match_push(before, after.last(), with_class(inventory_id, classid));
                assert(after =~= before.push(after.last()));
            }
        }
    }
}

/// After templates were taken in, the container holds the class of each.
pub proof fn lemma_ingested_covers(
    rows: Seq<StoredItemView>,
    next_id: u128,
    now: i64,
    inventory_id: u128,
    templates: Seq<DescriptionView>,
)
    ensures
        forall|k: int|
            0 <= k < templates.len() ==> holds_class(
                ingested(rows, next_id, now, inventory_id, templates),
                inventory_id,
                (#[trigger] templates[k]).classid,
            ),
    decreases templates.len(),
{
    if templates.len() > 0 {
        let shorter = templates.drop_last();
        lemma_ingested_covers(rows, next_id, now, inventory_id, shorter);
        let before = ingested(rows, next_id, now, inventory_id, shorter);
        let after = ingested(rows, next_id, now, inventory_id, templates);
        let template = templates.last();
        assert forall|k: int| 0 <= k < templates.len() implies holds_class(
            after,
            inventory_id,
            (#[trigger] templates[k]).classid,
        ) by {
            let classid = templates[k].classid;
            if holds_class(before, inventory_id, template.classid) {
                if k < shorter.len() {
                    assert(shorter[k] == templates[k]);
                }
            } else {
                assert(after =~= before.push(after.last()));
                lemma_last_match_push(before, after.last(), with_class(inventory_id, classid));
                if k < shorter.len() {
                    assert(shorter[k] == templates[k]);
                }
            }
        }
    }
}

/// Where the container holds the class of every template, taking the
/// templates in stores nothing.
pub proof fn lemma_ingested_nothing_new(
    rows: Seq<StoredItemView>,
    next_id: u128,
    now: i64,
    inventory_id: u128,
    templates: Seq<DescriptionView>,
)
    requires
        forall|k: int|
            0 <= k < templates.len() ==> holds_class(
                rows,
                inventory_id,
                (#[trigger] templates[k]).classid,
            ),
    ensures
        ingested(rows, next_id, now, inventory_id, templates) == rows,
    decreases templates.len(),
{
    if templates.len() > 0 {
        let shorter = templates.drop_last();
        assert forall|k: int| 0 <= k < shorter.len() implies holds_class(
            rows,
            inventory_id,
            (#[trigger] shorter[k]).classid,
        ) by {
            assert(shorter[k] == templates[k]);
        }
        lemma_ingested_nothing_new(rows, next_id, now, inventory_id, shorter);
        assert(templates.last() == templates[templates.len() - 1]);
    }
}

/// Synchronising twice in a row with the same templates stores nothing the
/// second time: the table is as the first synchronisation left it, whatever
/// key and time the second one would stamp, and no row is new.
pub proof fn law_sync_is_idempotent(
    rows: Seq<StoredItemView>,
    next_id: u128,
    now: i64,
    inventory_id: u128,
    templates: Seq<DescriptionView>,
    second_id: u128,
    second_now: i64,
)
    ensures
        ({
            let once = ingested(rows, next_id, now, inventory_id, templates);
            let twice = ingested(once, second_id, second_now, inventory_id, templates);
            &&& twice == once
            &&& shown_items(twice.skip(once.len() as int)) == Seq::<ShownItemView>::empty()
        }),
{
    let once = ingested(rows, next_id, now, inventory_id, templates);
    lemma_ingested_covers(rows, next_id, now, inventory_id, templates);
    lemma_ingested_nothing_new(once, second_id, second_now, inventory_id, templates);
    assert(shown_items(once.skip(once.len() as int)) =~= Seq::<ShownItemView>::empty());
}

/// A synchronisation is poised at the template at `index`: it asks whether
/// the container holds the class of that template, or, past the last
/// template, it is done and hands out what it saved.
pub open spec fn poised(
    step: SyncStep,
    inventory_id: u128,
    templates: Seq<DescriptionView>,
    index: int,
    saved: Seq<ShownItemView>,
) -> bool {
    if index < templates.len() {
        step matches Step::Ask(
            InventorySync::AwaitProbe { inventory_id: held, templates: list, index: at, saved: so_far },
            Ask::ItemExists { inventory_id: asked, classid },
        ) && held == inventory_id && views(list@) == templates && at == index && views(so_far@)
            == saved && asked == inventory_id && classid@ == templates[index].classid
    } else {
        step matches Step::Done(Ok(so_far)) && views(so_far@) == saved
    }
}

/// How a synchronisation goes on when it is told something.
///
/// Told that the identity has no container, it ends with
/// `InventoryNotFound` and the platform is never called. Told the
/// platform's reply, it ends with the failure that reports why the reply
/// gives no inventory, or it turns to the first template. Told that the
/// container holds the class of a template, it passes the template over;
/// told that it does not, it hands over the template's item to be stored.
/// Told that the item was stored, or that the store refused it because the
/// class is held by now, it turns to the next template. Told of any other
/// failure of the store, it ends with that failure.
pub open spec fn sync_resumed(state: InventorySync, told: Told, next: SyncStep) -> bool {
    match (state, told) {
        (InventorySync::AwaitContainer { steam_id, app_id }, Told::InventoryId(Ok(Some(id)))) => next
            == Step::<
            InventorySync,
            Result<Vec<ItemCreationResponse>, CreateInventoryItemError>,
        >::Ask(
            InventorySync::AwaitInventory { inventory_id: id },
            Ask::FetchInventory { steam_id, app_id },
        ),
        (InventorySync::AwaitContainer { .. }, Told::InventoryId(Ok(None))) => next matches Step::Done(
            Err(failure),
        ) && failure is InventoryNotFound,
        (InventorySync::AwaitContainer { .. }, Told::InventoryId(Err(e))) => next matches Step::Done(
            Err(CreateInventoryItemError::DatabaseError(passed)),
        ) && passed == e,
        (InventorySync::AwaitInventory { inventory_id }, Told::Reply(reply)) => match inventory_in(
            reply,
        ) {
            Err(cause) => next matches Step::Done(Err(failure)) && reports(failure, cause),
            Ok(inventory) => poised(
                next,
                inventory_id,
                templates_of(inventory),
                0,
                Seq::<ShownItemView>::empty(),
            ),
        },
        (InventorySync::AwaitProbe { inventory_id, templates, index, saved }, Told::Flag(answer)) => if index
            < templates@.len() {
            match answer {
                Ok(true) => poised(
                    next,
                    inventory_id,
                    views(templates@),
                    index + 1,
                    views(saved@),
                ),
                Ok(false) => next matches Step::Ask(
                    InventorySync::AwaitStore {
                        inventory_id: held,
                        templates: list,
                        index: at,
                        saved: so_far,
                    },
                    Ask::StoreItem { item: body },
                ) && held == inventory_id && list == templates && at == index && so_far == saved
                    && body@ == item_of(inventory_id, templates@[index as int]@),
                Err(e) => next matches Step::Done(
                    Err(CreateInventoryItemError::DatabaseError(passed)),
                ) && passed == e,
            }
        } else {
            next matches Step::Done(Err(CreateInventoryItemError::DatabaseError(e))) && is_misfit(e)
        },
        (InventorySync::AwaitStore { inventory_id, templates, index, saved }, Told::Item(answer)) => if index
            < templates@.len() {
            match answer {
                Ok(item) => poised(
                    next,
                    inventory_id,
                    views(templates@),
                    index + 1,
                    views(saved@).push(shown_item(item@.item)),
                ),
                Err(StoreError::UniqueViolation) => poised(
                    next,
                    inventory_id,
                    views(templates@),
                    index + 1,
                    views(saved@),
                ),
                Err(e) => next matches Step::Done(
                    Err(CreateInventoryItemError::DatabaseError(passed)),
                ) && passed == e,
            }
        } else {
            next matches Step::Done(Err(CreateInventoryItemError::DatabaseError(e))) && is_misfit(e)
        },
        _ => next matches Step::Done(Err(CreateInventoryItemError::DatabaseError(e))) && is_misfit(
            e,
        ),
    }
}

impl InventoryItemService {
    /// The address of an inventory on the platform.
    pub fn steam_inventory_url(steam_id: &str, app_id: i32) -> (url: String)
        ensures
            url@ == "https://steamcommunity.com/inventory/"@ + steam_id@ + "/"@ + decimal_text(
                app_id as int,
            ) + "/"@ + decimal_text(crate::steam::client::context_of(app_id as int))
                + "?l=english&count=2000&preserve_bbcode=1&raw_asset_properties=1"@,
    {
        let app = decimal(app_id as i64);
        let context = decimal(context_id(app_id) as i64);
        let url = "https://steamcommunity.com/inventory/".to_owned();
        let url = url.concat(steam_id);
        let url = url.concat("/");
        let url = url.concat(app.as_str());
        let url = url.concat("/");
        let url = url.concat(context.as_str());
        url.concat("?l=english&count=2000&preserve_bbcode=1&raw_asset_properties=1")
    }

    /// The failure of the engine that reports a failure of the platform.
    pub fn failure_of(cause: UpstreamError) -> (failure: CreateInventoryItemError)
        ensures
            reports(failure, cause),
    {
        match cause {
            UpstreamError::UpstreamUnreachable(why) => {
                let message = "Failed to fetch inventory: ".to_owned().concat(why.as_str());
                CreateInventoryItemError::SteamApiError(message)
            },
            UpstreamError::BadStatus(status) => {
                let code = decimal(status as i64);
                let message = "Steam API returned status: ".to_owned().concat(code.as_str());
                CreateInventoryItemError::SteamApiError(message)
            },
            UpstreamError::Malformed => CreateInventoryItemError::SteamApiError(
                "Failed to parse inventory".to_owned(),
            ),
            _ => CreateInventoryItemError::InventoryNotFound,
        }
    }

    /// Reads an inventory out of the platform's reply.
    pub fn fetch_steam_inventory(reply: &Fetched) -> (inventory: Result<
        SteamInventoryResponse,
        CreateInventoryItemError,
    >)
        ensures
            match inventory {
                Ok(found) => inventory_in(*reply) == Ok::<
                    SteamInventoryResponseView,
                    UpstreamError,
                >(found@),
                Err(failure) => inventory_in(*reply) matches Err(cause) && reports(failure, cause),
            },
    {
        match read_inventory(reply) {
            Ok(found) => Ok(found),
            Err(cause) => Err(Self::failure_of(cause)),
        }
    }

    /// The description of an item: the text of its first fragment that is
    /// display text and is named as the description, or nothing.
    pub fn description_value(fragments: &Vec<DescriptionDetail>) -> (text: String)
        ensures
            text@ == description_text(views(fragments@)),
    {
        let html = "html".to_owned();
        let description = "description".to_owned();
        let ghost all = views(fragments@);
        let mut i: usize = 0;
        proof {
            assert(all.skip(0) =~= all);
        }
        while i < fragments.len()
            invariant
                i <= fragments@.len(),
                all == views(fragments@),
                html@ == "html"@,
                description@ == "description"@,
                description_text(all) == description_text(all.skip(i as int)),
            decreases fragments@.len() - i,
        {
            proof {
                assert(all.skip(i as int)[0] == fragments@[i as int]@);
                assert(all.skip(i as int).drop_first() =~= all.skip(i + 1));
            }
            if fragments[i].detail_type == html && fragments[i].name == description {
                return fragments[i].value.clone();
            }
            i += 1;
        }
        String::new()
    }

    /// The new item that a template amounts to in a container.
    pub fn item_schema(inventory_id: u128, template: &Description) -> (schema: CreateItemSchema)
        ensures
            schema@ == item_of(inventory_id, template@),
    {
        CreateItemSchema {
            inventory_id,
            app_id: decimal(template.appid as i64),
            classid: template.classid.clone(),
            icon: template.icon_url.clone(),
            name: template.name.clone(),
            color: template.name_color.clone(),
            item_type: template.item_type.clone(),
            description: Self::description_value(&template.descriptions),
        }
    }

    /// Begins a synchronisation: the container of the identity is asked for.
    pub fn sync_start(steam_id: String, app_id: i32) -> (step: SyncStep)
        ensures
            step matches Step::Ask(
                InventorySync::AwaitContainer { steam_id: who, app_id: app },
                Ask::InventoryOf { steam_id: asked },
            ) && who == steam_id && app == app_id && asked@ == steam_id@,
    {
        let asked = steam_id.clone();
        Step::Ask(
            InventorySync::AwaitContainer { steam_id, app_id },
            Ask::InventoryOf { steam_id: asked },
        )
    }

    fn misfit_step() -> (step: SyncStep)
        ensures
            step matches Step::Done(Err(CreateInventoryItemError::DatabaseError(e))) && is_misfit(
                e,
            ),
    {
        Step::Done(Err(CreateInventoryItemError::DatabaseError(misfit())))
    }

    fn turn_to(
        inventory_id: u128,
        templates: Vec<Description>,
        index: usize,
        saved: Vec<ItemCreationResponse>,
    ) -> (step: SyncStep)
        ensures
            poised(step, inventory_id, views(templates@), index as int, views(saved@)),
    {
        if index < templates.len() {
            let classid = templates[index].classid.clone();
            Step::Ask(
                InventorySync::AwaitProbe { inventory_id, templates, index, saved },
                Ask::ItemExists { inventory_id, classid },
            )
        } else {
            Step::Done(Ok(saved))
        }
    }

    /// Goes on with a synchronisation that was told something.
    pub fn sync_resume(state: InventorySync, told: Told) -> (next: SyncStep)
        ensures
            sync_resumed(state, told, next),
    {
        match state {
            InventorySync::AwaitContainer { steam_id, app_id } => match told {
                Told::InventoryId(Ok(Some(id))) => Step::Ask(
                    InventorySync::AwaitInventory { inventory_id: id },
                    Ask::FetchInventory { steam_id, app_id },
                ),
                Told::InventoryId(Ok(None)) => Step::Done(
                    Err(CreateInventoryItemError::InventoryNotFound),
                ),
                Told::InventoryId(Err(e)) => Step::Done(
                    Err(CreateInventoryItemError::DatabaseError(e)),
                ),
                _ => Self::misfit_step(),
            },
            InventorySync::AwaitInventory { inventory_id } => match told {
                Told::Reply(reply) => match Self::fetch_steam_inventory(&reply) {
                    Err(failure) => Step::Done(Err(failure)),
                    Ok(inventory) => {
                        let templates: Vec<Description> = match inventory.descriptions {
                            Some(list) => list,
                            None => Vec::new(),
                        };
                        let saved: Vec<ItemCreationResponse> = Vec::new();
                        proof {
                            assert(views(templates@) =~= templates_of(inventory@));
                            assert(views(saved@) =~= Seq::<ShownItemView>::empty());
                        }
                        Self::turn_to(inventory_id, templates, 0, saved)
                    },
                },
                _ => Self::misfit_step(),
            },
            InventorySync::AwaitProbe { inventory_id, templates, index, saved } => match told {
                Told::Flag(answer) => {
                    if index >= templates.len() {
                        return Self::misfit_step();
                    }
                    match answer {
                        Ok(true) => Self::turn_to(inventory_id, templates, index + 1, saved),
                        Ok(false) => {
                            let body = Self::item_schema(inventory_id, &templates[index]);
                            Step::Ask(
                                InventorySync::AwaitStore { inventory_id, templates, index, saved },
                                Ask::StoreItem { item: body },
                            )
                        },
                        Err(e) => Step::Done(Err(CreateInventoryItemError::DatabaseError(e))),
                    }
                },
                _ => Self::misfit_step(),
            },
            InventorySync::AwaitStore { inventory_id, templates, index, saved } => match told {
                Told::Item(answer) => {
                    if index >= templates.len() {
                        return Self::misfit_step();
                    }
                    match answer {
                        Ok(item) => {
                            let mut saved = saved;
                            let ghost before = views(saved@);
                            saved.push(item.shown());
                            proof {
                                assert(views(saved@) =~= before.push(shown_item(item@.item)));
                            }
                            Self::turn_to(inventory_id, templates, index + 1, saved)
                        },
                        Err(StoreError::UniqueViolation) => Self::turn_to(
                            inventory_id,
                            templates,
                            index + 1,
                            saved,
                        ),
                        Err(e) => Step::Done(Err(CreateInventoryItemError::DatabaseError(e))),
                    }
                },
                _ => Self::misfit_step(),
            },
        }
    }

    /// Synchronises the inventory of an identity with what the platform
    /// replied, against the tables in memory. The identity must have a
    /// container: where it has none the outcome is `InventoryNotFound` and
    /// the reply is not looked at. A reply that gives no inventory fails the
    /// operation and stores nothing. Otherwise each item class of the reply
    /// that the container does not hold yet is stored, once, and the new
    /// items are returned.
    pub fn fetch_and_save_inventory(
        users: &UserRepository,
        inventories: &InventoryRepository,
        items: &mut InventoryItemsRepository,
        steam_id: &str,
        app_id: i32,
        reply: &Fetched,
    ) -> (saved: Result<Vec<ItemCreationResponse>, CreateInventoryItemError>)
        requires
            old(items).wf(),
        ensures
            final(items).wf(),
            final(items).now == old(items).now,
            match inventories.container_of(*users, steam_id@) {
                None => saved matches Err(failure) && failure is InventoryNotFound && final(items).content() == old(items).content() && final(items).next_id == old(items).next_id,
                Some(container) => match inventory_in(*reply) {
                    Err(cause) => saved matches Err(failure) && reports(failure, cause) && final(items).content() == old(items).content() && final(items).next_id == old(items).next_id,
                    Ok(inventory) => {
                        &&& old(items).next_id + templates_of(inventory).len() < u128::MAX
                            ==> saved is Ok
                        &&& match saved {
                            Ok(shown) => {
                                &&& final(items).content() == ingested(
                                    old(items).content(),
                                    old(items).next_id,
                                    old(items).now,
                                    container.id,
                                    templates_of(inventory),
                                )
                                &&& views(shown@) == shown_items(
                                    final(items).content().skip(old(items).content().len() as int),
                                )
                            },
                            Err(failure) => {
                                &&& failure matches CreateInventoryItemError::DatabaseError(e)
                                    && e is Exhausted
                                &&& exists|k: int|
                                    0 <= k <= templates_of(inventory).len() && final(items).content() == #[trigger] ingested(
                                        old(items).content(),
                                        old(items).next_id,
                                        old(items).now,
                                        container.id,
                                        templates_of(inventory).take(k),
                                    )
                            },
                        }
                    },
                },
            },
    {
        let state = match Self::sync_start(steam_id.to_owned(), app_id) {
            Step::Ask(state, _) => state,
            Step::Done(done) => { return done; },
        };
        let found = inventories.get_inventory_id_by_steam_id(users, steam_id);
        let state = match Self::sync_resume(state, Told::InventoryId(found)) {
            Step::Ask(state, _) => state,
            Step::Done(done) => { return done; },
        };
        let ghost inventory_id = inventories.container_of(*users, steam_id@)->Some_0.id;
        let ghost rows = items.content();
        let ghost first_id = items.next_id;
        let ghost now = items.now;
        let ghost all = match inventory_in(*reply) {
            Ok(inventory) => templates_of(inventory),
            Err(_) => Seq::<DescriptionView>::empty(),
        };
        let mut step = Self::sync_resume(state, Told::Reply(reply.copy()));
        let ghost mut index: int = 0;
        proof {
            assert(all.take(0) =~= Seq::<DescriptionView>::empty());
            assert(items.content().skip(rows.len() as int) =~= Seq::<StoredItemView>::empty());
            assert(shown_items(items.content().skip(rows.len() as int)) =~= Seq::<
                ShownItemView,
            >::empty());
        }
        loop
            invariant
                items.wf(),
                items.now == now,
                now == old(items).now,
                first_id == old(items).next_id,
                rows == old(items).content(),
                inventories.container_of(*users, steam_id@) is Some,
                inventory_id == inventories.container_of(*users, steam_id@)->Some_0.id,
                all == match inventory_in(*reply) {
                    Ok(inventory) => templates_of(inventory),
                    Err(_) => Seq::<DescriptionView>::empty(),
                },
                0 <= index <= all.len(),
                rows.len() <= items.content().len() <= rows.len() + index,
                items.content() == ingested(rows, first_id, now, inventory_id, all.take(index)),
                items.next_id == first_id + (items.content().len() - rows.len()),
                match inventory_in(*reply) {
                    Ok(_) => poised(
                        step,
                        inventory_id,
                        all,
                        index,
                        shown_items(items.content().skip(rows.len() as int)),
                    ),
                    Err(cause) => step matches Step::Done(Err(failure)) && reports(failure, cause)
                        && index == 0,
                },
            decreases all.len() - index,
        {
            let (state, container, classid) = match step {
                Step::Done(done) => {
                    proof {
                        assert(all.take(index) =~= all);
                    }
                    return done;
                },
                Step::Ask(state, Ask::ItemExists { inventory_id: container, classid }) => (
                    state,
                    container,
                    classid,
                ),
                Step::Ask(_, _) => {
                    return Err(CreateInventoryItemError::DatabaseError(misfit()));
                },
            };
            proof {
                assert(all.take(index + 1).drop_last() =~= all.take(index));
                assert(all.take(index + 1).last() == all[index]);
            }
            let ghost before = items.content();
            let held = items.check_item_exists(container, classid.as_str());
            let next = Self::sync_resume(state, Told::Flag(held));
            step =
            match next {
                Step::Ask(state, Ask::StoreItem { item: body }) => {
                    let stored = items.create_items(body);
                    let ghost item = stored;
                    let after = Self::sync_resume(state, Told::Item(stored));
                    proof {
                        if item is Ok {
                            let row = item->Ok_0;
                            assert(items.content().skip(rows.len() as int) =~= before.skip(
                                rows.len() as int,
                            ).push(row@));
                            assert(shown_items(before.skip(rows.len() as int).push(row@))
                                =~= shown_items(before.skip(rows.len() as int)).push(
                                shown_item(row@.item),
                            ));
                        }
                    }
                    match after {
                        Step::Done(Err(failure)) => {
                            return Err(failure);
                        },
                        other => other,
                    }
                },
                other => other,
            };
            proof {
                index = index + 1;
            }
        }
    }
}

} // verus!
