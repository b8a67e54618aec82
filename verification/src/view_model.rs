//! What the screens show: the items that stand for rows, and the state that
//! every user action and every event of the bus moves on. The toolkit reads
//! this state and draws it; nothing here knows a widget.

pub mod actions;
pub mod events;

use vstd::prelude::*;
use crate::icons::{compute_request_icon, icon_pack_dir, icon_path, request_icon};
use crate::records::{
    clone_text,
    text_of,
    CollectionData,
    CollectionRecord,
    RequestData,
    RequestRecord,
};
use crate::store::{collection_rows, request_rows};

verus! {

/// A collection in the list of collections, as contracts see it.
pub struct CollectionItemRecord {
    pub id: Seq<char>,
    pub name: Seq<char>,
    pub icon: Seq<char>,
    pub icon_name: Seq<char>,
    pub request_count: int,
}

/// A request in the list of requests, as contracts see it.
pub struct RequestItemRecord {
    pub id: Seq<char>,
    pub name: Seq<char>,
    pub url: Seq<char>,
    pub protocol: Seq<char>,
    pub http_method: Seq<char>,
    pub icon: Seq<char>,
}

/// A request that was picked, as contracts see it.
pub struct SelectedRequestRecord {
    pub item: RequestItemRecord,
    pub collection_icon: Seq<char>,
}

/// The request on view, as contracts see it.
pub struct ViewedRequestRecord {
    pub collection_name: Seq<char>,
    pub request_name: Seq<char>,
    pub request_id: Seq<char>,
    pub collection_id: Seq<char>,
    pub http_method: Seq<char>,
    pub url: Seq<char>,
}

/// The whole state of the screens, as contracts see it.
pub struct AppStateRecord {
    pub page: int,
    pub collection_items: Seq<CollectionItemRecord>,
    pub active_collection_id: Seq<char>,
    pub active_collection_requests: Seq<RequestItemRecord>,
    pub selected_requests: Seq<SelectedRequestRecord>,
    pub viewed: Option<ViewedRequestRecord>,
}

/// The page shown while there is no collection.
pub const PAGE_EMPTY: i32 = 1;

/// The page shown once there is a collection.
pub const PAGE_COLLECTIONS: i32 = 2;

/// The method shown for a request that has none stored.
pub open spec fn shown_method(http_method: Option<Seq<char>>) -> Seq<char> {
    match http_method {
        Some(m) => m,
        None => "GET"@,
    }
}

/// The URL shown for a request that has none stored.
pub open spec fn shown_url(url: Option<Seq<char>>) -> Seq<char> {
    match url {
        Some(u) => u,
        None => Seq::empty(),
    }
}

/// The item that stands for a collection row.
pub open spec fn collection_item_of(c: CollectionRecord) -> CollectionItemRecord {
    CollectionItemRecord {
        id: c.id,
        name: c.name,
        icon: icon_pack_dir() + c.icon,
        icon_name: c.icon,
        request_count: c.requests_count,
    }
}

/// The item for a request with these fields. An absent method is shown as
/// GET and an absent URL as empty; the icon follows from the protocol and the
/// method.
pub open spec fn request_item_from(
    name: Seq<char>,
    id: Seq<char>,
    url: Option<Seq<char>>,
    protocol: Seq<char>,
    http_method: Option<Seq<char>>,
) -> RequestItemRecord {
    RequestItemRecord {
        id,
        name,
        url: shown_url(url),
        protocol,
        http_method: shown_method(http_method),
        icon: request_icon(protocol, shown_method(http_method)),
    }
}

/// The item that stands for a request row.
pub open spec fn request_item_of(r: RequestRecord) -> RequestItemRecord {
    request_item_from(r.name, r.id, r.url, r.protocol, r.http_method)
}

/// The items that stand for a list of collection rows, in their order.
pub open spec fn collection_items_of(rows: Seq<CollectionRecord>) -> Seq<CollectionItemRecord> {
    rows.map_values(|c: CollectionRecord| collection_item_of(c))
}

/// The items that stand for a list of request rows, in their order.
pub open spec fn request_items_of(rows: Seq<RequestRecord>) -> Seq<RequestItemRecord> {
    rows.map_values(|r: RequestRecord| request_item_of(r))
}

/// A collection item with its counter moved by one, up or down. A counter
/// at the end of its range stays where it is.
pub open spec fn recounted(item: CollectionItemRecord, up: bool) -> CollectionItemRecord {
    CollectionItemRecord {
        request_count: if up && item.request_count < i32::MAX {
            item.request_count + 1
        } else if !up && item.request_count > i32::MIN {
            item.request_count - 1
        } else {
            item.request_count
        },
        ..item
    }
}

/// A collection as the list of collections shows it.
#[derive(Debug)]
pub struct CollectionItem {
    pub id: String,
    pub name: String,
    /// Where the asset of the icon lies.
    pub icon: String,
    pub icon_name: String,
    pub request_count: i32,
}

impl View for CollectionItem {
    type V = CollectionItemRecord;

    open spec fn view(&self) -> CollectionItemRecord {
        CollectionItemRecord {
            id: self.id@,
            name: self.name@,
            icon: self.icon@,
            icon_name: self.icon_name@,
            request_count: self.request_count as int,
        }
    }
}

impl Clone for CollectionItem {
    fn clone(&self) -> (copy: Self)
        ensures
            copy == *self,
    {
        CollectionItem {
            id: self.id.clone(),
            name: self.name.clone(),
            icon: self.icon.clone(),
            icon_name: self.icon_name.clone(),
            request_count: self.request_count,
        }
    }
}

/// A request as the list of requests shows it.
#[derive(Debug)]
pub struct RequestItem {
    pub id: String,
    pub name: String,
    pub url: String,
    pub protocol: String,
    pub http_method: String,
    /// Where the asset of the icon lies.
    pub icon: String,
}

impl View for RequestItem {
    type V = RequestItemRecord;

    open spec fn view(&self) -> RequestItemRecord {
        RequestItemRecord {
            id: self.id@,
            name: self.name@,
            url: self.url@,
            protocol: self.protocol@,
            http_method: self.http_method@,
            icon: self.icon@,
        }
    }
}

impl Clone for RequestItem {
    fn clone(&self) -> (copy: Self)
        ensures
            copy == *self,
    {
        RequestItem {
            id: self.id.clone(),
            name: self.name.clone(),
            url: self.url.clone(),
            protocol: self.protocol.clone(),
            http_method: self.http_method.clone(),
            icon: self.icon.clone(),
        }
    }
}

impl RequestItem {
    /// Makes the item for a request with these fields.
    pub fn new(
        name: String,
        id: String,
        url: Option<String>,
        protocol: String,
        http_method: Option<String>,
    ) -> (item: RequestItem)
        ensures
            item@ == request_item_from(
                name@,
                id@,
                text_of(url),
                protocol@,
                text_of(http_method),
            ),
    {
        let parsed_url = match url {
            Some(u) => u,
            None => String::new(),
        };
        let parsed_http_method = match http_method {
            Some(m) => m,
            None => "GET".to_owned(),
        };
        let icon = compute_request_icon(&protocol, &parsed_http_method);
        RequestItem { id, name, url: parsed_url, protocol, http_method: parsed_http_method, icon }
    }
}

/// A request that was picked from the list, with the icon of its
/// collection.
#[derive(Debug)]
pub struct SelectedRequestItem {
    pub item: RequestItem,
    pub collection_icon: String,
}

impl View for SelectedRequestItem {
    type V = SelectedRequestRecord;

    open spec fn view(&self) -> SelectedRequestRecord {
        SelectedRequestRecord { item: self.item@, collection_icon: self.collection_icon@ }
    }
}

/// The request that the request view shows.
#[derive(Debug)]
pub struct ViewedRequest {
    pub collection_name: String,
    pub request_name: String,
    pub request_id: String,
    pub collection_id: String,
    pub http_method: String,
    pub url: String,
}

impl View for ViewedRequest {
    type V = ViewedRequestRecord;

    open spec fn view(&self) -> ViewedRequestRecord {
        ViewedRequestRecord {
            collection_name: self.collection_name@,
            request_name: self.request_name@,
            request_id: self.request_id@,
            collection_id: self.collection_id@,
            http_method: self.http_method@,
            url: self.url@,
        }
    }
}

/// The items of a list of collections as contracts see them.
pub open spec fn collection_item_records(items: Seq<CollectionItem>) -> Seq<CollectionItemRecord> {
    items.map_values(|item: CollectionItem| item@)
}

/// The items of a list of requests as contracts see them.
pub open spec fn request_item_records(items: Seq<RequestItem>) -> Seq<RequestItemRecord> {
    items.map_values(|item: RequestItem| item@)
}

/// The picked requests as contracts see them.
pub open spec fn selected_records(items: Seq<SelectedRequestItem>) -> Seq<SelectedRequestRecord> {
    items.map_values(|item: SelectedRequestItem| item@)
}

/// The request on view as contracts see it.
pub open spec fn viewed_record(viewed: Option<ViewedRequest>) -> Option<ViewedRequestRecord> {
    match viewed {
        Some(v) => Some(v@),
        None => None,
    }
}

/// Everything that the screens show.
#[derive(Debug)]
pub struct AppState {
    /// The page on show.
    pub page: i32,
    /// The list of collections, newest first.
    pub collection_items: Vec<CollectionItem>,
    /// The collection whose requests are listed.
    pub active_collection_id: String,
    /// The requests of that collection, newest first.
    pub active_collection_requests: Vec<RequestItem>,
    /// The requests that were picked, in the order of picking.
    pub selected_requests: Vec<SelectedRequestItem>,
    /// The request on view, if any.
    pub viewed: Option<ViewedRequest>,
}

impl View for AppState {
    type V = AppStateRecord;

    open spec fn view(&self) -> AppStateRecord {
        AppStateRecord {
            page: self.page as int,
            collection_items: collection_item_records(self.collection_items@),
            active_collection_id: self.active_collection_id@,
            active_collection_requests: request_item_records(self.active_collection_requests@),
            selected_requests: selected_records(self.selected_requests@),
            viewed: viewed_record(self.viewed),
        }
    }
}

impl AppState {
    /// The state before anything was loaded: the empty page, and nothing
    /// listed, picked or on view.
    pub open spec fn initial() -> AppStateRecord {
        AppStateRecord {
            page: PAGE_EMPTY as int,
            collection_items: Seq::empty(),
            active_collection_id: Seq::empty(),
            active_collection_requests: Seq::empty(),
            selected_requests: Seq::empty(),
            viewed: None,
        }
    }

    /// Makes the state before anything was loaded.
    pub fn new() -> (state: AppState)
        ensures
            state@ == AppState::initial(),
    {
        let state = AppState {
            page: PAGE_EMPTY,
            collection_items: Vec::new(),
            active_collection_id: String::new(),
            active_collection_requests: Vec::new(),
            selected_requests: Vec::new(),
            viewed: None,
        };
        assert(state@.collection_items =~= Seq::empty());
        assert(state@.active_collection_requests =~= Seq::empty());
        assert(state@.selected_requests =~= Seq::empty());
        state
    }
}

/// The place in a list of `len` items that an index sent by the toolkit
/// names, if it names one: an index below zero or past the end names none.
pub open spec fn place(index: i32, len: nat) -> Option<int> {
    if 0 <= index && index < len {
        Some(index as int)
    } else {
        None
    }
}

/// Finds the place that an index sent by the toolkit names.
pub fn place_of(index: i32, len: usize) -> (found: Option<usize>)
    ensures
        found is Some <==> place(index, len as nat) is Some,
        found matches Some(at) ==> place(index, len as nat) == Some(at as int),
{
    if index >= 0 && (index as usize) < len {
        Some(index as usize)
    } else {
        None
    }
}

/// Makes the item that stands for a collection row.
pub fn collection_item(row: &CollectionData) -> (item: CollectionItem)
    ensures
        item@ == collection_item_of(row@),
{
    CollectionItem {
        id: row.id.clone(),
        name: row.name.clone(),
        icon: icon_path(row.icon.as_str()),
        icon_name: row.icon.clone(),
        request_count: row.requests_count,
    }
}

/// Makes the item that stands for a request row.
pub fn request_item(row: &RequestData) -> (item: RequestItem)
    ensures
        item@ == request_item_of(row@),
{
    let item = RequestItem::new(
        row.name.clone(),
        row.id.clone(),
        clone_text(&row.url),
        row.protocol.clone(),
        clone_text(&row.http_method),
    );
    item
}

/// Makes the items that stand for a list of collection rows, in their
/// order.
pub fn collection_items(rows: &Vec<CollectionData>) -> (items: Vec<CollectionItem>)
    ensures
        collection_item_records(items@) == collection_items_of(collection_rows(rows@)),
{
    let mut items: Vec<CollectionItem> = Vec::new();
    let mut i: usize = 0;
    while i < rows.len()
        invariant
            i <= rows.len(),
            items.len() == i,
            forall|k: int| 0 <= k < i ==> (#[trigger] items[k])@ == collection_item_of(rows[k]@),
        decreases rows.len() - i,
    {
        items.push(collection_item(&rows[i]));
        i += 1;
    }
    assert(collection_item_records(items@) =~= collection_items_of(collection_rows(rows@)));
    items
}

/// Makes the items that stand for a list of request rows, in their order.
pub fn request_items(rows: &Vec<RequestData>) -> (items: Vec<RequestItem>)
    ensures
        request_item_records(items@) == request_items_of(request_rows(rows@)),
{
    let mut items: Vec<RequestItem> = Vec::new();
    let mut i: usize = 0;
    while i < rows.len()
        invariant
            i <= rows.len(),
            items.len() == i,
            forall|k: int| 0 <= k < i ==> (#[trigger] items[k])@ == request_item_of(rows[k]@),
        decreases rows.len() - i,
    {
        items.push(request_item(&rows[i]));
        i += 1;
    }
    assert(request_item_records(items@) =~= request_items_of(request_rows(rows@)));
    items
}

} // verus!
