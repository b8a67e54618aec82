//! What each user action does to the store and to the state of the
//! screens. An action that the store refuses leaves both as they were.

use vstd::prelude::*;
use crate::codes::ProtocolTypes;
use crate::error::AppError;
use crate::icons::icon_from_pack;
use crate::ident::is_hyphenated_id;
use crate::model::{new_collection, new_request, patched};
use crate::records::{CollectionData, CollectionRecord, RequestData};
use crate::store::collections::{
    create_collection,
    delete_collection,
    get_all_collections,
    get_single_collection,
    update_collection_item,
};
use crate::store::requests::{
    codes_accepted,
    create_request,
    delete_request,
    get_collection_requests,
    update_request_with_codes,
};
use crate::store::Store;
use crate::view_model::{
    collection_item,
    collection_item_of,
    collection_item_records,
    collection_items,
    collection_items_of,
    place,
    place_of,
    recounted,
    request_item,
    request_item_of,
    request_item_records,
    request_items,
    request_items_of,
    selected_records,
    AppState,
    AppStateRecord,
    CollectionItem,
    SelectedRequestItem,
    SelectedRequestRecord,
    PAGE_COLLECTIONS,
    PAGE_EMPTY,
};

verus! {

/// A list of items with the one at the place that `index` names replaced.
/// An index that names no place leaves the list as it is.
pub open spec fn replaced_at<A>(items: Seq<A>, index: i32, item: A) -> Seq<A> {
    match place(index, items.len()) {
        Some(at) => items.update(at, item),
        None => items,
    }
}

/// A list of items without the one at the place that `index` names. An
/// index that names no place leaves the list as it is.
pub open spec fn removed_at<A>(items: Seq<A>, index: i32) -> Seq<A> {
    match place(index, items.len()) {
        Some(at) => items.remove(at),
        None => items,
    }
}

/// A list of collection items with the counter of the one at the place that
/// `index` names moved by one. An index that names no place leaves the list
/// as it is.
pub open spec fn recounted_at(
    items: Seq<crate::view_model::CollectionItemRecord>,
    index: i32,
    up: bool,
) -> Seq<crate::view_model::CollectionItemRecord> {
    match place(index, items.len()) {
        Some(at) => items.update(at, recounted(items[at], up)),
        None => items,
    }
}

/// Picks the page to show when the application starts: the list of
/// collections where there is one, the empty page where there is none.
pub fn check_startup_page(store: &Store, state: &mut AppState) -> (done: Result<(), AppError>)
    ensures
        done is Ok,
        final(state)@ == (AppStateRecord {
            page: if store@.collections.len() > 0 {
                PAGE_COLLECTIONS as int
            } else {
                PAGE_EMPTY as int
            },
            ..old(state)@
        }),
{
    let rows = match get_all_collections(store) {
        Ok(rows) => rows,
        Err(e) => {
            return Err(e);
        },
    };
    assert(crate::store::collection_rows(rows@).len() == rows@.len());
    let mut page: i32 = PAGE_EMPTY;
    if rows.len() > 0 {
        page = PAGE_COLLECTIONS;
    }
    state.page = page;
    Ok(())
}

/// Lists every collection of the store, newest first.
pub fn load_collections(store: &Store, state: &mut AppState) -> (done: Result<(), AppError>)
    ensures
        done is Ok,
        final(state)@ == (AppStateRecord {
            collection_items: collection_items_of(store@.collections),
            ..old(state)@
        }),
{
    let rows = match get_all_collections(store) {
        Ok(rows) => rows,
        Err(e) => {
            return Err(e);
        },
    };
    state.collection_items = collection_items(&rows);
    Ok(())
}

/// Shows the page that was asked for.
pub fn process_page_change(state: &mut AppState, page: i32) -> (done: Result<(), AppError>)
    ensures
        done is Ok,
        final(state)@ == (AppStateRecord { page: page as int, ..old(state)@ }),
{
    state.page = page;
    Ok(())
}

/// Lists every collection of the store anew, newest first.
pub fn process_get_collections(store: &Store, state: &mut AppState) -> (done: Result<(), AppError>)
    ensures
        done is Ok,
        final(state)@ == (AppStateRecord {
            collection_items: collection_items_of(store@.collections),
            ..old(state)@
        }),
{
    load_collections(store, state)
}

/// Creates a collection named "New Collection" and puts its item first in
/// the list. The id comes from outside: should it ever be one that is in
/// use, the store refuses with `StorageError` and nothing changes; with no
/// collection in the store that cannot happen.
pub fn process_create_collection(store: &mut Store, state: &mut AppState, icons: &Vec<String>) -> (created:
    Result<CollectionData, AppError>)
    requires
        old(store).wf(),
    ensures
        final(store).wf(),
        created matches Ok(c) ==> {
            &&& !old(store)@.has_collection(c@.id)
            &&& is_hyphenated_id(c@.id)
            &&& icon_from_pack(icons@, c@.icon)
            &&& c@ == new_collection(c@.id, "New Collection"@, c@.icon)
            &&& final(store)@ == old(store)@.add_collection(c@)
            &&& final(store)@.has_collection(c@.id)
            &&& final(store)@.collection(c@.id) == c@
            &&& final(state)@ == (AppStateRecord {
                collection_items: old(state)@.collection_items.insert(0, collection_item_of(c@)),
                ..old(state)@
            })
        },
        created matches Err(e) ==> {
            &&& e == AppError::StorageError
            &&& final(store)@ == old(store)@
            &&& final(state)@ == old(state)@
        },
        old(store)@.collections.len() == 0 ==> created is Ok,
{
    let new_collection = match create_collection("New Collection".to_owned(), icons, store) {
        Ok(data) => data,
        Err(error) => {
            return Err(error);
        },
    };
    let item = collection_item(&new_collection);
    let ghost shown = item@;
    state.collection_items.insert(0, item);
    assert(collection_item_records(final(state).collection_items@) =~= collection_item_records(
        old(state).collection_items@,
    ).insert(0, shown));
    Ok(new_collection)
}

/// Gives the collection `id` a new name and icon, and replaces its item at
/// the place `index` of the list. The counter of the collection stays.
pub fn process_update_collection(
    store: &mut Store,
    state: &mut AppState,
    id: &str,
    name: &str,
    icon: &str,
    index: i32,
) -> (updated: Result<CollectionData, AppError>)
    requires
        old(store).wf(),
    ensures
        final(store).wf(),
        updated is Ok <==> old(store)@.has_collection(id@),
        updated matches Ok(c) ==> {
            &&& c@ == (CollectionRecord {
                id: id@,
                name: name@,
                icon: icon@,
                requests_count: old(store)@.collection(id@).requests_count,
            })
            &&& final(store)@ == old(store)@.put_collection(
                id@,
                name@,
                icon@,
                old(store)@.collection(id@).requests_count,
            )
            &&& final(store)@.has_collection(id@)
            &&& final(store)@.collection(id@) == c@
            &&& final(state)@ == (AppStateRecord {
                collection_items: replaced_at(
                    old(state)@.collection_items,
                    index,
                    collection_item_of(c@),
                ),
                ..old(state)@
            })
        },
        updated matches Err(e) ==> {
            &&& e == AppError::NotFound
            &&& final(store)@ == old(store)@
            &&& final(state)@ == old(state)@
        },
{
    let current = match get_single_collection(id, store) {
        Ok(data) => data,
        Err(error) => {
            return Err(error);
        },
    };
    let new_collection = match update_collection_item(
        id,
        name,
        icon,
        current.requests_count,
        store,
    ) {
        Ok(data) => data,
        Err(error) => {
            return Err(error);
        },
    };
    let item = collection_item(&new_collection);
    let ghost shown = item@;
    match place_of(index, state.collection_items.len()) {
        Some(at) => {
            state.collection_items[at] = item;
            assert(collection_item_records(final(state).collection_items@)
                =~= collection_item_records(old(state).collection_items@).update(
                at as int,
                shown,
            ));
        },
        None => {},
    }
    Ok(new_collection)
}

/// Deletes the collection `id` with its requests, and takes the item at the
/// place `index` off the list.
pub fn process_remove_collection(store: &mut Store, state: &mut AppState, id: &str, index: i32) -> (done:
    Result<(), AppError>)
    requires
        old(store).wf(),
    ensures
        final(store).wf(),
        done is Ok,
        final(store)@ == old(store)@.drop_collection(id@),
        !final(store)@.has_collection(id@),
        final(store)@.requests_of(id@).len() == 0,
        final(state)@ == (AppStateRecord {
            collection_items: removed_at(old(state)@.collection_items, index),
            ..old(state)@
        }),
{
    match delete_collection(id, store) {
        Ok(_) => {},
        Err(error) => {
            return Err(error);
        },
    }
    match place_of(index, state.collection_items.len()) {
        Some(at) => {
            state.collection_items.remove(at);
            assert(collection_item_records(final(state).collection_items@)
                =~= collection_item_records(old(state).collection_items@).remove(at as int));
        },
        None => {},
    }
    Ok(())
}

/// Lists the requests of the collection `collection_id`, newest first, and
/// notes that collection as the one on show.
pub fn process_get_requests(store: &Store, state: &mut AppState, collection_id: &str) -> (done:
    Result<(), AppError>)
    ensures
        done is Ok,
        final(state)@ == (AppStateRecord {
            active_collection_id: collection_id@,
            active_collection_requests: request_items_of(store@.requests_of(collection_id@)),
            ..old(state)@
        }),
{
    let rows = match get_collection_requests(store, collection_id) {
        Ok(data) => data,
        Err(error) => {
            return Err(error);
        },
    };
    state.active_collection_requests = request_items(&rows);
    state.active_collection_id = collection_id.to_owned();
    Ok(())
}

/// Moves the counter of the collection item at the place that `index`
/// names by one.
fn recount_item(state: &mut AppState, index: i32, up: bool)
    ensures
        final(state)@ == (AppStateRecord {
            collection_items: recounted_at(old(state)@.collection_items, index, up),
            ..old(state)@
        }),
{
    match place_of(index, state.collection_items.len()) {
        Some(at) => {
            let item = &state.collection_items[at];
            let count: i32 = if up && item.request_count < i32::MAX {
                item.request_count + 1
            } else if !up && item.request_count > i32::MIN {
                item.request_count - 1
            } else {
                item.request_count
            };
            let moved = CollectionItem {
                id: item.id.clone(),
                name: item.name.clone(),
                icon: item.icon.clone(),
                icon_name: item.icon_name.clone(),
                request_count: count,
            };
            let ghost shown = moved@;
            assert(shown == recounted(old(state)@.collection_items[at as int], up));
            state.collection_items[at] = moved;
            assert(collection_item_records(final(state).collection_items@)
                =~= collection_item_records(old(state).collection_items@).update(
                at as int,
                shown,
            ));
        },
        None => {},
    }
}

/// Creates an HTTP request under the collection `collection_id`, puts its
/// item first in the list of requests, and counts it in the collection item
/// at the place `collection_index`. A collection that does not exist is
/// `NotFound`. The id comes from outside: should it ever be one that is in
/// use, or should the counter have no room left, the store refuses with
/// `StorageError`; with no request in the store and room in the counter that
/// cannot happen. On an error nothing changes.
pub fn process_create_requests(
    store: &mut Store,
    state: &mut AppState,
    collection_id: &str,
    collection_index: i32,
) -> (created: Result<RequestData, AppError>)
    requires
        old(store).wf(),
    ensures
        final(store).wf(),
        created matches Ok(r) ==> {
            &&& old(store)@.has_collection(collection_id@)
            &&& !old(store)@.has_request(r@.id)
            &&& r@ == new_request(r@.id, ProtocolTypes::Http, collection_id@)
            &&& final(store)@ == old(store)@.add_request(r@)
            &&& final(store)@.has_request(r@.id)
            &&& final(store)@.request(r@.id) == r@
            &&& final(store)@.has_collection(collection_id@)
            &&& final(state)@ == (AppStateRecord {
                active_collection_requests: old(state)@.active_collection_requests.insert(
                    0,
                    request_item_of(r@),
                ),
                collection_items: recounted_at(
                    old(state)@.collection_items,
                    collection_index,
                    true,
                ),
                ..old(state)@
            })
        },
        created matches Err(e) ==> {
            &&& final(store)@ == old(store)@
            &&& final(state)@ == old(state)@
            &&& e == (if old(store)@.has_collection(collection_id@) {
                AppError::StorageError
            } else {
                AppError::NotFound
            })
        },
        !old(store)@.has_collection(collection_id@) ==> created is Err,
        ({
            &&& old(store)@.has_collection(collection_id@)
            &&& old(store)@.requests.len() == 0
            &&& old(store)@.collection(collection_id@).requests_count < i32::MAX
        }) ==> created is Ok,
{
    let request = match create_request(ProtocolTypes::Http, collection_id, store) {
        Ok(data) => data,
        Err(error) => {
            return Err(error);
        },
    };
    let item = request_item(&request);
    let ghost shown = item@;
    state.active_collection_requests.insert(0, item);
    assert(request_item_records(state.active_collection_requests@) =~= request_item_records(
        old(state).active_collection_requests@,
    ).insert(0, shown));
    recount_item(state, collection_index, true);
    Ok(request)
}

/// Writes the four fields of the request `request_id` as they were typed,
/// and replaces its item at the place `index` of the list of requests. A
/// protocol or method that is no declared code is refused with
/// `ValidationError`, and nothing is written.
pub fn process_update_request(
    store: &mut Store,
    state: &mut AppState,
    request_id: &str,
    name: &str,
    protocol: &str,
    http_method: &str,
    url: &str,
    index: i32,
) -> (updated: Result<RequestData, AppError>)
    requires
        old(store).wf(),
    ensures
        final(store).wf(),
        updated is Ok <==> {
            &&& codes_accepted(Some(protocol@), Some(http_method@))
            &&& old(store)@.has_request(request_id@)
        },
        updated matches Ok(r) ==> {
            &&& r@ == patched(
                old(store)@.request(request_id@),
                Some(name@),
                Some(protocol@),
                Some(http_method@),
                Some(url@),
            )
            &&& final(store)@ == old(store)@.put_request(request_id@, r@)
            &&& final(store)@.has_request(request_id@)
            &&& final(store)@.request(request_id@) == r@
            &&& final(state)@ == (AppStateRecord {
                active_collection_requests: replaced_at(
                    old(state)@.active_collection_requests,
                    index,
                    request_item_of(r@),
                ),
                ..old(state)@
            })
        },
        updated matches Err(e) ==> {
            &&& final(store)@ == old(store)@
            &&& final(state)@ == old(state)@
            &&& e == (if codes_accepted(Some(protocol@), Some(http_method@)) {
                AppError::NotFound
            } else {
                AppError::ValidationError
            })
        },
{
    let request = match update_request_with_codes(
        request_id,
        Some(name.to_owned()),
        Some(protocol),
        Some(http_method),
        Some(url.to_owned()),
        store,
    ) {
        Ok(data) => data,
        Err(error) => {
            return Err(error);
        },
    };
    let item = request_item(&request);
    let ghost shown = item@;
    match place_of(index, state.active_collection_requests.len()) {
        Some(at) => {
            state.active_collection_requests[at] = item;
            assert(request_item_records(final(state).active_collection_requests@)
                =~= request_item_records(old(state).active_collection_requests@).update(
                at as int,
                shown,
            ));
        },
        None => {},
    }
    Ok(request)
}

/// Deletes the request `request_id`, takes the item at the place
/// `request_index` off the list of requests, and takes one off the counter
/// of the collection item at the place `collection_index`.
pub fn process_delete_request(
    store: &mut Store,
    state: &mut AppState,
    request_id: &str,
    request_index: i32,
    collection_index: i32,
) -> (done: Result<(), AppError>)
    requires
        old(store).wf(),
    ensures
        final(store).wf(),
        done is Ok <==> {
            &&& old(store)@.has_request(request_id@)
            &&& old(store)@.collection(
                old(store)@.request(request_id@).collection_id,
            ).requests_count > i32::MIN
        },
        done is Ok ==> {
            &&& final(store)@ == old(store)@.drop_request(request_id@)
            &&& !final(store)@.has_request(request_id@)
            &&& final(store)@.has_collection(old(store)@.request(request_id@).collection_id)
            &&& final(state)@ == (AppStateRecord {
                active_collection_requests: removed_at(
                    old(state)@.active_collection_requests,
                    request_index,
                ),
                collection_items: recounted_at(
                    old(state)@.collection_items,
                    collection_index,
                    false,
                ),
                ..old(state)@
            })
        },
        done matches Err(e) ==> {
            &&& final(store)@ == old(store)@
            &&& final(state)@ == old(state)@
            &&& e == (if old(store)@.has_request(request_id@) {
                AppError::StorageError
            } else {
                AppError::NotFound
            })
        },
{
    match delete_request(request_id, store) {
        Ok(_) => {},
        Err(error) => {
            return Err(error);
        },
    }
    match place_of(request_index, state.active_collection_requests.len()) {
        Some(at) => {
            state.active_collection_requests.remove(at);
            assert(request_item_records(state.active_collection_requests@)
                =~= request_item_records(old(state).active_collection_requests@).remove(
                at as int,
            ));
        },
        None => {},
    }
    recount_item(state, collection_index, false);
    Ok(())
}

/// Adds the request at the place `request_index` of the list of requests to
/// the picked requests, with the icon of the collection at the place
/// `collection_index`. Where either index names no place, nothing is
/// picked.
pub fn process_request_selection(state: &mut AppState, request_index: i32, collection_index: i32) -> (done:
    Result<(), AppError>)
    ensures
        done is Ok,
        final(state)@ == (match (
            place(collection_index, old(state)@.collection_items.len()),
            place(request_index, old(state)@.active_collection_requests.len()),
        ) {
            (Some(ci), Some(ri)) => AppStateRecord {
                selected_requests: old(state)@.selected_requests.push(
                    SelectedRequestRecord {
                        item: old(state)@.active_collection_requests[ri],
                        collection_icon: old(state)@.collection_items[ci].icon,
                    },
                ),
                ..old(state)@
            },
            _ => old(state)@,
        }),
{
    let ci = match place_of(collection_index, state.collection_items.len()) {
        Some(ci) => ci,
        None => {
            return Ok(());
        },
    };
    let ri = match place_of(request_index, state.active_collection_requests.len()) {
        Some(ri) => ri,
        None => {
            return Ok(());
        },
    };
    let picked = SelectedRequestItem {
        item: state.active_collection_requests[ri].clone(),
        collection_icon: state.collection_items[ci].icon.clone(),
    };
    let ghost shown = picked@;
    state.selected_requests.push(picked);
    assert(selected_records(final(state).selected_requests@) =~= selected_records(
        old(state).selected_requests@,
    ).push(shown));
    Ok(())
}

} // verus!
