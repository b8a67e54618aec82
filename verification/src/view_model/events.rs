//! What each event of the bus does to the state of the screens, and the
//! events that the edits made in the request view give rise to.
//!
//! A component applies the events it receives with [`apply_event`]. The
//! edits return the event to publish; publishing is the caller's part.

use vstd::prelude::*;
use crate::codes::{HTTPMethods, ProtocolTypes};
use crate::error::AppError;
use crate::icons::{compute_request_icon, request_icon};
use crate::invariants::{lemma_collection_index, lemma_request_index};
use crate::messaging::AppEvent;
use crate::model::patched;
use crate::store::collections::{delete_collection, get_single_collection};
use crate::store::requests::{get_single_request, update_request_item};
use crate::store::Store;
use crate::view_model::{
    collection_item_records,
    request_item_records,
    shown_method,
    shown_url,
    viewed_record,
    AppState,
    AppStateRecord,
    CollectionItemRecord,
    RequestItem,
    RequestItemRecord,
    ViewedRequest,
    ViewedRequestRecord,
};

verus! {

/// Whether `at` is the place of the first collection item with the id `id`.
pub open spec fn is_first_collection_item(
    items: Seq<CollectionItemRecord>,
    id: Seq<char>,
    at: int,
) -> bool {
    &&& 0 <= at < items.len()
    &&& items[at].id == id
    &&& forall|j: int| 0 <= j < at ==> (#[trigger] items[j]).id != id
}

/// Whether a collection item with the id `id` is listed.
pub open spec fn lists_collection(items: Seq<CollectionItemRecord>, id: Seq<char>) -> bool {
    exists|at: int| is_first_collection_item(items, id, at)
}

/// The place of the first collection item with the id `id`.
pub open spec fn first_collection_item(items: Seq<CollectionItemRecord>, id: Seq<char>) -> int {
    choose|at: int| is_first_collection_item(items, id, at)
}

/// Whether `at` is the place of the first request item with the id `id`.
pub open spec fn is_first_request_item(items: Seq<RequestItemRecord>, id: Seq<char>, at: int) -> bool {
    &&& 0 <= at < items.len()
    &&& items[at].id == id
    &&& forall|j: int| 0 <= j < at ==> (#[trigger] items[j]).id != id
}

/// Whether a request item with the id `id` is listed.
pub open spec fn lists_request(items: Seq<RequestItemRecord>, id: Seq<char>) -> bool {
    exists|at: int| is_first_request_item(items, id, at)
}

/// The place of the first request item with the id `id`.
pub open spec fn first_request_item(items: Seq<RequestItemRecord>, id: Seq<char>) -> int {
    choose|at: int| is_first_request_item(items, id, at)
}

/// The state after the news that the collection `id` is to go: its item
/// leaves the list. Where no such item is listed the state stays.
pub open spec fn after_collection_deleted(state: AppStateRecord, id: Seq<char>) -> AppStateRecord {
    if lists_collection(state.collection_items, id) {
        AppStateRecord {
            collection_items: state.collection_items.remove(
                first_collection_item(state.collection_items, id),
            ),
            ..state
        }
    } else {
        state
    }
}

/// The list of requests with the first item of the id `request_id` changed
/// by `change`. Where the list shows another collection than
/// `collection_id`, or no such item, the list stays.
pub open spec fn with_request_item(
    state: AppStateRecord,
    request_id: Seq<char>,
    collection_id: Seq<char>,
    change: spec_fn(RequestItemRecord) -> RequestItemRecord,
) -> AppStateRecord {
    if state.active_collection_id == collection_id && lists_request(
        state.active_collection_requests,
        request_id,
    ) {
        let at = first_request_item(state.active_collection_requests, request_id);
        AppStateRecord {
            active_collection_requests: state.active_collection_requests.update(
                at,
                change(state.active_collection_requests[at]),
            ),
            ..state
        }
    } else {
        state
    }
}

/// A request item under a new name.
pub open spec fn renamed(name: Seq<char>) -> spec_fn(RequestItemRecord) -> RequestItemRecord {
    |item: RequestItemRecord| RequestItemRecord { name, ..item }
}

/// A request item under a new method, with the icon that an HTTP request
/// of that method has.
pub open spec fn with_method(http_method: HTTPMethods) -> spec_fn(
    RequestItemRecord,
) -> RequestItemRecord {
    |item: RequestItemRecord|
        RequestItemRecord {
            http_method: http_method.code(),
            icon: request_icon(ProtocolTypes::Http.code(), http_method.code()),
            ..item
        }
}

/// Looks for the first collection item with the id `id`.
fn find_collection_item(state: &AppState, id: &String) -> (found: Option<usize>)
    ensures
        found is Some <==> lists_collection(state@.collection_items, id@),
        found matches Some(at) ==> is_first_collection_item(
            state@.collection_items,
            id@,
            at as int,
        ) && at as int == first_collection_item(state@.collection_items, id@),
{
    let mut i: usize = 0;
    while i < state.collection_items.len()
        invariant
            i <= state.collection_items.len(),
            forall|j: int| 0 <= j < i ==> (#[trigger] state@.collection_items[j]).id != id@,
        decreases state.collection_items.len() - i,
    {
        assert(state@.collection_items[i as int] == state.collection_items[i as int]@);
        if state.collection_items[i].id == *id {
            assert(is_first_collection_item(state@.collection_items, id@, i as int));
            return Some(i);
        }
        i += 1;
    }
    None
}

/// Looks for the first request item with the id `id`.
fn find_request_item(state: &AppState, id: &String) -> (found: Option<usize>)
    ensures
        found is Some <==> lists_request(state@.active_collection_requests, id@),
        found matches Some(at) ==> is_first_request_item(
            state@.active_collection_requests,
            id@,
            at as int,
        ) && at as int == first_request_item(state@.active_collection_requests, id@),
{
    let mut i: usize = 0;
    while i < state.active_collection_requests.len()
        invariant
            i <= state.active_collection_requests.len(),
            forall|j: int| 0 <= j < i ==> (#[trigger] state@.active_collection_requests[j]).id != id@,
        decreases state.active_collection_requests.len() - i,
    {
        assert(state@.active_collection_requests[i as int]
            == state.active_collection_requests[i as int]@);
        if state.active_collection_requests[i].id == *id {
            assert(is_first_request_item(state@.active_collection_requests, id@, i as int));
            return Some(i);
        }
        i += 1;
    }
    None
}

/// The collection `collection_id` is to go. Where its item is listed, the
/// item leaves the list and the collection leaves the store, with its
/// requests. Where it is not listed, nothing happens.
pub fn on_collection_deleted(store: &mut Store, state: &mut AppState, collection_id: &String)
    requires
        old(store).wf(),
    ensures
        final(store).wf(),
        final(state)@ == after_collection_deleted(old(state)@, collection_id@),
        final(store)@ == (if lists_collection(old(state)@.collection_items, collection_id@) {
            old(store)@.drop_collection(collection_id@)
        } else {
            old(store)@
        }),
{
    match find_collection_item(state, collection_id) {
        Some(at) => {
            state.collection_items.remove(at);
            assert(collection_item_records(final(state).collection_items@)
                =~= collection_item_records(old(state).collection_items@).remove(at as int));
            let _ = delete_collection(collection_id.as_str(), store);
        },
        None => {},
    }
}

/// The request `request_id` of the collection `collection_id` has the new
/// name `name`. Where the list of requests shows that collection, the
/// first item of that id takes the name.
pub fn on_request_renamed(
    state: &mut AppState,
    name: &String,
    request_id: &String,
    collection_id: &String,
)
    ensures
        final(state)@ == with_request_item(
            old(state)@,
            request_id@,
            collection_id@,
            renamed(name@),
        ),
{
    if state.active_collection_id == *collection_id {
        match find_request_item(state, request_id) {
            Some(at) => {
                let item = &state.active_collection_requests[at];
                assert(item@ == old(state)@.active_collection_requests[at as int]);
                let changed = RequestItem {
                    id: item.id.clone(),
                    name: name.clone(),
                    url: item.url.clone(),
                    protocol: item.protocol.clone(),
                    http_method: item.http_method.clone(),
                    icon: item.icon.clone(),
                };
                let ghost shown = changed@;
                state.active_collection_requests[at] = changed;
                assert(request_item_records(final(state).active_collection_requests@)
                    =~= request_item_records(old(state).active_collection_requests@).update(
                    at as int,
                    shown,
                ));
            },
            None => {},
        }
    }
}

/// The request `request_id` of the collection `collection_id` has the new
/// method `http_method`. Where the list of requests shows that collection,
/// the first item of that id takes the method and the icon that goes with
/// it.
pub fn on_method_changed(
    state: &mut AppState,
    http_method: HTTPMethods,
    request_id: &String,
    collection_id: &String,
)
    ensures
        final(state)@ == with_request_item(
            old(state)@,
            request_id@,
            collection_id@,
            with_method(http_method),
        ),
{
    if state.active_collection_id == *collection_id {
        match find_request_item(state, request_id) {
            Some(at) => {
                let item = &state.active_collection_requests[at];
                assert(item@ == old(state)@.active_collection_requests[at as int]);
                let code = http_method.to_string();
                let icon = compute_request_icon(&ProtocolTypes::Http.to_string(), &code);
                let changed = RequestItem {
                    id: item.id.clone(),
                    name: item.name.clone(),
                    url: item.url.clone(),
                    protocol: item.protocol.clone(),
                    http_method: code,
                    icon,
                };
                let ghost shown = changed@;
                state.active_collection_requests[at] = changed;
                assert(request_item_records(final(state).active_collection_requests@)
                    =~= request_item_records(old(state).active_collection_requests@).update(
                    at as int,
                    shown,
                ));
            },
            None => {},
        }
    }
}

/// What the request view shows of the request `request_id`.
pub open spec fn viewed_of(store: crate::model::StoreState, request_id: Seq<char>) -> ViewedRequestRecord {
    let request = store.request(request_id);
    let collection = store.collection(request.collection_id);
    ViewedRequestRecord {
        collection_name: collection.name,
        request_name: request.name,
        request_id: request.id,
        collection_id: collection.id,
        http_method: shown_method(request.http_method),
        url: shown_url(request.url),
    }
}

/// The request `request_id` was picked for viewing: the request view shows
/// it, with the name of its collection. A request that does not exist is
/// `NotFound`, and the view stays as it is.
pub fn on_request_viewed(store: &Store, state: &mut AppState, request_id: &String) -> (done: Result<
    (),
    AppError,
>)
    requires
        store.wf(),
    ensures
        done is Ok <==> store@.has_request(request_id@),
        done is Ok ==> final(state)@ == (AppStateRecord {
            viewed: Some(viewed_of(store@, request_id@)),
            ..old(state)@
        }),
        done matches Err(e) ==> e == AppError::NotFound && final(state)@ == old(state)@,
{
    let request = match get_single_request(request_id.as_str(), store) {
        Ok(data) => data,
        Err(error) => {
            return Err(error);
        },
    };
    proof {
        lemma_request_index(store@, request_id@);
        assert(store@.has_collection(store@.requests[store@.request_index(request_id@)].collection_id));
    }
    let collection = match get_single_collection(request.collection_id.as_str(), store) {
        Ok(data) => data,
        Err(error) => {
            return Err(error);
        },
    };
    proof {
        lemma_collection_index(store@, request@.collection_id);
    }
    state.viewed = Some(
        ViewedRequest {
            collection_name: collection.name,
            request_name: request.name,
            request_id: request.id,
            collection_id: collection.id,
            http_method: match request.http_method {
                Some(m) => m,
                None => "GET".to_owned(),
            },
            url: match request.url {
                Some(u) => u,
                None => String::new(),
            },
        },
    );
    Ok(())
}

/// Applies one event of the bus to the state of the screens. Only the news
/// that a collection is to go touches the store. Only the viewing of a
/// request that does not exist fails, with `NotFound`.
pub fn apply_event(store: &mut Store, state: &mut AppState, event: &AppEvent) -> (done: Result<
    (),
    AppError,
>)
    requires
        old(store).wf(),
    ensures
        final(store).wf(),
        match *event {
            AppEvent::CollectionDeleted(collection_id) => {
                &&& done is Ok
                &&& final(state)@ == after_collection_deleted(old(state)@, collection_id@)
                &&& final(store)@ == (if lists_collection(
                    old(state)@.collection_items,
                    collection_id@,
                ) {
                    old(store)@.drop_collection(collection_id@)
                } else {
                    old(store)@
                })
            },
            AppEvent::UpdateHttpMethod(http_method, request_id, collection_id) => {
                &&& done is Ok
                &&& final(store)@ == old(store)@
                &&& final(state)@ == with_request_item(
                    old(state)@,
                    request_id@,
                    collection_id@,
                    with_method(http_method),
                )
            },
            AppEvent::ViewRequestItem(request_id) => {
                &&& final(store)@ == old(store)@
                &&& done is Ok <==> old(store)@.has_request(request_id@)
                &&& done is Ok ==> final(state)@ == (AppStateRecord {
                    viewed: Some(viewed_of(old(store)@, request_id@)),
                    ..old(state)@
                })
                &&& done matches Err(e) ==> e == AppError::NotFound && final(state)@ == old(state)@
            },
            AppEvent::RenameRequestItem(name, request_id, collection_id) => {
                &&& done is Ok
                &&& final(store)@ == old(store)@
                &&& final(state)@ == with_request_item(
                    old(state)@,
                    request_id@,
                    collection_id@,
                    renamed(name@),
                )
            },
        },
{
    match event {
        AppEvent::CollectionDeleted(collection_id) => {
            on_collection_deleted(store, state, collection_id);
            Ok(())
        },
        AppEvent::UpdateHttpMethod(http_method, request_id, collection_id) => {
            on_method_changed(state, *http_method, request_id, collection_id);
            Ok(())
        },
        AppEvent::ViewRequestItem(request_id) => on_request_viewed(store, state, request_id),
        AppEvent::RenameRequestItem(name, request_id, collection_id) => {
            on_request_renamed(state, name, request_id, collection_id);
            Ok(())
        },
    }
}

/// The request on view under other fields.
pub open spec fn viewed_with(
    viewed: ViewedRequestRecord,
    name: Option<Seq<char>>,
    http_method: Option<Seq<char>>,
    url: Option<Seq<char>>,
) -> ViewedRequestRecord {
    ViewedRequestRecord {
        request_name: if name is Some { name->0 } else { viewed.request_name },
        http_method: if http_method is Some { http_method->0 } else { viewed.http_method },
        url: if url is Some { url->0 } else { viewed.url },
        ..viewed
    }
}

/// Copies the request on view with other fields.
fn changed_view(
    viewed: &ViewedRequest,
    name: Option<String>,
    http_method: Option<String>,
    url: Option<String>,
) -> (changed: ViewedRequest)
    ensures
        changed@ == viewed_with(
            viewed@,
            crate::records::text_of(name),
            crate::records::text_of(http_method),
            crate::records::text_of(url),
        ),
{
    ViewedRequest {
        collection_name: viewed.collection_name.clone(),
        request_name: match name {
            Some(text) => text,
            None => viewed.request_name.clone(),
        },
        request_id: viewed.request_id.clone(),
        collection_id: viewed.collection_id.clone(),
        http_method: match http_method {
            Some(text) => text,
            None => viewed.http_method.clone(),
        },
        url: match url {
            Some(text) => text,
            None => viewed.url.clone(),
        },
    }
}

/// Gives the request on view the method `http_method`, in the store and in
/// the view, and returns the event that tells the other components. With no
/// request on view, or one that is no longer in the store, the edit is
/// `NotFound` and nothing changes.
pub fn update_request_method(store: &mut Store, state: &mut AppState, http_method: HTTPMethods) -> (told:
    Result<AppEvent, AppError>)
    requires
        old(store).wf(),
    ensures
        final(store).wf(),
        told is Ok <==> (old(state)@.viewed matches Some(v) && old(store)@.has_request(
            v.request_id,
        )),
        told matches Ok(event) ==> {
            let v = old(state)@.viewed->0;
            &&& event matches AppEvent::UpdateHttpMethod(m, request_id, collection_id)
            &&& m == http_method
            &&& request_id@ == v.request_id
            &&& collection_id@ == v.collection_id
            &&& final(store)@ == old(store)@.put_request(
                v.request_id,
                patched(
                    old(store)@.request(v.request_id),
                    None,
                    None,
                    Some(http_method.code()),
                    None,
                ),
            )
            &&& final(store)@.has_request(v.request_id)
            &&& final(state)@ == (AppStateRecord {
                viewed: Some(viewed_with(v, None, Some(http_method.code()), None)),
                ..old(state)@
            })
        },
        told matches Err(e) ==> {
            &&& e == AppError::NotFound
            &&& final(store)@ == old(store)@
            &&& final(state)@ == old(state)@
        },
{
    let changed = match &state.viewed {
        Some(viewed) => {
            match update_request_item(
                viewed.request_id.as_str(),
                None,
                None,
                Some(http_method),
                None,
                store,
            ) {
                Ok(_) => changed_view(viewed, None, Some(http_method.to_string()), None),
                Err(error) => {
                    return Err(error);
                },
            }
        },
        None => {
            return Err(AppError::NotFound);
        },
    };
    let event = AppEvent::UpdateHttpMethod(
        http_method,
        changed.request_id.clone(),
        changed.collection_id.clone(),
    );
    state.viewed = Some(changed);
    Ok(event)
}

/// Gives the request on view the name `name`, in the store and in the view,
/// and returns the event that tells the other components. With no request
/// on view, or one that is no longer in the store, the edit is `NotFound`
/// and nothing changes.
pub fn rename_viewed_request(store: &mut Store, state: &mut AppState, name: &str) -> (told: Result<
    AppEvent,
    AppError,
>)
    requires
        old(store).wf(),
    ensures
        final(store).wf(),
        told is Ok <==> (old(state)@.viewed matches Some(v) && old(store)@.has_request(
            v.request_id,
        )),
        told matches Ok(event) ==> {
            let v = old(state)@.viewed->0;
            &&& event matches AppEvent::RenameRequestItem(new_name, request_id, collection_id)
            &&& new_name@ == name@
            &&& request_id@ == v.request_id
            &&& collection_id@ == v.collection_id
            &&& final(store)@ == old(store)@.put_request(
                v.request_id,
                patched(old(store)@.request(v.request_id), Some(name@), None, None, None),
            )
            &&& final(store)@.has_request(v.request_id)
            &&& final(state)@ == (AppStateRecord {
                viewed: Some(viewed_with(v, Some(name@), None, None)),
                ..old(state)@
            })
        },
        told matches Err(e) ==> {
            &&& e == AppError::NotFound
            &&& final(store)@ == old(store)@
            &&& final(state)@ == old(state)@
        },
{
    let changed = match &state.viewed {
        Some(viewed) => {
            match update_request_item(
                viewed.request_id.as_str(),
                Some(name.to_owned()),
                None,
                None,
                None,
                store,
            ) {
                Ok(_) => changed_view(viewed, Some(name.to_owned()), None, None),
                Err(error) => {
                    return Err(error);
                },
            }
        },
        None => {
            return Err(AppError::NotFound);
        },
    };
    let event = AppEvent::RenameRequestItem(
        name.to_owned(),
        changed.request_id.clone(),
        changed.collection_id.clone(),
    );
    state.viewed = Some(changed);
    Ok(event)
}

/// Gives the request on view the URL `url`, in the store and in the view.
/// No other component shows the URL, so there is no event to publish. With
/// no request on view, or one that is no longer in the store, the edit is
/// `NotFound` and nothing changes.
pub fn change_viewed_url(store: &mut Store, state: &mut AppState, url: &str) -> (done: Result<
    (),
    AppError,
>)
    requires
        old(store).wf(),
    ensures
        final(store).wf(),
        done is Ok <==> (old(state)@.viewed matches Some(v) && old(store)@.has_request(
            v.request_id,
        )),
        done is Ok ==> {
            let v = old(state)@.viewed->0;
            &&& final(store)@ == old(store)@.put_request(
                v.request_id,
                patched(old(store)@.request(v.request_id), None, None, None, Some(url@)),
            )
            &&& final(store)@.has_request(v.request_id)
            &&& final(state)@ == (AppStateRecord {
                viewed: Some(viewed_with(v, None, None, Some(url@))),
                ..old(state)@
            })
        },
        done matches Err(e) ==> {
            &&& e == AppError::NotFound
            &&& final(store)@ == old(store)@
            &&& final(state)@ == old(state)@
        },
{
    let changed = match &state.viewed {
        Some(viewed) => {
            match update_request_item(
                viewed.request_id.as_str(),
                None,
                None,
                None,
                Some(url.to_owned()),
                store,
            ) {
                Ok(_) => changed_view(viewed, None, None, Some(url.to_owned())),
                Err(error) => {
                    return Err(error);
                },
            }
        },
        None => {
            return Err(AppError::NotFound);
        },
    };
    state.viewed = Some(changed);
    Ok(())
}

} // verus!
