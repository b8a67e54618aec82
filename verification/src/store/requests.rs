//! The request repository: reading, creating, updating and deleting
//! requests, and keeping the counter of the collection that owns them.

use vstd::prelude::*;
use crate::codes::{
    is_method_code,
    is_protocol_code,
    lemma_method_code_round_trip,
    lemma_protocol_code_round_trip,
    HTTPMethods,
    ProtocolTypes,
};
use crate::error::AppError;
use crate::ident::{is_hyphenated_id, new_id};
use crate::invariants::{
    lemma_add_request,
    lemma_collection_found,
    lemma_drop_request,
    lemma_put_request,
    lemma_request_found,
};
use crate::model::{counted, new_request, owned_by, patched};
use crate::records::{clone_text, text_of, CollectionData, RequestData};
use crate::store::{request_rows, Store};

verus! {

/// The code of a protocol that may be absent.
pub open spec fn protocol_code_of(protocol: Option<ProtocolTypes>) -> Option<Seq<char>> {
    match protocol {
        Some(p) => Some(p.code()),
        None => None,
    }
}

/// The code of a method that may be absent.
pub open spec fn method_code_of(http_method: Option<HTTPMethods>) -> Option<Seq<char>> {
    match http_method {
        Some(m) => Some(m.code()),
        None => None,
    }
}

/// The characters of a text slice that may be absent.
pub open spec fn slice_text_of(field: Option<&str>) -> Option<Seq<char>> {
    match field {
        Some(text) => Some(text@),
        None => None,
    }
}

/// Whether the codes submitted with an update, as far as any are, are
/// declared ones.
pub open spec fn codes_accepted(protocol: Option<Seq<char>>, http_method: Option<Seq<char>>) -> bool {
    &&& protocol matches Some(p) ==> is_protocol_code(p)
    &&& http_method matches Some(m) ==> is_method_code(m)
}

/// Lists the requests of one collection, newest first. A collection without
/// requests, or one that does not exist, gives an empty list.
pub fn get_collection_requests(store: &Store, collection_id: &str) -> (listed: Result<
    Vec<RequestData>,
    AppError,
>)
    ensures
        listed matches Ok(rows) && request_rows(rows@) == store@.requests_of(collection_id@),
{
    let key = collection_id.to_owned();
    let ghost all = request_rows(store.requests@);
    let ghost wanted = owned_by(collection_id@);
    let mut rows: Vec<RequestData> = Vec::new();
    let mut k: usize = 0;
    proof {
        reveal(Seq::filter);
        assert(all.take(0).filter(wanted) =~= Seq::empty());
    }
    while k < store.requests.len()
        invariant
            k <= store.requests.len(),
            key@ == collection_id@,
            all == request_rows(store.requests@),
            wanted == owned_by(collection_id@),
            request_rows(rows@) == all.take(k as int).filter(wanted),
        decreases store.requests.len() - k,
    {
        proof {
            assert(all.take(k + 1) =~= all.take(k as int).push(all[k as int]));
            all.take(k as int).lemma_filter_push(all[k as int], wanted);
        }
        if store.requests[k].collection_id == key {
            rows.push(store.requests[k].clone());
            assert(request_rows(rows@) =~= all.take(k as int).filter(wanted).push(all[k as int]));
        }
        k += 1;
    }
    assert(all.take(k as int) =~= all);
    Ok(rows)
}

/// Reads one request.
pub fn get_single_request(id: &str, store: &Store) -> (found: Result<RequestData, AppError>)
    requires
        store.wf(),
    ensures
        found is Ok <==> store@.has_request(id@),
        found matches Ok(r) ==> r@ == store@.request(id@),
        found matches Err(e) ==> e == AppError::NotFound,
{
    let key = id.to_owned();
    match store.find_request(&key) {
        Some(k) => {
            let r = store.requests[k].clone();
            assert(store@.requests[k as int] == r@);
            proof {
                lemma_request_found(store@, k as int);
            }
            Ok(r)
        },
        None => Err(AppError::NotFound),
    }
}

/// Moves the counter of the collection at the place `at` by one, up or
/// down.
fn move_counter(store: &mut Store, at: usize, up: bool)
    requires
        old(store).wf(),
        at < old(store)@.collections.len(),
        up ==> old(store)@.collections[at as int].requests_count < i32::MAX,
        !up ==> old(store)@.collections[at as int].requests_count > i32::MIN,
    ensures
        final(store)@.requests == old(store)@.requests,
        final(store)@.collections == old(store)@.adjusted(
            old(store)@.collections[at as int].id,
            if up {
                1
            } else {
                -1
            },
        ),
{
    let row = &store.collections[at];
    assert(store@.collections[at as int] == row@);
    let count: i32 = if up {
        row.requests_count + 1
    } else {
        row.requests_count - 1
    };
    let moved = CollectionData {
        id: row.id.clone(),
        name: row.name.clone(),
        icon: row.icon.clone(),
        requests_count: count,
    };
    proof {
        lemma_collection_found(store@, at as int);
    }
    let ghost moved_row = moved@;
    store.collections[at] = moved;
    assert(final(store)@.collections =~= old(store)@.collections.update(at as int, moved_row));
}

/// Puts a new request under the id `id` in front of the table, named
/// "New Request", with the method GET and an empty URL, and counts it in the
/// collection `collection_id`: both or neither.
///
/// The collection must exist (else `NotFound`), the id must be unused and
/// the counter must have room for one more (else `StorageError`). On an
/// error the store stays as it was.
pub fn insert_request(
    id: String,
    protocol: ProtocolTypes,
    collection_id: &str,
    store: &mut Store,
) -> (created: Result<RequestData, AppError>)
    requires
        old(store).wf(),
    ensures
        final(store).wf(),
        created is Ok <==> {
            &&& old(store)@.has_collection(collection_id@)
            &&& !old(store)@.has_request(id@)
            &&& old(store)@.collection(collection_id@).requests_count < i32::MAX
        },
        created matches Ok(r) ==> {
            &&& r@ == new_request(id@, protocol, collection_id@)
            &&& final(store)@ == old(store)@.add_request(r@)
            &&& final(store)@.has_request(id@)
            &&& final(store)@.request(id@) == r@
            &&& final(store)@.has_collection(collection_id@)
            &&& final(store)@.collection(collection_id@) == counted(
                old(store)@.collection(collection_id@),
                1,
            )
            &&& final(store)@.requests_of(collection_id@) == seq![r@] + old(store)@.requests_of(
                collection_id@,
            )
        },
        old(store)@.counts_consistent() ==> final(store)@.counts_consistent(),
        created matches Err(e) ==> {
            &&& final(store)@ == old(store)@
            &&& e == (if old(store)@.has_collection(collection_id@) {
                AppError::StorageError
            } else {
                AppError::NotFound
            })
        },
{
    let parent = collection_id.to_owned();
    let at = match store.find_collection(&parent) {
        Some(at) => at,
        None => {
            return Err(AppError::NotFound);
        },
    };
    proof {
        lemma_collection_found(store@, at as int);
        assert(store@.collections[at as int] == store.collections[at as int]@);
    }
    if store.find_request(&id).is_some() {
        return Err(AppError::StorageError);
    }
    if store.collections[at].requests_count == i32::MAX {
        return Err(AppError::StorageError);
    }
    let row = RequestData {
        id,
        name: "New Request".to_owned(),
        url: Some("".to_owned()),
        protocol: protocol.to_string(),
        collection_id: parent,
        http_method: Some(HTTPMethods::Get.to_string()),
    };
    let copy = row.clone();
    proof {
        lemma_protocol_code_round_trip(protocol);
        lemma_method_code_round_trip(HTTPMethods::Get);
        lemma_add_request(store@, row@);
    }
    move_counter(store, at, true);
    store.requests.insert(0, row);
    assert(final(store)@.requests =~= seq![copy@] + old(store)@.requests);
    Ok(copy)
}

/// Creates a request with the given protocol under the collection
/// `collection_id`: with a fresh id, named "New Request", with the method
/// GET and an empty URL. The counter of the collection goes up by one with
/// it.
///
/// Fails with `NotFound` where the collection does not exist. The id comes
/// from outside: should it ever be one that is in use, or should the counter
/// have no room left, the store refuses with `StorageError`; with no request
/// in the store and room in the counter that cannot happen. On an error the
/// store stays as it was.
pub fn create_request(protocol: ProtocolTypes, collection_id: &str, store: &mut Store) -> (created:
    Result<RequestData, AppError>)
    requires
        old(store).wf(),
    ensures
        final(store).wf(),
        created matches Ok(r) ==> {
            &&& old(store)@.has_collection(collection_id@)
            &&& !old(store)@.has_request(r@.id)
            &&& is_hyphenated_id(r@.id)
            &&& r@ == new_request(r@.id, protocol, collection_id@)
            &&& final(store)@ == old(store)@.add_request(r@)
            &&& final(store)@.has_request(r@.id)
            &&& final(store)@.request(r@.id) == r@
            &&& final(store)@.has_collection(collection_id@)
            &&& final(store)@.collection(collection_id@) == counted(
                old(store)@.collection(collection_id@),
                1,
            )
            &&& final(store)@.requests_of(collection_id@) == seq![r@] + old(store)@.requests_of(
                collection_id@,
            )
        },
        old(store)@.counts_consistent() ==> final(store)@.counts_consistent(),
        created matches Err(e) ==> {
            &&& final(store)@ == old(store)@
            &&& e == (if old(store)@.has_collection(collection_id@) {
                AppError::StorageError
            } else {
                AppError::NotFound
            })
        },
        !old(store)@.has_collection(collection_id@) ==> created is Err,
        ({
            &&& old(store)@.has_collection(collection_id@)
            &&& old(store)@.requests.len() == 0
            &&& old(store)@.collection(collection_id@).requests_count < i32::MAX
        }) ==> created is Ok,
{
    let id = new_id();
    insert_request(id, protocol, collection_id, store)
}

/// Deletes the request `request_id` and takes it off the counter of its
/// collection: both or neither.
///
/// Fails with `NotFound` where the request does not exist, and with
/// `StorageError` where the counter is already at the lowest number it can
/// hold. On an error the store stays as it was.
pub fn delete_request(request_id: &str, store: &mut Store) -> (deleted: Result<(), AppError>)
    requires
        old(store).wf(),
    ensures
        final(store).wf(),
        deleted is Ok <==> {
            &&& old(store)@.has_request(request_id@)
            &&& old(store)@.collection(
                old(store)@.request(request_id@).collection_id,
            ).requests_count > i32::MIN
        },
        deleted is Ok ==> {
            let parent = old(store)@.request(request_id@).collection_id;
            &&& final(store)@ == old(store)@.drop_request(request_id@)
            &&& !final(store)@.has_request(request_id@)
            &&& final(store)@.has_collection(parent)
            &&& final(store)@.collection(parent) == counted(old(store)@.collection(parent), -1)
            &&& final(store)@.requests_of(parent).len() == old(store)@.requests_of(parent).len() - 1
        },
        old(store)@.counts_consistent() ==> final(store)@.counts_consistent(),
        deleted matches Err(e) ==> {
            &&& final(store)@ == old(store)@
            &&& e == (if old(store)@.has_request(request_id@) {
                AppError::StorageError
            } else {
                AppError::NotFound
            })
        },
{
    let key = request_id.to_owned();
    let k = match store.find_request(&key) {
        Some(k) => k,
        None => {
            return Err(AppError::NotFound);
        },
    };
    proof {
        lemma_request_found(store@, k as int);
        assert(store@.requests[k as int] == store.requests[k as int]@);
        assert(store@.has_collection(store@.requests[k as int].collection_id));
    }
    let parent = store.requests[k].collection_id.clone();
    let at = match store.find_collection(&parent) {
        Some(at) => at,
        None => {
            // A well-formed store holds the collection of every request.
            return Err(AppError::StorageError);
        },
    };
    proof {
        lemma_collection_found(store@, at as int);
        assert(store@.collections[at as int] == store.collections[at as int]@);
    }
    if store.collections[at].requests_count == i32::MIN {
        return Err(AppError::StorageError);
    }
    proof {
        lemma_drop_request(store@, request_id@);
    }
    move_counter(store, at, false);
    store.requests.remove(k);
    assert(final(store)@.requests =~= old(store)@.requests.remove(k as int));
    Ok(())
}

/// Updates the request `id`. A field that is given replaces the old one; a
/// field that is `None` stays as it is. The id and the collection never
/// change.
pub fn update_request_item(
    id: &str,
    name: Option<String>,
    protocol: Option<ProtocolTypes>,
    http_method: Option<HTTPMethods>,
    url: Option<String>,
    store: &mut Store,
) -> (updated: Result<RequestData, AppError>)
    requires
        old(store).wf(),
    ensures
        final(store).wf(),
        updated is Ok <==> old(store)@.has_request(id@),
        updated matches Ok(r) ==> {
            &&& r@ == patched(
                old(store)@.request(id@),
                text_of(name),
                protocol_code_of(protocol),
                method_code_of(http_method),
                text_of(url),
            )
            &&& final(store)@ == old(store)@.put_request(id@, r@)
            &&& final(store)@.has_request(id@)
            &&& final(store)@.request(id@) == r@
        },
        updated matches Err(e) ==> e == AppError::NotFound && final(store)@ == old(store)@,
        old(store)@.counts_consistent() ==> final(store)@.counts_consistent(),
{
    let key = id.to_owned();
    let k = match store.find_request(&key) {
        Some(k) => k,
        None => {
            return Err(AppError::NotFound);
        },
    };
    proof {
        lemma_request_found(store@, k as int);
        assert(store@.requests[k as int] == store.requests[k as int]@);
    }
    let current = &store.requests[k];
    let row = RequestData {
        id: current.id.clone(),
        name: match name {
            Some(text) => text,
            None => current.name.clone(),
        },
        url: match url {
            Some(text) => Some(text),
            None => clone_text(&current.url),
        },
        protocol: match protocol {
            Some(p) => p.to_string(),
            None => current.protocol.clone(),
        },
        collection_id: current.collection_id.clone(),
        http_method: match http_method {
            Some(m) => Some(m.to_string()),
            None => clone_text(&current.http_method),
        },
    };
    let copy = row.clone();
    proof {
        if protocol is Some {
            lemma_protocol_code_round_trip(protocol->0);
        }
        if http_method is Some {
            lemma_method_code_round_trip(http_method->0);
        }
        lemma_put_request(store@, id@, row@);
    }
    store.requests[k] = row;
    assert(final(store)@.requests =~= old(store)@.requests.update(k as int, copy@));
    Ok(copy)
}

/// Updates the request `id` from codes as they were typed or sent. The codes
/// are tested first: where one is not declared, nothing is written and the
/// update fails with `ValidationError`, whether the request exists or not.
/// Otherwise this is [`update_request_item`].
pub fn update_request_with_codes(
    id: &str,
    name: Option<String>,
    protocol: Option<&str>,
    http_method: Option<&str>,
    url: Option<String>,
    store: &mut Store,
) -> (updated: Result<RequestData, AppError>)
    requires
        old(store).wf(),
    ensures
        final(store).wf(),
        updated is Ok <==> {
            &&& codes_accepted(slice_text_of(protocol), slice_text_of(http_method))
            &&& old(store)@.has_request(id@)
        },
        updated matches Ok(r) ==> {
            &&& r@ == patched(
                old(store)@.request(id@),
                text_of(name),
                slice_text_of(protocol),
                slice_text_of(http_method),
                text_of(url),
            )
            &&& final(store)@ == old(store)@.put_request(id@, r@)
            &&& final(store)@.has_request(id@)
            &&& final(store)@.request(id@) == r@
        },
        old(store)@.counts_consistent() ==> final(store)@.counts_consistent(),
        updated matches Err(e) ==> {
            &&& final(store)@ == old(store)@
            &&& e == (if codes_accepted(slice_text_of(protocol), slice_text_of(http_method)) {
                AppError::NotFound
            } else {
                AppError::ValidationError
            })
        },
{
    let parsed_protocol = match protocol {
        Some(code) => match ProtocolTypes::from_string(code) {
            Some(p) => Some(p),
            None => {
                return Err(AppError::ValidationError);
            },
        },
        None => None,
    };
    let parsed_method = match http_method {
        Some(code) => match HTTPMethods::from_string(code) {
            Some(m) => Some(m),
            None => {
                return Err(AppError::ValidationError);
            },
        },
        None => None,
    };
    update_request_item(id, name, parsed_protocol, parsed_method, url, store)
}

} // verus!
