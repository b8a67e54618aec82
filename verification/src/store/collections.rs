//! The collection repository: reading, searching, creating, updating and
//! deleting collections.

use vstd::prelude::*;
use crate::error::AppError;
use crate::icons::{icon_from_pack, pick_icon};
use crate::ident::{is_hyphenated_id, new_id};
use crate::invariants::{lemma_add_collection, lemma_drop_collection, lemma_put_collection};
use crate::model::{name_matches, new_collection, not_owned_by, other_than};
use crate::records::{CollectionData, CollectionRecord, RequestData};
use crate::search::matches_term;
use crate::store::{collection_rows, request_rows, Store};

verus! {

/// Lists every collection, newest first.
pub fn get_all_collections(store: &Store) -> (listed: Result<Vec<CollectionData>, AppError>)
    ensures
        listed matches Ok(rows) && collection_rows(rows@) == store@.collections,
{
    let mut rows: Vec<CollectionData> = Vec::new();
    let mut i: usize = 0;
    while i < store.collections.len()
        invariant
            i <= store.collections.len(),
            collection_rows(rows@) == collection_rows(store.collections@).take(i as int),
        decreases store.collections.len() - i,
    {
        let ghost listed = rows@;
        let row = store.collections[i].clone();
        rows.push(row);
        assert(collection_rows(rows@) =~= collection_rows(listed).push(row@));
        i += 1;
        assert(collection_rows(rows@) =~= collection_rows(store.collections@).take(i as int));
    }
    assert(collection_rows(store.collections@).take(i as int) =~= store@.collections);
    Ok(rows)
}

/// Lists the collections whose name holds `search_term`, newest first. The
/// letters `A` to `Z` match `a` to `z` and the other way round; every other
/// character, an accented letter too, matches only itself. A term that
/// matches nothing gives an empty list.
pub fn search_collections(store: &Store, search_term: &str) -> (listed: Result<
    Vec<CollectionData>,
    AppError,
>)
    ensures
        listed matches Ok(rows) && collection_rows(rows@) == store@.search(search_term@),
{
    let ghost all = collection_rows(store.collections@);
    let ghost wanted = name_matches(search_term@);
    let mut rows: Vec<CollectionData> = Vec::new();
    let mut i: usize = 0;
    proof {
        reveal(Seq::filter);
        assert(all.take(0).filter(wanted) =~= Seq::empty());
    }
    while i < store.collections.len()
        invariant
            i <= store.collections.len(),
            all == collection_rows(store.collections@),
            wanted == name_matches(search_term@),
            collection_rows(rows@) == all.take(i as int).filter(wanted),
        decreases store.collections.len() - i,
    {
        proof {
            assert(all.take(i + 1) =~= all.take(i as int).push(all[i as int]));
            all.take(i as int).lemma_filter_push(all[i as int], wanted);
        }
        if matches_term(store.collections[i].name.as_str(), search_term) {
            rows.push(store.collections[i].clone());
            assert(collection_rows(rows@) =~= all.take(i as int).filter(wanted).push(
                all[i as int],
            ));
        }
        i += 1;
    }
    assert(all.take(i as int) =~= all);
    Ok(rows)
}

/// Reads one collection.
pub fn get_single_collection(id: &str, store: &Store) -> (found: Result<CollectionData, AppError>)
    requires
        store.wf(),
    ensures
        found is Ok <==> store@.has_collection(id@),
        found matches Ok(c) ==> c@ == store@.collection(id@),
        found matches Err(e) ==> e == AppError::NotFound,
{
    let key = id.to_owned();
    match store.find_collection(&key) {
        Some(i) => {
            let c = store.collections[i].clone();
            assert(store@.collections[i as int] == c@);
            Ok(c)
        },
        None => Err(AppError::NotFound),
    }
}

/// Puts a new collection under the id `id` in front of the table, with no
/// request counted. The id must be unused: a second row under one id is
/// refused, and the store stays as it was.
pub fn insert_collection(id: String, name: String, icon: String, store: &mut Store) -> (created:
    Result<CollectionData, AppError>)
    requires
        old(store).wf(),
    ensures
        final(store).wf(),
        created is Ok <==> !old(store)@.has_collection(id@),
        created matches Ok(c) ==> {
            &&& c@ == new_collection(id@, name@, icon@)
            &&& final(store)@ == old(store)@.add_collection(c@)
            &&& final(store)@.has_collection(id@)
            &&& final(store)@.collection(id@) == c@
        },
        created matches Err(e) ==> e == AppError::StorageError && final(store)@ == old(store)@,
        old(store)@.counts_consistent() ==> final(store)@.counts_consistent(),
{
    if store.find_collection(&id).is_some() {
        return Err(AppError::StorageError);
    }
    let row = CollectionData { id, name, icon, requests_count: 0 };
    let copy = row.clone();
    proof {
        lemma_add_collection(store@, row@);
    }
    store.collections.insert(0, row);
    assert(final(store)@.collections =~= seq![copy@] + old(store)@.collections);
    Ok(copy)
}

/// Creates a collection named `name`. Its id is fresh, its icon is picked at
/// random from `icons` (the default icon where that list is empty), and it
/// counts no request. The new collection is the first of the table.
///
/// The id comes from outside. Should it ever be one that is in use, the
/// store refuses the row with `StorageError` and stays as it was; with no
/// collection in the store that cannot happen.
pub fn create_collection(name: String, icons: &Vec<String>, store: &mut Store) -> (created: Result<
    CollectionData,
    AppError,
>)
    requires
        old(store).wf(),
    ensures
        final(store).wf(),
        created matches Ok(c) ==> {
            &&& !old(store)@.has_collection(c@.id)
            &&& is_hyphenated_id(c@.id)
            &&& icon_from_pack(icons@, c@.icon)
            &&& c@ == new_collection(c@.id, name@, c@.icon)
            &&& final(store)@ == old(store)@.add_collection(c@)
            &&& final(store)@.has_collection(c@.id)
            &&& final(store)@.collection(c@.id) == c@
        },
        created matches Err(e) ==> e == AppError::StorageError && final(store)@ == old(store)@,
        old(store)@.collections.len() == 0 ==> created is Ok,
        old(store)@.counts_consistent() ==> final(store)@.counts_consistent(),
{
    let id = new_id();
    let icon = pick_icon(icons);
    insert_collection(id, name, icon, store)
}

/// Replaces the name, the icon and the counter of the collection `id`.
pub fn update_collection_item(
    id: &str,
    name: &str,
    icon: &str,
    requests_count: i32,
    store: &mut Store,
) -> (updated: Result<CollectionData, AppError>)
    requires
        old(store).wf(),
    ensures
        final(store).wf(),
        updated is Ok <==> old(store)@.has_collection(id@),
        updated matches Ok(c) ==> {
            &&& c@ == (CollectionRecord {
                id: id@,
                name: name@,
                icon: icon@,
                requests_count: requests_count as int,
            })
            &&& final(store)@ == old(store)@.put_collection(
                id@,
                name@,
                icon@,
                requests_count as int,
            )
            &&& final(store)@.has_collection(id@)
            &&& final(store)@.collection(id@) == c@
        },
        updated matches Err(e) ==> e == AppError::NotFound && final(store)@ == old(store)@,
        ({
            &&& old(store)@.counts_consistent()
            &&& old(store)@.has_collection(id@)
            &&& old(store)@.collection(id@).requests_count == requests_count
        }) ==> final(store)@.counts_consistent(),
{
    let key = id.to_owned();
    match store.find_collection(&key) {
        Some(i) => {
            let row = CollectionData {
                id: key,
                name: name.to_owned(),
                icon: icon.to_owned(),
                requests_count,
            };
            let copy = row.clone();
            proof {
                lemma_put_collection(store@, id@, name@, icon@, requests_count as int);
                crate::invariants::lemma_collection_found(store@, i as int);
            }
            store.collections[i] = row;
            assert(final(store)@.collections =~= old(store)@.collections.update(i as int, copy@));
            Ok(copy)
        },
        None => Err(AppError::NotFound),
    }
}

/// Deletes the collection `collection_id` and every request that it owns.
/// Deleting a collection that does not exist succeeds and changes nothing.
pub fn delete_collection(collection_id: &str, store: &mut Store) -> (deleted: Result<(), AppError>)
    requires
        old(store).wf(),
    ensures
        final(store).wf(),
        deleted is Ok,
        final(store)@ == old(store)@.drop_collection(collection_id@),
        !final(store)@.has_collection(collection_id@),
        final(store)@.requests_of(collection_id@).len() == 0,
        !old(store)@.has_collection(collection_id@) ==> final(store)@ == old(store)@,
        old(store)@.counts_consistent() ==> final(store)@.counts_consistent(),
{
    let key = collection_id.to_owned();
    let ghost before = store@;
    let ghost keep_c = other_than(collection_id@);
    let ghost keep_r = not_owned_by(collection_id@);
    let ghost all_c = collection_rows(store.collections@);
    let ghost all_r = request_rows(store.requests@);
    let mut collections: Vec<CollectionData> = Vec::new();
    let mut i: usize = 0;
    proof {
        reveal(Seq::filter);
        assert(all_c.take(0).filter(keep_c) =~= Seq::empty());
        assert(all_r.take(0).filter(keep_r) =~= Seq::empty());
    }
    while i < store.collections.len()
        invariant
            i <= store.collections.len(),
            key@ == collection_id@,
            all_c == collection_rows(store.collections@),
            keep_c == other_than(collection_id@),
            collection_rows(collections@) == all_c.take(i as int).filter(keep_c),
        decreases store.collections.len() - i,
    {
        proof {
            assert(all_c.take(i + 1) =~= all_c.take(i as int).push(all_c[i as int]));
            all_c.take(i as int).lemma_filter_push(all_c[i as int], keep_c);
        }
        if store.collections[i].id != key {
            collections.push(store.collections[i].clone());
            assert(collection_rows(collections@) =~= all_c.take(i as int).filter(keep_c).push(
                all_c[i as int],
            ));
        }
        i += 1;
    }
    let mut requests: Vec<RequestData> = Vec::new();
    let mut k: usize = 0;
    while k < store.requests.len()
        invariant
            k <= store.requests.len(),
            key@ == collection_id@,
            all_r == request_rows(store.requests@),
            keep_r == not_owned_by(collection_id@),
            request_rows(requests@) == all_r.take(k as int).filter(keep_r),
        decreases store.requests.len() - k,
    {
        proof {
            assert(all_r.take(k + 1) =~= all_r.take(k as int).push(all_r[k as int]));
            all_r.take(k as int).lemma_filter_push(all_r[k as int], keep_r);
        }
        if store.requests[k].collection_id != key {
            requests.push(store.requests[k].clone());
            assert(request_rows(requests@) =~= all_r.take(k as int).filter(keep_r).push(
                all_r[k as int],
            ));
        }
        k += 1;
    }
    proof {
        assert(all_c.take(i as int) =~= all_c);
        assert(all_r.take(k as int) =~= all_r);
        lemma_drop_collection(before, collection_id@);
    }
    store.collections = collections;
    store.requests = requests;
    Ok(())
}

} // verus!
