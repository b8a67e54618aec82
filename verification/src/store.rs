//! The store: the two tables in memory, and the repositories that work on
//! them.

pub mod collections;
pub mod requests;

use vstd::prelude::*;
use crate::codes::{HTTPMethods, ProtocolTypes};
use crate::error::AppError;
use crate::model::{codes_valid, StoreState};
use crate::records::{CollectionData, CollectionRecord, RequestData, RequestRecord};

verus! {

/// The rows of the collection table as contracts see them.
pub open spec fn collection_rows(rows: Seq<CollectionData>) -> Seq<CollectionRecord> {
    rows.map_values(|c: CollectionData| c@)
}

/// The rows of the request table as contracts see them.
pub open spec fn request_rows(rows: Seq<RequestData>) -> Seq<RequestRecord> {
    rows.map_values(|r: RequestData| r@)
}

/// The state that two lists of rows stand for.
pub open spec fn state_of(collections: Seq<CollectionData>, requests: Seq<RequestData>) -> StoreState {
    StoreState { collections: collection_rows(collections), requests: request_rows(requests) }
}

/// Whether every request of the rows holds declared codes.
pub open spec fn rows_hold_codes(requests: Seq<RequestData>) -> bool {
    forall|k: int| 0 <= k < requests.len() ==> codes_valid((#[trigger] requests[k])@)
}

/// Tests whether no two collections of the rows share an id.
fn collection_ids_differ(rows: &Vec<CollectionData>) -> (distinct: bool)
    ensures
        distinct == forall|i: int, j: int|
            0 <= i < j < rows.len() ==> (#[trigger] rows[i]).id@ != (#[trigger] rows[j]).id@,
{
    let mut j: usize = 0;
    while j < rows.len()
        invariant
            j <= rows.len(),
            forall|a: int, b: int|
                0 <= a < b < j ==> (#[trigger] rows[a]).id@ != (#[trigger] rows[b]).id@,
        decreases rows.len() - j,
    {
        let mut i: usize = 0;
        while i < j
            invariant
                i <= j < rows.len(),
                forall|a: int| 0 <= a < i ==> (#[trigger] rows[a]).id@ != rows[j as int].id@,
            decreases j - i,
        {
            if rows[i].id == rows[j].id {
                return false;
            }
            i += 1;
        }
        j += 1;
    }
    true
}

/// Tests whether no two requests of the rows share an id.
fn request_ids_differ(rows: &Vec<RequestData>) -> (distinct: bool)
    ensures
        distinct == forall|i: int, j: int|
            0 <= i < j < rows.len() ==> (#[trigger] rows[i]).id@ != (#[trigger] rows[j]).id@,
{
    let mut j: usize = 0;
    while j < rows.len()
        invariant
            j <= rows.len(),
            forall|a: int, b: int|
                0 <= a < b < j ==> (#[trigger] rows[a]).id@ != (#[trigger] rows[b]).id@,
        decreases rows.len() - j,
    {
        let mut i: usize = 0;
        while i < j
            invariant
                i <= j < rows.len(),
                forall|a: int| 0 <= a < i ==> (#[trigger] rows[a]).id@ != rows[j as int].id@,
            decreases j - i,
        {
            if rows[i].id == rows[j].id {
                return false;
            }
            i += 1;
        }
        j += 1;
    }
    true
}

/// Whether the collection `id` stands in the rows.
pub open spec fn owner_in(collections: Seq<CollectionData>, id: Seq<char>) -> bool {
    exists|i: int| 0 <= i < collections.len() && (#[trigger] collections[i]).id@ == id
}

/// Tests whether the collection `id` stands in the rows.
fn owner_listed(collections: &Vec<CollectionData>, id: &String) -> (listed: bool)
    ensures
        listed == owner_in(collections@, id@),
{
    let mut i: usize = 0;
    while i < collections.len()
        invariant
            i <= collections.len(),
            forall|a: int| 0 <= a < i ==> (#[trigger] collections[a]).id@ != id@,
        decreases collections.len() - i,
    {
        if collections[i].id == *id {
            return true;
        }
        i += 1;
    }
    false
}

/// Tests whether every request of the rows belongs to a collection of the
/// rows.
fn requests_are_owned(collections: &Vec<CollectionData>, requests: &Vec<RequestData>) -> (owned:
    bool)
    ensures
        owned == forall|k: int|
            0 <= k < requests.len() ==> owner_in(
                collections@,
                (#[trigger] requests[k]).collection_id@,
            ),
{
    let mut k: usize = 0;
    while k < requests.len()
        invariant
            k <= requests.len(),
            forall|a: int|
                0 <= a < k ==> owner_in(collections@, (#[trigger] requests[a]).collection_id@),
        decreases requests.len() - k,
    {
        if !owner_listed(collections, &requests[k].collection_id) {
            return false;
        }
        k += 1;
    }
    true
}

/// Tests whether every request of the rows holds declared codes.
fn codes_are_declared(requests: &Vec<RequestData>) -> (declared: bool)
    ensures
        declared == rows_hold_codes(requests@),
{
    let mut k: usize = 0;
    while k < requests.len()
        invariant
            k <= requests.len(),
            forall|a: int| 0 <= a < k ==> codes_valid((#[trigger] requests[a])@),
        decreases requests.len() - k,
    {
        if ProtocolTypes::from_string(requests[k].protocol.as_str()).is_none() {
            return false;
        }
        match &requests[k].http_method {
            Some(code) => {
                if HTTPMethods::from_string(code.as_str()).is_none() {
                    return false;
                }
            },
            None => {},
        }
        k += 1;
    }
    true
}

/// All collections and all requests, each table newest first.
pub struct Store {
    collections: Vec<CollectionData>,
    requests: Vec<RequestData>,
}

impl View for Store {
    type V = StoreState;

    closed spec fn view(&self) -> StoreState {
        StoreState {
            collections: collection_rows(self.collections@),
            requests: request_rows(self.requests@),
        }
    }
}

impl Store {
    /// Whether the tables are in order: see [`StoreState::wf`].
    pub open spec fn wf(&self) -> bool {
        self@.wf()
    }

    /// A store without rows.
    pub fn new() -> (store: Store)
        ensures
            store@ == StoreState::empty(),
            store.wf(),
    {
        let store = Store { collections: Vec::new(), requests: Vec::new() };
        assert(store@.collections =~= Seq::empty());
        assert(store@.requests =~= Seq::empty());
        store
    }

    /// Makes a store from rows as they were read from where they are kept,
    /// each list newest first. Nothing is mended and nothing is left out:
    /// rows with an undeclared code are refused with `ValidationError`, and
    /// rows in which an id occurs twice or a request has no collection with
    /// `StorageError`.
    pub fn from_rows(collections: Vec<CollectionData>, requests: Vec<RequestData>) -> (made: Result<
        Store,
        AppError,
    >)
        ensures
            made is Ok <==> state_of(collections@, requests@).wf(),
            made matches Ok(store) ==> store@ == state_of(collections@, requests@) && store.wf(),
            made matches Err(e) ==> e == (if rows_hold_codes(requests@) {
                AppError::StorageError
            } else {
                AppError::ValidationError
            }),
    {
        let ghost state = state_of(collections@, requests@);
        proof {
            assert forall|k: int| 0 <= k < requests.len() implies (#[trigger] state.requests[k])
                == requests[k]@ by {}
            assert forall|i: int| 0 <= i < collections.len() implies (
            #[trigger] state.collections[i]) == collections[i]@ by {}
        }
        if !codes_are_declared(&requests) {
            proof {
                let k = choose|k: int| 0 <= k < requests.len() && !codes_valid(
                    (#[trigger] requests[k])@,
                );
                assert(!codes_valid(state.requests[k]));
            }
            return Err(AppError::ValidationError);
        }
        if !collection_ids_differ(&collections) {
            proof {
                let (i, j) = choose|i: int, j: int|
                    0 <= i < j < collections.len() && (#[trigger] collections[i]).id@ == (
                    #[trigger] collections[j]).id@;
                assert(state.collections[i].id == state.collections[j].id);
            }
            return Err(AppError::StorageError);
        }
        if !request_ids_differ(&requests) {
            proof {
                let (i, j) = choose|i: int, j: int|
                    0 <= i < j < requests.len() && (#[trigger] requests[i]).id@ == (
                    #[trigger] requests[j]).id@;
                assert(state.requests[i].id == state.requests[j].id);
            }
            return Err(AppError::StorageError);
        }
        if !requests_are_owned(&collections, &requests) {
            proof {
                let k = choose|k: int|
                    0 <= k < requests.len() && !owner_in(
                        collections@,
                        (#[trigger] requests[k]).collection_id@,
                    );
                if state.has_collection(state.requests[k].collection_id) {
                    let i = state.collection_index(state.requests[k].collection_id);
                    assert(collections[i].id@ == requests[k].collection_id@);
                }
            }
            return Err(AppError::StorageError);
        }
        proof {
            assert forall|k: int| 0 <= k < state.requests.len() implies state.has_collection(
                (#[trigger] state.requests[k]).collection_id,
            ) by {
                assert(owner_in(collections@, requests[k].collection_id@));
                let i = choose|i: int|
                    0 <= i < collections.len() && (#[trigger] collections[i]).id@
                        == requests[k].collection_id@;
                assert(state.collections[i].id == state.requests[k].collection_id);
            }
            assert forall|i: int, j: int| 0 <= i < j < state.collections.len() implies (
            #[trigger] state.collections[i]).id != (#[trigger] state.collections[j]).id by {
                assert(collections[i].id@ != collections[j].id@);
            }
            assert forall|i: int, j: int| 0 <= i < j < state.requests.len() implies (
            #[trigger] state.requests[i]).id != (#[trigger] state.requests[j]).id by {
                assert(requests[i].id@ != requests[j].id@);
            }
            assert forall|k: int| 0 <= k < state.requests.len() implies codes_valid(
                #[trigger] state.requests[k],
            ) by {
                assert(codes_valid(requests[k]@));
            }
        }
        Ok(Store { collections, requests })
    }

    /// Every request of the store, newest first, as it is to be written to
    /// where the rows are kept.
    pub fn all_requests(&self) -> (rows: Vec<RequestData>)
        ensures
            request_rows(rows@) == self@.requests,
    {
        let mut rows: Vec<RequestData> = Vec::new();
        let mut k: usize = 0;
        while k < self.requests.len()
            invariant
                k <= self.requests.len(),
                request_rows(rows@) == request_rows(self.requests@).take(k as int),
            decreases self.requests.len() - k,
        {
            let ghost listed = rows@;
            let row = self.requests[k].clone();
            rows.push(row);
            assert(request_rows(rows@) =~= request_rows(listed).push(row@));
            k += 1;
            assert(request_rows(rows@) =~= request_rows(self.requests@).take(k as int));
        }
        assert(request_rows(self.requests@).take(k as int) =~= self@.requests);
        rows
    }

    /// Looks for the collection `id` and gives its place in the table.
    fn find_collection(&self, id: &String) -> (found: Option<usize>)
        ensures
            found is Some <==> self@.has_collection(id@),
            found matches Some(i) ==> i < self.collections.len() && self.collections[i as int].id@
                == id@,
    {
        let mut i: usize = 0;
        while i < self.collections.len()
            invariant
                i <= self.collections.len(),
                forall|k: int| 0 <= k < i ==> self.collections[k].id@ != id@,
            decreases self.collections.len() - i,
        {
            if self.collections[i].id == *id {
                assert(self@.collections[i as int].id == id@);
                return Some(i);
            }
            i += 1;
        }
        assert forall|k: int| 0 <= k < self@.collections.len() implies (
        #[trigger] self@.collections[k]).id != id@ by {
            assert(self@.collections[k] == self.collections[k]@);
        }
        None
    }

    /// Looks for the request `id` and gives its place in the table.
    fn find_request(&self, id: &String) -> (found: Option<usize>)
        ensures
            found is Some <==> self@.has_request(id@),
            found matches Some(k) ==> k < self.requests.len() && self.requests[k as int].id@ == id@,
    {
        let mut k: usize = 0;
        while k < self.requests.len()
            invariant
                k <= self.requests.len(),
                forall|j: int| 0 <= j < k ==> self.requests[j].id@ != id@,
            decreases self.requests.len() - k,
        {
            if self.requests[k].id == *id {
                assert(self@.requests[k as int].id == id@);
                return Some(k);
            }
            k += 1;
        }
        assert forall|j: int| 0 <= j < self@.requests.len() implies (#[trigger] self@.requests[j]).id
            != id@ by {
            assert(self@.requests[j] == self.requests[j]@);
        }
        None
    }
}

} // verus!
