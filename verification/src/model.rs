//! The mathematical model of the persisted state: two tables of rows, each
//! kept newest first, and the transitions that the repositories perform on
//! them.

use vstd::prelude::*;
use crate::codes::{is_method_code, is_protocol_code, ProtocolTypes};
use crate::records::{CollectionRecord, RequestRecord};
use crate::search::contains_folded;

verus! {

/// The requests that belong to the collection `cid`.
pub open spec fn owned_by(cid: Seq<char>) -> spec_fn(RequestRecord) -> bool {
    |r: RequestRecord| r.collection_id == cid
}

/// The requests that belong to any collection but `cid`.
pub open spec fn not_owned_by(cid: Seq<char>) -> spec_fn(RequestRecord) -> bool {
    |r: RequestRecord| r.collection_id != cid
}

/// The collections whose id is not `id`.
pub open spec fn other_than(id: Seq<char>) -> spec_fn(CollectionRecord) -> bool {
    |c: CollectionRecord| c.id != id
}

/// The collections whose name holds `term`, with the case of the letters
/// `A` to `Z` put aside.
pub open spec fn name_matches(term: Seq<char>) -> spec_fn(CollectionRecord) -> bool {
    |c: CollectionRecord| contains_folded(c.name, term)
}

/// Whether the enumerated fields of a request hold declared codes. The
/// method may be absent; a method that is present is a declared code.
pub open spec fn codes_valid(r: RequestRecord) -> bool {
    &&& is_protocol_code(r.protocol)
    &&& r.http_method matches Some(m) ==> is_method_code(m)
}

/// The row of a collection that has just been created.
pub open spec fn new_collection(id: Seq<char>, name: Seq<char>, icon: Seq<char>) -> CollectionRecord {
    CollectionRecord { id, name, icon, requests_count: 0 }
}

/// The row of a request that has just been created under `cid`.
pub open spec fn new_request(id: Seq<char>, protocol: ProtocolTypes, cid: Seq<char>) -> RequestRecord {
    RequestRecord {
        id,
        name: "New Request"@,
        url: Some(""@),
        protocol: protocol.code(),
        collection_id: cid,
        http_method: Some("GET"@),
    }
}

/// A request row after a partial update: a field that is given replaces the
/// old one, a field that is not given stays.
pub open spec fn patched(
    r: RequestRecord,
    name: Option<Seq<char>>,
    protocol: Option<Seq<char>>,
    http_method: Option<Seq<char>>,
    url: Option<Seq<char>>,
) -> RequestRecord {
    RequestRecord {
        id: r.id,
        name: if name is Some { name->0 } else { r.name },
        url: if url is Some { url } else { r.url },
        protocol: if protocol is Some { protocol->0 } else { r.protocol },
        collection_id: r.collection_id,
        http_method: if http_method is Some { http_method } else { r.http_method },
    }
}

/// A collection row with its counter moved by `delta`.
pub open spec fn counted(c: CollectionRecord, delta: int) -> CollectionRecord {
    CollectionRecord { requests_count: c.requests_count + delta, ..c }
}

/// Both tables. The first row of each is the newest.
pub struct StoreState {
    pub collections: Seq<CollectionRecord>,
    pub requests: Seq<RequestRecord>,
}

impl StoreState {
    /// The state with no rows.
    pub open spec fn empty() -> StoreState {
        StoreState { collections: Seq::empty(), requests: Seq::empty() }
    }

    pub open spec fn has_collection(self, id: Seq<char>) -> bool {
        exists|i: int| 0 <= i < self.collections.len() && (#[trigger] self.collections[i]).id == id
    }

    /// The place of the collection `id`. It means something only where the
    /// collection exists.
    pub open spec fn collection_index(self, id: Seq<char>) -> int {
        choose|i: int| 0 <= i < self.collections.len() && (#[trigger] self.collections[i]).id == id
    }

    pub open spec fn collection(self, id: Seq<char>) -> CollectionRecord {
        self.collections[self.collection_index(id)]
    }

    pub open spec fn has_request(self, id: Seq<char>) -> bool {
        exists|k: int| 0 <= k < self.requests.len() && (#[trigger] self.requests[k]).id == id
    }

    /// The place of the request `id`. It means something only where the
    /// request exists.
    pub open spec fn request_index(self, id: Seq<char>) -> int {
        choose|k: int| 0 <= k < self.requests.len() && (#[trigger] self.requests[k]).id == id
    }

    pub open spec fn request(self, id: Seq<char>) -> RequestRecord {
        self.requests[self.request_index(id)]
    }

    /// The requests of one collection, newest first.
    pub open spec fn requests_of(self, cid: Seq<char>) -> Seq<RequestRecord> {
        self.requests.filter(owned_by(cid))
    }

    /// The collections whose name holds `term`, newest first.
    pub open spec fn search(self, term: Seq<char>) -> Seq<CollectionRecord> {
        self.collections.filter(name_matches(term))
    }

    /// No id occurs twice in its table, every request belongs to a
    /// collection that exists, and every enumerated field holds a declared
    /// code.
    pub open spec fn wf(self) -> bool {
        &&& forall|i: int, j: int|
            0 <= i < j < self.collections.len() ==> (#[trigger] self.collections[i]).id != (
            #[trigger] self.collections[j]).id
        &&& forall|i: int, j: int|
            0 <= i < j < self.requests.len() ==> (#[trigger] self.requests[i]).id != (
            #[trigger] self.requests[j]).id
        &&& forall|k: int|
            0 <= k < self.requests.len() ==> self.has_collection(
                (#[trigger] self.requests[k]).collection_id,
            )
        &&& forall|k: int| 0 <= k < self.requests.len() ==> codes_valid(#[trigger] self.requests[k])
    }

    /// The counter of every collection equals the number of its requests.
    pub open spec fn counts_consistent(self) -> bool {
        forall|i: int|
            0 <= i < self.collections.len() ==> (#[trigger] self.collections[i]).requests_count
                == self.requests_of(self.collections[i].id).len()
    }

    /// The collections with the counter of `cid` moved by `delta`.
    pub open spec fn adjusted(self, cid: Seq<char>, delta: int) -> Seq<CollectionRecord> {
        self.collections.update(
            self.collection_index(cid),
            counted(self.collection(cid), delta),
        )
    }

    /// A new collection is put in front of the others.
    pub open spec fn add_collection(self, c: CollectionRecord) -> StoreState {
        StoreState { collections: seq![c] + self.collections, requests: self.requests }
    }

    /// The three fields of the collection `id` that can change are replaced.
    pub open spec fn put_collection(
        self,
        id: Seq<char>,
        name: Seq<char>,
        icon: Seq<char>,
        requests_count: int,
    ) -> StoreState {
        StoreState {
            collections: self.collections.update(
                self.collection_index(id),
                CollectionRecord { id, name, icon, requests_count },
            ),
            requests: self.requests,
        }
    }

    /// The collection `id` leaves, and with it every request that it owns.
    pub open spec fn drop_collection(self, id: Seq<char>) -> StoreState {
        StoreState {
            collections: self.collections.filter(other_than(id)),
            requests: self.requests.filter(not_owned_by(id)),
        }
    }

    /// A new request is put in front of the others, and the counter of its
    /// collection goes up by one.
    pub open spec fn add_request(self, r: RequestRecord) -> StoreState {
        StoreState {
            collections: self.adjusted(r.collection_id, 1),
            requests: seq![r] + self.requests,
        }
    }

    /// The request `id` leaves, and the counter of its collection goes down
    /// by one.
    pub open spec fn drop_request(self, id: Seq<char>) -> StoreState {
        StoreState {
            collections: self.adjusted(self.request(id).collection_id, -1),
            requests: self.requests.remove(self.request_index(id)),
        }
    }

    /// The request `id` is replaced by `r`.
    pub open spec fn put_request(self, id: Seq<char>, r: RequestRecord) -> StoreState {
        StoreState {
            collections: self.collections,
            requests: self.requests.update(self.request_index(id), r),
        }
    }
}

} // verus!
