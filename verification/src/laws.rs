//! What holds of the repositories as a whole, stated over the model that
//! their contracts speak of.

use vstd::prelude::*;
use crate::codes::{lemma_method_code_round_trip, lemma_protocol_code_round_trip, HTTPMethods, ProtocolTypes};
use crate::invariants::{
    lemma_add_collection,
    lemma_add_request,
    lemma_drop_collection,
    lemma_drop_request,
    lemma_put_request,
    lemma_request_index,
};
use crate::model::{name_matches, new_collection, new_request, patched, StoreState};
use crate::records::{CollectionRecord, RequestRecord};
use crate::search::{lemma_case_of_term_is_ignored, same_folded};
use crate::seq_facts::lemma_filter_same;
use crate::view_model::{
    collection_item_of,
    collection_items_of,
    request_item_of,
    request_items_of,
};

verus! {

/// A collection that has been created is what a read under its id returns,
/// field by field.
pub proof fn lemma_created_collection_is_read_back(s: StoreState, c: CollectionRecord)
    requires
        s.wf(),
        !s.has_collection(c.id),
    ensures
        s.add_collection(c).has_collection(c.id),
        s.add_collection(c).collection(c.id) == c,
        s.add_collection(c).collections[0] == c,
{
    lemma_add_collection(s, c);
}

/// A request that has been created is what a read under its id returns,
/// field by field, and it is the first in the list of its collection.
pub proof fn lemma_created_request_is_read_back(s: StoreState, r: RequestRecord)
    requires
        s.wf(),
        s.has_collection(r.collection_id),
        !s.has_request(r.id),
        crate::model::codes_valid(r),
    ensures
        s.add_request(r).has_request(r.id),
        s.add_request(r).request(r.id) == r,
        s.add_request(r).requests_of(r.collection_id)[0] == r,
{
    lemma_add_request(s, r);
}

/// One step in the life of a collection's requests.
pub enum RequestOp {
    /// A request is created under the id `id`.
    Create { id: Seq<char>, protocol: ProtocolTypes },
    /// The request `id` is deleted.
    Delete { id: Seq<char> },
}

/// Whether the step succeeds on the state `s`, for requests of the
/// collection `cid`.
pub open spec fn step_succeeds(s: StoreState, cid: Seq<char>, op: RequestOp) -> bool {
    match op {
        RequestOp::Create { id, protocol } => s.has_collection(cid) && !s.has_request(id),
        RequestOp::Delete { id } => s.has_request(id) && s.request(id).collection_id == cid,
    }
}

/// The state after the step.
pub open spec fn step(s: StoreState, cid: Seq<char>, op: RequestOp) -> StoreState {
    match op {
        RequestOp::Create { id, protocol } => s.add_request(new_request(id, protocol, cid)),
        RequestOp::Delete { id } => s.drop_request(id),
    }
}

/// The state after all the steps, in their order.
pub open spec fn run(s: StoreState, cid: Seq<char>, ops: Seq<RequestOp>) -> StoreState
    decreases ops.len(),
{
    if ops.len() == 0 {
        s
    } else {
        step(run(s, cid, ops.drop_last()), cid, ops.last())
    }
}

/// Whether every step succeeds on the state that the steps before it leave.
pub open spec fn run_succeeds(s: StoreState, cid: Seq<char>, ops: Seq<RequestOp>) -> bool
    decreases ops.len(),
{
    ops.len() == 0 || (run_succeeds(s, cid, ops.drop_last()) && step_succeeds(
        run(s, cid, ops.drop_last()),
        cid,
        ops.last(),
    ))
}

/// How many of the steps create a request.
pub open spec fn creates(ops: Seq<RequestOp>) -> int
    decreases ops.len(),
{
    if ops.len() == 0 {
        0
    } else {
        creates(ops.drop_last()) + (if ops.last() is Create {
            1int
        } else {
            0int
        })
    }
}

/// How many of the steps delete a request.
pub open spec fn deletes(ops: Seq<RequestOp>) -> int
    decreases ops.len(),
{
    if ops.len() == 0 {
        0
    } else {
        deletes(ops.drop_last()) + (if ops.last() is Delete {
            1int
        } else {
            0int
        })
    }
}

/// After any sequence of creates and deletes under one collection, each of
/// which succeeded, the counter of that collection has moved by the number
/// of creates less the number of deletes, and so has the number of its
/// requests. Counters that agreed with the rows before agree with them
/// after.
pub proof fn lemma_counter_follows_creates_and_deletes(
    s: StoreState,
    cid: Seq<char>,
    ops: Seq<RequestOp>,
)
    requires
        s.wf(),
        s.has_collection(cid),
        run_succeeds(s, cid, ops),
    ensures
        run(s, cid, ops).wf(),
        run(s, cid, ops).has_collection(cid),
        run(s, cid, ops).collection(cid).requests_count == s.collection(cid).requests_count
            + creates(ops) - deletes(ops),
        run(s, cid, ops).requests_of(cid).len() == s.requests_of(cid).len() + creates(ops)
            - deletes(ops),
        s.counts_consistent() ==> run(s, cid, ops).counts_consistent(),
    decreases ops.len(),
{
    if ops.len() > 0 {
        let before = run(s, cid, ops.drop_last());
        lemma_counter_follows_creates_and_deletes(s, cid, ops.drop_last());
        match ops.last() {
            RequestOp::Create { id, protocol } => {
                let r = new_request(id, protocol, cid);
                lemma_protocol_code_round_trip(protocol);
                lemma_method_code_round_trip(HTTPMethods::Get);
                lemma_add_request(before, r);
                assert(before.add_request(r).has_collection(cid));
            },
            RequestOp::Delete { id } => {
                lemma_request_index(before, id);
                lemma_drop_request(before, id);
                assert(before.drop_request(id).has_collection(cid));
            },
        }
    }
}

/// A collection that was just created counts, after N creates and M deletes
/// of its requests that all succeeded, N - M requests, and owns as many.
pub proof fn lemma_fresh_collection_counts_its_requests(
    s: StoreState,
    id: Seq<char>,
    name: Seq<char>,
    icon: Seq<char>,
    ops: Seq<RequestOp>,
)
    requires
        s.wf(),
        !s.has_collection(id),
        run_succeeds(s.add_collection(new_collection(id, name, icon)), id, ops),
    ensures
        run(s.add_collection(new_collection(id, name, icon)), id, ops).collection(
            id,
        ).requests_count == creates(ops) - deletes(ops),
        run(s.add_collection(new_collection(id, name, icon)), id, ops).requests_of(id).len()
            == creates(ops) - deletes(ops),
{
    let c = new_collection(id, name, icon);
    let start = s.add_collection(c);
    lemma_add_collection(s, c);
    crate::invariants::lemma_no_collection_no_requests(s, id);
    assert(start.requests_of(id) == s.requests_of(id));
    lemma_counter_follows_creates_and_deletes(start, id, ops);
}

/// Once a collection is deleted it is gone, and no request is left under
/// its id, however many it owned. The other collections keep theirs.
pub proof fn lemma_delete_cascades(s: StoreState, id: Seq<char>)
    requires
        s.wf(),
    ensures
        !s.drop_collection(id).has_collection(id),
        s.drop_collection(id).requests_of(id) == Seq::<RequestRecord>::empty(),
        forall|k: int|
            0 <= k < s.drop_collection(id).requests.len() ==> (#[trigger] s.drop_collection(
                id,
            ).requests[k]).collection_id != id,
        forall|other: Seq<char>|
            other != id ==> #[trigger] s.drop_collection(id).requests_of(other) == s.requests_of(
                other,
            ),
{
    lemma_drop_collection(s, id);
    let t = s.drop_collection(id);
    assert(t.requests_of(id) =~= Seq::<RequestRecord>::empty());
    assert forall|k: int| 0 <= k < t.requests.len() implies (#[trigger] t.requests[k]).collection_id
        != id by {
        crate::seq_facts::lemma_filter_member(s.requests, crate::model::not_owned_by(id), k);
    }
}

/// Deleting a collection a second time changes nothing.
pub proof fn lemma_delete_collection_twice(s: StoreState, id: Seq<char>)
    requires
        s.wf(),
    ensures
        s.drop_collection(id).drop_collection(id) == s.drop_collection(id),
{
    lemma_drop_collection(s, id);
    lemma_drop_collection(s.drop_collection(id), id);
}

/// Two search terms that differ only in the case of the letters `A` to `Z`
/// find the same collections, in the same order and with the same fields.
pub proof fn lemma_search_ignores_case(s: StoreState, a: Seq<char>, b: Seq<char>)
    requires
        same_folded(a, b),
    ensures
        s.search(a) == s.search(b),
{
    assert forall|i: int| 0 <= i < s.collections.len() implies name_matches(a)(
        #[trigger] s.collections[i],
    ) == name_matches(b)(s.collections[i]) by {
        lemma_case_of_term_is_ignored(s.collections[i].name, a, b);
    }
    lemma_filter_same(s.collections, name_matches(a), name_matches(b));
}

/// An update that gives only a name leaves the URL, the protocol and the
/// method of the request as they were, and touches no other request.
pub proof fn lemma_rename_keeps_other_fields(s: StoreState, id: Seq<char>, name: Seq<char>)
    requires
        s.wf(),
        s.has_request(id),
    ensures
        ({
            let r = patched(s.request(id), Some(name), None, None, None);
            let t = s.put_request(id, r);
            &&& t.request(id).name == name
            &&& t.request(id).url == s.request(id).url
            &&& t.request(id).protocol == s.request(id).protocol
            &&& t.request(id).http_method == s.request(id).http_method
            &&& t.request(id).collection_id == s.request(id).collection_id
            &&& t.collections == s.collections
            &&& forall|other: Seq<char>|
                other != id && s.has_request(other) ==> #[trigger] t.request(other) == s.request(
                    other,
                )
        }),
{
    let r = patched(s.request(id), Some(name), None, None, None);
    lemma_request_index(s, id);
    assert(crate::model::codes_valid(s.requests[s.request_index(id)]));
    lemma_put_request(s, id, r);
}

/// An update that gives no field at all leaves the request as it was.
pub proof fn lemma_empty_update_changes_nothing(s: StoreState, id: Seq<char>)
    requires
        s.wf(),
        s.has_request(id),
    ensures
        s.put_request(id, patched(s.request(id), None, None, None, None)) == s,
{
    lemma_request_index(s, id);
    let r = patched(s.request(id), None, None, None, None);
    assert(r == s.request(id));
    assert(s.requests.update(s.request_index(id), r) =~= s.requests);
}

/// A list of collections that showed the store before a collection was
/// created shows it after, once the item of the new collection is put
/// first.
pub proof fn lemma_list_follows_created_collection(s: StoreState, c: CollectionRecord)
    ensures
        collection_items_of(s.add_collection(c).collections) == collection_items_of(
            s.collections,
        ).insert(0, collection_item_of(c)),
{
    assert(collection_items_of(s.add_collection(c).collections) =~= collection_items_of(
        s.collections,
    ).insert(0, collection_item_of(c)));
}

/// A list of requests that showed a collection before a request was created
/// under it shows it after, once the item of the new request is put first.
pub proof fn lemma_list_follows_created_request(s: StoreState, r: RequestRecord)
    requires
        s.wf(),
        s.has_collection(r.collection_id),
        !s.has_request(r.id),
        crate::model::codes_valid(r),
    ensures
        request_items_of(s.add_request(r).requests_of(r.collection_id)) == request_items_of(
            s.requests_of(r.collection_id),
        ).insert(0, request_item_of(r)),
{
    lemma_add_request(s, r);
    assert(request_items_of(seq![r] + s.requests_of(r.collection_id)) =~= request_items_of(
        s.requests_of(r.collection_id),
    ).insert(0, request_item_of(r)));
}

} // verus!
