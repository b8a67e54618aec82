//! What each transition of the model keeps and what it changes: the proofs
//! behind the contracts of the repositories.

use vstd::prelude::*;
use crate::model::{codes_valid, counted, not_owned_by, other_than, owned_by, StoreState};
use crate::records::{CollectionRecord, RequestRecord};
use crate::seq_facts::{
    lemma_filter_all,
    lemma_filter_distinct,
    lemma_filter_front,
    lemma_filter_keeps,
    lemma_filter_member,
    lemma_filter_none,
    lemma_filter_remove,
    lemma_filter_twice,
    lemma_filter_update,
};

verus! {

/// In a well-formed state the collection at a place is the one that its id
/// names.
pub proof fn lemma_collection_found(s: StoreState, i: int)
    requires
        s.wf(),
        0 <= i < s.collections.len(),
    ensures
        s.has_collection(s.collections[i].id),
        s.collection_index(s.collections[i].id) == i,
        s.collection(s.collections[i].id) == s.collections[i],
{
    let id = s.collections[i].id;
    assert(s.collections[i].id == id);
    let j = s.collection_index(id);
    assert(0 <= j < s.collections.len() && s.collections[j].id == id);
}

/// In a well-formed state the request at a place is the one that its id
/// names.
pub proof fn lemma_request_found(s: StoreState, k: int)
    requires
        s.wf(),
        0 <= k < s.requests.len(),
    ensures
        s.has_request(s.requests[k].id),
        s.request_index(s.requests[k].id) == k,
        s.request(s.requests[k].id) == s.requests[k],
{
    let id = s.requests[k].id;
    assert(s.requests[k].id == id);
    let j = s.request_index(id);
    assert(0 <= j < s.requests.len() && s.requests[j].id == id);
}

/// The place of a collection that exists lies in the table, and the row
/// there carries the id.
pub proof fn lemma_collection_index(s: StoreState, id: Seq<char>)
    requires
        s.has_collection(id),
    ensures
        0 <= s.collection_index(id) < s.collections.len(),
        s.collection(id).id == id,
{
}

/// The place of a request that exists lies in the table, and the row there
/// carries the id.
pub proof fn lemma_request_index(s: StoreState, id: Seq<char>)
    requires
        s.has_request(id),
    ensures
        0 <= s.request_index(id) < s.requests.len(),
        s.request(id).id == id,
{
}

/// A collection that does not exist owns no request.
pub proof fn lemma_no_collection_no_requests(s: StoreState, id: Seq<char>)
    requires
        s.wf(),
        !s.has_collection(id),
    ensures
        s.requests_of(id).len() == 0,
{
    let kept = s.requests_of(id);
    if kept.len() > 0 {
        lemma_filter_member(s.requests, owned_by(id), 0);
        let k = choose|k: int| 0 <= k < s.requests.len() && #[trigger] s.requests[k] == kept[0];
        assert(s.has_collection(s.requests[k].collection_id));
    }
}

/// Creating a collection under an unused id.
pub proof fn lemma_add_collection(s: StoreState, c: CollectionRecord)
    requires
        s.wf(),
        !s.has_collection(c.id),
    ensures
        s.add_collection(c).wf(),
        s.add_collection(c).has_collection(c.id),
        s.add_collection(c).collection(c.id) == c,
        forall|id: Seq<char>| #[trigger]
            s.add_collection(c).has_collection(id) <==> (id == c.id || s.has_collection(id)),
        forall|id: Seq<char>|
            s.has_collection(id) ==> #[trigger] s.add_collection(c).collection(id) == s.collection(
                id,
            ),
        forall|cid: Seq<char>| #[trigger] s.add_collection(c).requests_of(cid) == s.requests_of(cid),
        s.counts_consistent() && c.requests_count == 0 ==> s.add_collection(c).counts_consistent(),
{
    let t = s.add_collection(c);
    assert(t.collections[0] == c);
    assert forall|i: int| 0 <= i < s.collections.len() implies #[trigger] t.collections[i + 1]
        == s.collections[i] by {}
    assert forall|i: int| 1 <= i < t.collections.len() implies #[trigger] t.collections[i]
        == s.collections[i - 1] by {}
    assert forall|id: Seq<char>| #[trigger]
        t.has_collection(id) <==> (id == c.id || s.has_collection(id)) by {
        if s.has_collection(id) {
            let i = s.collection_index(id);
            assert(t.collections[i + 1].id == id);
        }
        if t.has_collection(id) && id != c.id {
            let i = t.collection_index(id);
            assert(s.collections[i - 1].id == id);
        }
    }
    assert(t.wf()) by {
        assert forall|i: int, j: int| 0 <= i < j < t.collections.len() implies (
        #[trigger] t.collections[i]).id != (#[trigger] t.collections[j]).id by {
            if i == 0 {
                assert(s.collections[j - 1].id == t.collections[j].id);
            } else {
                assert(s.collections[i - 1].id == t.collections[i].id);
                assert(s.collections[j - 1].id == t.collections[j].id);
            }
        }
    }
    lemma_collection_found(t, 0);
    assert forall|id: Seq<char>| s.has_collection(id) implies #[trigger] t.collection(id)
        == s.collection(id) by {
        let i = s.collection_index(id);
        lemma_collection_found(t, i + 1);
    }
    if s.counts_consistent() && c.requests_count == 0 {
        lemma_no_collection_no_requests(s, c.id);
        assert forall|i: int| 0 <= i < t.collections.len() implies (
        #[trigger] t.collections[i]).requests_count == t.requests_of(t.collections[i].id).len() by {
            if i > 0 {
                assert(t.collections[i] == s.collections[i - 1]);
            }
        }
    }
}

/// Replacing the fields of a collection that exists.
pub proof fn lemma_put_collection(
    s: StoreState,
    id: Seq<char>,
    name: Seq<char>,
    icon: Seq<char>,
    requests_count: int,
)
    requires
        s.wf(),
        s.has_collection(id),
    ensures
        s.put_collection(id, name, icon, requests_count).wf(),
        s.put_collection(id, name, icon, requests_count).has_collection(id),
        s.put_collection(id, name, icon, requests_count).collection(id) == (CollectionRecord {
            id,
            name,
            icon,
            requests_count,
        }),
        forall|other: Seq<char>| #[trigger]
            s.put_collection(id, name, icon, requests_count).has_collection(other)
                <==> s.has_collection(other),
        forall|other: Seq<char>|
            s.has_collection(other) && other != id ==> #[trigger] s.put_collection(
                id,
                name,
                icon,
                requests_count,
            ).collection(other) == s.collection(other),
        s.counts_consistent() && requests_count == s.collection(id).requests_count
            ==> s.put_collection(id, name, icon, requests_count).counts_consistent(),
{
    let t = s.put_collection(id, name, icon, requests_count);
    let at = s.collection_index(id);
    lemma_same_ids(s, t);
    lemma_collection_found(t, at);
    assert forall|other: Seq<char>| s.has_collection(other) && other != id implies #[trigger]
        t.collection(other) == s.collection(other) by {
        let i = s.collection_index(other);
        lemma_collection_found(t, i);
    }
    if s.counts_consistent() && requests_count == s.collection(id).requests_count {
        assert forall|i: int| 0 <= i < t.collections.len() implies (
        #[trigger] t.collections[i]).requests_count == t.requests_of(t.collections[i].id).len() by {
            assert(s.collections[i].requests_count == s.requests_of(s.collections[i].id).len());
        }
    }
}

/// A state whose collections carry, place by place, the ids of another
/// well-formed state, and whose requests are the same, is well-formed and
/// knows the same collections.
pub proof fn lemma_same_ids(s: StoreState, t: StoreState)
    requires
        s.wf(),
        t.requests == s.requests,
        t.collections.len() == s.collections.len(),
        forall|i: int|
            0 <= i < s.collections.len() ==> (#[trigger] t.collections[i]).id == s.collections[i].id,
    ensures
        t.wf(),
        forall|id: Seq<char>| #[trigger] t.has_collection(id) <==> s.has_collection(id),
        forall|id: Seq<char>|
            s.has_collection(id) ==> #[trigger] t.collection_index(id) == s.collection_index(id),
{
    assert forall|id: Seq<char>| #[trigger] t.has_collection(id) <==> s.has_collection(id) by {
        if s.has_collection(id) {
            let i = s.collection_index(id);
            assert(t.collections[i].id == id);
        }
        if t.has_collection(id) {
            let i = t.collection_index(id);
            assert(s.collections[i].id == id);
        }
    }
    assert forall|i: int, j: int| 0 <= i < j < t.collections.len() implies (
    #[trigger] t.collections[i]).id != (#[trigger] t.collections[j]).id by {
        assert(s.collections[i].id != s.collections[j].id);
    }
    assert forall|k: int| 0 <= k < t.requests.len() implies t.has_collection(
        (#[trigger] t.requests[k]).collection_id,
    ) by {
        assert(s.has_collection(s.requests[k].collection_id));
    }
    assert(t.wf());
    assert forall|id: Seq<char>| s.has_collection(id) implies #[trigger] t.collection_index(id)
        == s.collection_index(id) by {
        let i = s.collection_index(id);
        assert(t.collections[i].id == id);
        lemma_collection_found(t, i);
    }
}

/// Deleting a collection, whether it exists or not.
pub proof fn lemma_drop_collection(s: StoreState, id: Seq<char>)
    requires
        s.wf(),
    ensures
        s.drop_collection(id).wf(),
        !s.drop_collection(id).has_collection(id),
        s.drop_collection(id).requests_of(id).len() == 0,
        forall|other: Seq<char>| #[trigger]
            s.drop_collection(id).has_collection(other) <==> (other != id && s.has_collection(
                other,
            )),
        forall|other: Seq<char>|
            other != id && s.has_collection(other) ==> #[trigger] s.drop_collection(id).collection(
                other,
            ) == s.collection(other),
        forall|cid: Seq<char>|
            cid != id ==> #[trigger] s.drop_collection(id).requests_of(cid) == s.requests_of(cid),
        forall|rid: Seq<char>| #[trigger]
            s.drop_collection(id).has_request(rid) <==> (s.has_request(rid) && s.request(
                rid,
            ).collection_id != id),
        forall|rid: Seq<char>|
            s.has_request(rid) && s.request(rid).collection_id != id
                ==> #[trigger] s.drop_collection(id).request(rid) == s.request(rid),
        s.counts_consistent() ==> s.drop_collection(id).counts_consistent(),
        !s.has_collection(id) ==> s.drop_collection(id) == s,
{
    let t = s.drop_collection(id);
    let keep_c = other_than(id);
    let keep_r = not_owned_by(id);
    lemma_filter_distinct(s.collections, keep_c, |c: CollectionRecord| c.id);
    lemma_filter_distinct(s.requests, keep_r, |r: RequestRecord| r.id);
    assert forall|i: int| 0 <= i < t.collections.len() implies keep_c(#[trigger] t.collections[i])
        && exists|m: int| 0 <= m < s.collections.len() && #[trigger] s.collections[m]
            == t.collections[i] by {
        lemma_filter_member(s.collections, keep_c, i);
    }
    assert forall|k: int| 0 <= k < t.requests.len() implies keep_r(#[trigger] t.requests[k])
        && exists|m: int| 0 <= m < s.requests.len() && #[trigger] s.requests[m] == t.requests[k] by {
        lemma_filter_member(s.requests, keep_r, k);
    }
    assert forall|other: Seq<char>| #[trigger]
        t.has_collection(other) <==> (other != id && s.has_collection(other)) by {
        if other != id && s.has_collection(other) {
            let i = s.collection_index(other);
            lemma_filter_keeps(s.collections, keep_c, i);
            let j = choose|j: int| 0 <= j < t.collections.len() && #[trigger] t.collections[j]
                == s.collections[i];
            assert(t.collections[j].id == other);
        }
        if t.has_collection(other) {
            let j = t.collection_index(other);
            assert(keep_c(t.collections[j]));
            let m = choose|m: int| 0 <= m < s.collections.len() && #[trigger] s.collections[m]
                == t.collections[j];
            assert(s.collections[m].id == other);
        }
    }
    assert forall|rid: Seq<char>| #[trigger]
        t.has_request(rid) <==> (s.has_request(rid) && s.request(rid).collection_id != id) by {
        if s.has_request(rid) && s.request(rid).collection_id != id {
            let k = s.request_index(rid);
            lemma_filter_keeps(s.requests, keep_r, k);
            let j = choose|j: int| 0 <= j < t.requests.len() && #[trigger] t.requests[j]
                == s.requests[k];
            assert(t.requests[j].id == rid);
        }
        if t.has_request(rid) {
            let j = t.request_index(rid);
            assert(keep_r(t.requests[j]));
            let m = choose|m: int| 0 <= m < s.requests.len() && #[trigger] s.requests[m]
                == t.requests[j];
            lemma_request_found(s, m);
        }
    }
    assert(t.wf()) by {
        assert forall|k: int| 0 <= k < t.requests.len() implies t.has_collection(
            (#[trigger] t.requests[k]).collection_id,
        ) && codes_valid(t.requests[k]) by {
            assert(keep_r(t.requests[k]));
            let m = choose|m: int| 0 <= m < s.requests.len() && #[trigger] s.requests[m]
                == t.requests[k];
            assert(s.has_collection(s.requests[m].collection_id));
            assert(codes_valid(s.requests[m]));
        }
    }
    assert forall|other: Seq<char>| other != id && s.has_collection(other) implies #[trigger]
        t.collection(other) == s.collection(other) by {
        assert(t.has_collection(other));
        let j = t.collection_index(other);
        assert(keep_c(t.collections[j]));
        let m = choose|m: int| 0 <= m < s.collections.len() && #[trigger] s.collections[m]
            == t.collections[j];
        lemma_collection_found(s, m);
    }
    assert forall|rid: Seq<char>|
        s.has_request(rid) && s.request(rid).collection_id != id implies #[trigger] t.request(rid)
        == s.request(rid) by {
        assert(t.has_request(rid));
        let j = t.request_index(rid);
        assert(keep_r(t.requests[j]));
        let m = choose|m: int| 0 <= m < s.requests.len() && #[trigger] s.requests[m]
            == t.requests[j];
        lemma_request_found(s, m);
    }
    assert(t.requests_of(id).len() == 0) by {
        lemma_filter_none(t.requests, owned_by(id));
    }
    assert forall|cid: Seq<char>| cid != id implies #[trigger] t.requests_of(cid) == s.requests_of(
        cid,
    ) by {
        lemma_filter_twice(s.requests, keep_r, owned_by(cid));
    }
    if s.counts_consistent() {
        assert forall|i: int| 0 <= i < t.collections.len() implies (
        #[trigger] t.collections[i]).requests_count == t.requests_of(t.collections[i].id).len() by {
            assert(keep_c(t.collections[i]));
            let m = choose|m: int| 0 <= m < s.collections.len() && #[trigger] s.collections[m]
                == t.collections[i];
            assert(s.collections[m].requests_count == s.requests_of(s.collections[m].id).len());
        }
    }
    if !s.has_collection(id) {
        lemma_filter_all(s.collections, keep_c);
        assert forall|k: int| 0 <= k < s.requests.len() implies keep_r(#[trigger] s.requests[k]) by {
            assert(s.has_collection(s.requests[k].collection_id));
        }
        lemma_filter_all(s.requests, keep_r);
    }
}

/// Moving the counter of a collection that exists changes that counter and
/// nothing else.
pub proof fn lemma_adjusted(s: StoreState, cid: Seq<char>, delta: int, t: StoreState)
    requires
        s.wf(),
        s.has_collection(cid),
        t.collections == s.adjusted(cid, delta),
        t.requests == s.requests,
    ensures
        t.wf(),
        forall|id: Seq<char>| #[trigger] t.has_collection(id) <==> s.has_collection(id),
        t.collection(cid) == counted(s.collection(cid), delta),
        forall|id: Seq<char>|
            s.has_collection(id) && id != cid ==> #[trigger] t.collection(id) == s.collection(id),
{
    lemma_same_ids(s, t);
    let at = s.collection_index(cid);
    lemma_collection_found(t, at);
    assert forall|id: Seq<char>| s.has_collection(id) && id != cid implies #[trigger] t.collection(
        id,
    ) == s.collection(id) by {
        let i = s.collection_index(id);
        lemma_collection_found(t, i);
    }
}

/// Creating a request under a collection that exists, with an unused id.
pub proof fn lemma_add_request(s: StoreState, r: RequestRecord)
    requires
        s.wf(),
        s.has_collection(r.collection_id),
        !s.has_request(r.id),
        codes_valid(r),
    ensures
        s.add_request(r).wf(),
        s.add_request(r).has_request(r.id),
        s.add_request(r).request(r.id) == r,
        forall|id: Seq<char>| #[trigger]
            s.add_request(r).has_request(id) <==> (id == r.id || s.has_request(id)),
        forall|id: Seq<char>|
            s.has_request(id) ==> #[trigger] s.add_request(r).request(id) == s.request(id),
        forall|id: Seq<char>| #[trigger]
            s.add_request(r).has_collection(id) <==> s.has_collection(id),
        s.add_request(r).collection(r.collection_id) == counted(s.collection(r.collection_id), 1),
        forall|id: Seq<char>|
            s.has_collection(id) && id != r.collection_id ==> #[trigger] s.add_request(
                r,
            ).collection(id) == s.collection(id),
        s.add_request(r).requests_of(r.collection_id) == seq![r] + s.requests_of(r.collection_id),
        forall|cid: Seq<char>|
            cid != r.collection_id ==> #[trigger] s.add_request(r).requests_of(cid)
                == s.requests_of(cid),
        s.counts_consistent() ==> s.add_request(r).counts_consistent(),
{
    let t = s.add_request(r);
    let mid = StoreState { collections: t.collections, requests: s.requests };
    lemma_adjusted(s, r.collection_id, 1, mid);
    assert forall|id: Seq<char>| #[trigger] t.has_collection(id) <==> s.has_collection(id) by {
        assert(mid.has_collection(id) <==> s.has_collection(id));
    }
    assert(t.collection(r.collection_id) == mid.collection(r.collection_id));
    assert forall|id: Seq<char>| s.has_collection(id) && id != r.collection_id implies #[trigger]
        t.collection(id) == s.collection(id) by {
        assert(mid.collection(id) == s.collection(id));
    }
    assert(t.requests[0] == r);
    assert forall|k: int| 1 <= k < t.requests.len() implies #[trigger] t.requests[k] == s.requests[k
        - 1] by {}
    assert forall|id: Seq<char>| #[trigger]
        t.has_request(id) <==> (id == r.id || s.has_request(id)) by {
        if s.has_request(id) {
            let k = s.request_index(id);
            assert(t.requests[k + 1].id == id);
        }
        if t.has_request(id) && id != r.id {
            let k = t.request_index(id);
            assert(s.requests[k - 1].id == id);
        }
    }
    assert(t.wf()) by {
        assert forall|i: int, j: int| 0 <= i < j < t.requests.len() implies (
        #[trigger] t.requests[i]).id != (#[trigger] t.requests[j]).id by {
            if i == 0 {
                assert(s.requests[j - 1].id == t.requests[j].id);
            } else {
                assert(s.requests[i - 1].id == t.requests[i].id);
                assert(s.requests[j - 1].id == t.requests[j].id);
            }
        }
        assert forall|k: int| 0 <= k < t.requests.len() implies t.has_collection(
            (#[trigger] t.requests[k]).collection_id,
        ) && codes_valid(t.requests[k]) by {
            if k > 0 {
                assert(s.has_collection(s.requests[k - 1].collection_id));
                assert(codes_valid(s.requests[k - 1]));
            }
        }
    }
    lemma_request_found(t, 0);
    assert forall|id: Seq<char>| s.has_request(id) implies #[trigger] t.request(id) == s.request(
        id,
    ) by {
        let k = s.request_index(id);
        lemma_request_found(t, k + 1);
    }
    lemma_filter_front(r, s.requests, owned_by(r.collection_id));
    assert forall|cid: Seq<char>| cid != r.collection_id implies #[trigger] t.requests_of(cid)
        == s.requests_of(cid) by {
        lemma_filter_front(r, s.requests, owned_by(cid));
    }
    if s.counts_consistent() {
        assert forall|i: int| 0 <= i < t.collections.len() implies (
        #[trigger] t.collections[i]).requests_count == t.requests_of(t.collections[i].id).len() by {
            lemma_collection_found(t, i);
            lemma_collection_found(s, i);
            assert(t.collections[i].id == s.collections[i].id);
        }
    }
}

/// Deleting a request that exists.
pub proof fn lemma_drop_request(s: StoreState, id: Seq<char>)
    requires
        s.wf(),
        s.has_request(id),
    ensures
        s.drop_request(id).wf(),
        !s.drop_request(id).has_request(id),
        forall|other: Seq<char>| #[trigger]
            s.drop_request(id).has_request(other) <==> (other != id && s.has_request(other)),
        forall|other: Seq<char>|
            other != id && s.has_request(other) ==> #[trigger] s.drop_request(id).request(other)
                == s.request(other),
        forall|cid: Seq<char>| #[trigger]
            s.drop_request(id).has_collection(cid) <==> s.has_collection(cid),
        s.drop_request(id).collection(s.request(id).collection_id) == counted(
            s.collection(s.request(id).collection_id),
            -1,
        ),
        forall|cid: Seq<char>|
            s.has_collection(cid) && cid != s.request(id).collection_id
                ==> #[trigger] s.drop_request(id).collection(cid) == s.collection(cid),
        s.drop_request(id).requests_of(s.request(id).collection_id).len() == s.requests_of(
            s.request(id).collection_id,
        ).len() - 1,
        forall|cid: Seq<char>|
            cid != s.request(id).collection_id ==> #[trigger] s.drop_request(id).requests_of(cid)
                == s.requests_of(cid),
        s.counts_consistent() ==> s.drop_request(id).counts_consistent(),
{
    let t = s.drop_request(id);
    let at = s.request_index(id);
    let gone = s.request(id);
    let parent = gone.collection_id;
    assert(s.has_collection(s.requests[at].collection_id));
    let mid = StoreState { collections: t.collections, requests: s.requests };
    lemma_adjusted(s, parent, -1, mid);
    assert forall|cid: Seq<char>| #[trigger] t.has_collection(cid) <==> s.has_collection(cid) by {
        assert(mid.has_collection(cid) <==> s.has_collection(cid));
    }
    assert(t.collection(parent) == mid.collection(parent));
    assert forall|cid: Seq<char>| s.has_collection(cid) && cid != parent implies #[trigger]
        t.collection(cid) == s.collection(cid) by {
        assert(mid.collection(cid) == s.collection(cid));
    }
    assert forall|k: int| 0 <= k < t.requests.len() implies #[trigger] t.requests[k] == (if k
        < at {
        s.requests[k]
    } else {
        s.requests[k + 1]
    }) by {}
    assert forall|other: Seq<char>| #[trigger]
        t.has_request(other) <==> (other != id && s.has_request(other)) by {
        if other != id && s.has_request(other) {
            let k = s.request_index(other);
            if k < at {
                assert(t.requests[k].id == other);
            } else {
                assert(t.requests[k - 1].id == other);
            }
        }
        if t.has_request(other) {
            let k = t.request_index(other);
            if k < at {
                assert(s.requests[k].id == other);
            } else {
                assert(s.requests[k + 1].id == other);
            }
        }
    }
    assert(t.wf()) by {
        assert forall|i: int, j: int| 0 <= i < j < t.requests.len() implies (
        #[trigger] t.requests[i]).id != (#[trigger] t.requests[j]).id by {
            let si = if i < at { i } else { i + 1 };
            let sj = if j < at { j } else { j + 1 };
            assert(s.requests[si].id != s.requests[sj].id);
        }
        assert forall|k: int| 0 <= k < t.requests.len() implies t.has_collection(
            (#[trigger] t.requests[k]).collection_id,
        ) && codes_valid(t.requests[k]) by {
            let sk = if k < at { k } else { k + 1 };
            assert(s.has_collection(s.requests[sk].collection_id));
            assert(codes_valid(s.requests[sk]));
        }
    }
    assert forall|other: Seq<char>| other != id && s.has_request(other) implies #[trigger]
        t.request(other) == s.request(other) by {
        let k = s.request_index(other);
        if k < at {
            lemma_request_found(t, k);
        } else {
            lemma_request_found(t, k - 1);
        }
    }
    lemma_filter_remove(s.requests, at, owned_by(parent));
    assert forall|cid: Seq<char>| cid != parent implies #[trigger] t.requests_of(cid)
        == s.requests_of(cid) by {
        lemma_filter_remove(s.requests, at, owned_by(cid));
    }
    if s.counts_consistent() {
        assert forall|i: int| 0 <= i < t.collections.len() implies (
        #[trigger] t.collections[i]).requests_count == t.requests_of(t.collections[i].id).len() by {
            lemma_collection_found(t, i);
            lemma_collection_found(s, i);
            assert(t.collections[i].id == s.collections[i].id);
        }
    }
}

/// Replacing a request that exists by a row with the same id and the same
/// collection.
pub proof fn lemma_put_request(s: StoreState, id: Seq<char>, r: RequestRecord)
    requires
        s.wf(),
        s.has_request(id),
        r.id == id,
        r.collection_id == s.request(id).collection_id,
        codes_valid(r),
    ensures
        s.put_request(id, r).wf(),
        s.put_request(id, r).request(id) == r,
        forall|other: Seq<char>| #[trigger]
            s.put_request(id, r).has_request(other) <==> s.has_request(other),
        forall|other: Seq<char>|
            other != id && s.has_request(other) ==> #[trigger] s.put_request(id, r).request(other)
                == s.request(other),
        forall|cid: Seq<char>| #[trigger]
            s.put_request(id, r).requests_of(cid).len() == s.requests_of(cid).len(),
        s.counts_consistent() ==> s.put_request(id, r).counts_consistent(),
{
    let t = s.put_request(id, r);
    let at = s.request_index(id);
    lemma_request_index(s, id);
    assert(t.requests[at] == r);
    assert forall|c: Seq<char>| #[trigger] t.has_collection(c) <==> s.has_collection(c) by {
        if s.has_collection(c) {
            assert(t.collections[s.collection_index(c)].id == c);
        }
        if t.has_collection(c) {
            assert(s.collections[t.collection_index(c)].id == c);
        }
    }
    assert forall|other: Seq<char>| #[trigger] t.has_request(other) <==> s.has_request(other) by {
        if s.has_request(other) {
            let k = s.request_index(other);
            assert(t.requests[k].id == other);
        }
        if t.has_request(other) {
            let k = t.request_index(other);
            assert(s.requests[k].id == other);
        }
    }
    assert(t.wf()) by {
        assert forall|i: int, j: int| 0 <= i < j < t.requests.len() implies (
        #[trigger] t.requests[i]).id != (#[trigger] t.requests[j]).id by {
            assert(s.requests[i].id != s.requests[j].id);
        }
        assert forall|k: int| 0 <= k < t.requests.len() implies t.has_collection(
            (#[trigger] t.requests[k]).collection_id,
        ) && codes_valid(t.requests[k]) by {
            assert(s.has_collection(s.requests[k].collection_id));
            assert(codes_valid(s.requests[k]));
        }
    }
    lemma_request_found(t, at);
    assert forall|other: Seq<char>| other != id && s.has_request(other) implies #[trigger]
        t.request(other) == s.request(other) by {
        let k = s.request_index(other);
        lemma_request_found(t, k);
    }
    assert forall|cid: Seq<char>| #[trigger]
        t.requests_of(cid).len() == s.requests_of(cid).len() by {
        lemma_filter_update(s.requests, at, r, owned_by(cid));
    }
}

} // verus!
