//! Facts about filtered sequences that the proofs on the tables share.

use vstd::prelude::*;

verus! {

/// Filtering a sequence with one more element in front.
pub proof fn lemma_filter_front<A>(x: A, s: Seq<A>, p: spec_fn(A) -> bool)
    ensures
        (seq![x] + s).filter(p) == if p(x) {
            seq![x] + s.filter(p)
        } else {
            s.filter(p)
        },
{
    Seq::filter_distributes_over_add(seq![x], s, p);
    Seq::<A>::empty().lemma_filter_push(x, p);
    reveal(Seq::filter);
    assert(Seq::<A>::empty().push(x) =~= seq![x]);
    assert(Seq::<A>::empty().filter(p) =~= Seq::<A>::empty());
    if p(x) {
        assert(seq![x].filter(p) =~= seq![x]);
    } else {
        assert(seq![x].filter(p) =~= Seq::<A>::empty());
        assert(Seq::<A>::empty() + s.filter(p) =~= s.filter(p));
    }
}

/// A sequence falls into what lies before a place, the element there, and
/// what lies behind it, and so does what the filter keeps of it.
pub proof fn lemma_filter_split<A>(s: Seq<A>, k: int, p: spec_fn(A) -> bool)
    requires
        0 <= k < s.len(),
    ensures
        s.filter(p) == s.subrange(0, k).filter(p) + (if p(s[k]) {
            seq![s[k]]
        } else {
            Seq::<A>::empty()
        }) + s.subrange(k + 1, s.len() as int).filter(p),
{
    let before = s.subrange(0, k);
    let behind = s.subrange(k + 1, s.len() as int);
    assert(s =~= before + (seq![s[k]] + behind));
    Seq::filter_distributes_over_add(before, seq![s[k]] + behind, p);
    lemma_filter_front(s[k], behind, p);
    if p(s[k]) {
        assert(before.filter(p) + (seq![s[k]] + behind.filter(p)) =~= before.filter(p) + seq![
            s[k],
        ] + behind.filter(p));
    } else {
        assert(before.filter(p) + behind.filter(p) =~= before.filter(p) + Seq::<A>::empty()
            + behind.filter(p));
    }
}

/// Filtering a sequence from which one element was taken out.
pub proof fn lemma_filter_remove<A>(s: Seq<A>, k: int, p: spec_fn(A) -> bool)
    requires
        0 <= k < s.len(),
    ensures
        s.remove(k).filter(p) == s.subrange(0, k).filter(p) + s.subrange(
            k + 1,
            s.len() as int,
        ).filter(p),
        s.remove(k).filter(p).len() == s.filter(p).len() - (if p(s[k]) {
            1int
        } else {
            0int
        }),
        !p(s[k]) ==> s.remove(k).filter(p) == s.filter(p),
{
    let before = s.subrange(0, k);
    let behind = s.subrange(k + 1, s.len() as int);
    assert(s.remove(k) =~= before + behind);
    Seq::filter_distributes_over_add(before, behind, p);
    lemma_filter_split(s, k, p);
    if !p(s[k]) {
        assert(before.filter(p) + Seq::<A>::empty() + behind.filter(p) =~= before.filter(p)
            + behind.filter(p));
    }
}

/// Filtering a sequence in which one element was replaced.
pub proof fn lemma_filter_update<A>(s: Seq<A>, k: int, y: A, p: spec_fn(A) -> bool)
    requires
        0 <= k < s.len(),
    ensures
        s.update(k, y).filter(p) == s.subrange(0, k).filter(p) + (if p(y) {
            seq![y]
        } else {
            Seq::<A>::empty()
        }) + s.subrange(k + 1, s.len() as int).filter(p),
        p(y) == p(s[k]) ==> s.update(k, y).filter(p).len() == s.filter(p).len(),
        !p(y) && !p(s[k]) ==> s.update(k, y).filter(p) == s.filter(p),
{
    let t = s.update(k, y);
    assert(t.subrange(0, k) =~= s.subrange(0, k));
    assert(t.subrange(k + 1, t.len() as int) =~= s.subrange(k + 1, s.len() as int));
    lemma_filter_split(t, k, p);
    lemma_filter_split(s, k, p);
}

/// Whatever the filter keeps stood in the sequence and passes the test.
pub proof fn lemma_filter_member<A>(s: Seq<A>, p: spec_fn(A) -> bool, j: int)
    requires
        0 <= j < s.filter(p).len(),
    ensures
        p(s.filter(p)[j]),
        exists|i: int| 0 <= i < s.len() && #[trigger] s[i] == s.filter(p)[j],
{
    s.lemma_filter_pred(p, j);
    let kept = s.filter(p);
    assert(kept.contains(kept[j]));
    s.lemma_filter_contains_rev(p, kept[j]);
    let i = choose|i: int| 0 <= i < s.len() && s[i] == kept[j];
    assert(s[i] == kept[j]);
}

/// The filter keeps every element that passes the test.
pub proof fn lemma_filter_keeps<A>(s: Seq<A>, p: spec_fn(A) -> bool, i: int)
    requires
        0 <= i < s.len(),
        p(s[i]),
    ensures
        exists|j: int| 0 <= j < s.filter(p).len() && #[trigger] s.filter(p)[j] == s[i],
{
    s.lemma_filter_contains(p, i);
    let kept = s.filter(p);
    let j = choose|j: int| 0 <= j < kept.len() && kept[j] == s[i];
    assert(kept[j] == s[i]);
}

/// Where no two elements of a sequence share a key, no two elements that the
/// filter keeps share one.
pub proof fn lemma_filter_distinct<A, K>(s: Seq<A>, p: spec_fn(A) -> bool, key: spec_fn(A) -> K)
    requires
        forall|i: int, j: int| 0 <= i < j < s.len() ==> key(#[trigger] s[i]) != key(#[trigger] s[j]),
    ensures
        forall|i: int, j: int|
            0 <= i < j < s.filter(p).len() ==> key(#[trigger] s.filter(p)[i]) != key(
                #[trigger] s.filter(p)[j],
            ),
    decreases s.len(),
{
    reveal(Seq::filter);
    if s.len() > 0 {
        let rest = s.drop_last();
        assert forall|i: int, j: int| 0 <= i < j < rest.len() implies key(#[trigger] rest[i])
            != key(#[trigger] rest[j]) by {
            assert(rest[i] == s[i] && rest[j] == s[j]);
        }
        lemma_filter_distinct(rest, p, key);
        let kept = s.filter(p);
        assert forall|i: int, j: int| 0 <= i < j < kept.len() implies key(#[trigger] kept[i])
            != key(#[trigger] kept[j]) by {
            if p(s.last()) && j == kept.len() - 1 {
                assert(kept[i] == rest.filter(p)[i]);
                lemma_filter_member(rest, p, i);
                let m = choose|m: int| 0 <= m < rest.len() && #[trigger] rest[m] == rest.filter(p)[i];
                assert(s[m] == kept[i]);
                assert(s[s.len() - 1] == kept[j]);
            } else {
                assert(kept[i] == rest.filter(p)[i]);
                assert(kept[j] == rest.filter(p)[j]);
            }
        }
    }
}

/// Filtering by a test and then by a narrower one is filtering by the
/// narrower one.
pub proof fn lemma_filter_twice<A>(s: Seq<A>, p: spec_fn(A) -> bool, q: spec_fn(A) -> bool)
    requires
        forall|x: A| #[trigger] q(x) ==> p(x),
    ensures
        s.filter(p).filter(q) == s.filter(q),
    decreases s.len(),
{
    reveal(Seq::filter);
    if s.len() > 0 {
        let rest = s.drop_last();
        lemma_filter_twice(rest, p, q);
        if p(s.last()) {
            rest.filter(p).lemma_filter_push(s.last(), q);
        }
    }
}

/// A filter that every element passes keeps the sequence as it is.
pub proof fn lemma_filter_all<A>(s: Seq<A>, p: spec_fn(A) -> bool)
    requires
        forall|i: int| 0 <= i < s.len() ==> p(#[trigger] s[i]),
    ensures
        s.filter(p) == s,
    decreases s.len(),
{
    reveal(Seq::filter);
    if s.len() > 0 {
        let rest = s.drop_last();
        assert forall|i: int| 0 <= i < rest.len() implies p(#[trigger] rest[i]) by {
            assert(rest[i] == s[i]);
        }
        lemma_filter_all(rest, p);
        assert(rest.push(s.last()) =~= s);
    }
}

/// A filter that no element passes keeps nothing.
pub proof fn lemma_filter_none<A>(s: Seq<A>, p: spec_fn(A) -> bool)
    requires
        forall|i: int| 0 <= i < s.len() ==> !p(#[trigger] s[i]),
    ensures
        s.filter(p).len() == 0,
{
    if s.filter(p).len() > 0 {
        lemma_filter_member(s, p, 0);
    }
}

/// Two tests that agree on every element of a sequence keep the same of it.
pub proof fn lemma_filter_same<A>(s: Seq<A>, p: spec_fn(A) -> bool, q: spec_fn(A) -> bool)
    requires
        forall|i: int| 0 <= i < s.len() ==> p(#[trigger] s[i]) == q(s[i]),
    ensures
        s.filter(p) == s.filter(q),
    decreases s.len(),
{
    reveal(Seq::filter);
    if s.len() > 0 {
        let rest = s.drop_last();
        assert forall|i: int| 0 <= i < rest.len() implies p(#[trigger] rest[i]) == q(rest[i]) by {
            assert(rest[i] == s[i]);
        }
        lemma_filter_same(rest, p, q);
        assert(p(s[s.len() - 1]) == q(s[s.len() - 1]));
    }
}

} // verus!
