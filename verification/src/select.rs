//! Picking out of a sequence what a rule selects, in order, and what that
//! selection keeps when the sequence is reordered.

use vstd::prelude::*;

verus! {

/// What `pick` selects from `items`, in the order of `items`.
pub open spec fn picked<A, B>(items: Seq<A>, pick: spec_fn(A) -> Option<B>) -> Seq<B>
    decreases items.len(),
{
    if items.len() == 0 {
        Seq::empty()
    } else {
        let rest = picked(items.drop_last(), pick);
        match pick(items.last()) {
            Some(b) => rest.push(b),
            None => rest,
        }
    }
}

/// The number of items from which `pick` selects something.
pub open spec fn count_picked<A, B>(items: Seq<A>, pick: spec_fn(A) -> Option<B>) -> nat
    decreases items.len(),
{
    if items.len() == 0 {
        0
    } else {
        count_picked(items.drop_last(), pick) + if pick(items.last()) is Some {
            1nat
        } else {
            0nat
        }
    }
}

/// What one more item adds to the selection.
pub proof fn lemma_picked_push<A, B>(items: Seq<A>, last: A, pick: spec_fn(A) -> Option<B>)
    ensures
        picked(items.push(last), pick) == match pick(last) {
            Some(b) => picked(items, pick).push(b),
            None => picked(items, pick),
        },
{
    assert(items.push(last).drop_last() =~= items);
}

/// The selection from the first `n + 1` items, from that of the first `n`.
pub proof fn lemma_picked_take<A, B>(items: Seq<A>, n: int, pick: spec_fn(A) -> Option<B>)
    requires
        0 <= n < items.len(),
    ensures
        picked(items.take(n + 1), pick) == match pick(items[n]) {
            Some(b) => picked(items.take(n), pick).push(b),
            None => picked(items.take(n), pick),
        },
{
    assert(items.take(n + 1) =~= items.take(n).push(items[n]));
    lemma_picked_push(items.take(n), items[n], pick);
}

/// The selection holds one entry for each item that `pick` selects from.
pub proof fn lemma_picked_len<A, B>(items: Seq<A>, pick: spec_fn(A) -> Option<B>)
    ensures
        picked(items, pick).len() == count_picked(items, pick),
        count_picked(items, pick) <= items.len(),
    decreases items.len(),
{
    if items.len() > 0 {
        lemma_picked_len(items.drop_last(), pick);
    }
}

/// Whatever `pick` selects from an item of the sequence is in the selection.
pub proof fn lemma_picked_contains<A, B>(items: Seq<A>, i: int, pick: spec_fn(A) -> Option<B>)
    requires
        0 <= i < items.len(),
        pick(items[i]) is Some,
    ensures
        picked(items, pick).contains(pick(items[i])->0),
    decreases items.len(),
{
    let rest = picked(items.drop_last(), pick);
    if i == items.len() - 1 {
        let all = picked(items, pick);
        assert(all[all.len() - 1] == pick(items[i])->0);
    } else {
        lemma_picked_contains(items.drop_last(), i, pick);
        let b = pick(items[i])->0;
        let k = choose|k: int| 0 <= k < rest.len() && rest[k] == b;
        assert(picked(items, pick)[k] == b);
    }
}

/// Whatever is in the selection was selected from an item of the sequence.
pub proof fn lemma_picked_origin<A, B>(items: Seq<A>, k: int, pick: spec_fn(A) -> Option<B>)
    requires
        0 <= k < picked(items, pick).len(),
    ensures
        exists|i: int| 0 <= i < items.len() && pick(#[trigger] items[i]) == Some(picked(items, pick)[k]),
    decreases items.len(),
{
    let rest = picked(items.drop_last(), pick);
    if k < rest.len() {
        lemma_picked_origin(items.drop_last(), k, pick);
        let i = choose|i: int|
            0 <= i < items.drop_last().len() && pick(#[trigger] items.drop_last()[i]) == Some(
                rest[k],
            );
        assert(items[i] == items.drop_last()[i]);
    } else {
        assert(pick(items[items.len() - 1]) == Some(picked(items, pick)[k]));
    }
}

/// Taking one item out of the sequence takes out of the selection what was
/// selected from it, and nothing else.
pub proof fn lemma_picked_remove<A, B>(items: Seq<A>, i: int, pick: spec_fn(A) -> Option<B>)
    requires
        0 <= i < items.len(),
    ensures
        picked(items, pick).to_multiset() == match pick(items[i]) {
            Some(b) => picked(items.remove(i), pick).to_multiset().insert(b),
            None => picked(items.remove(i), pick).to_multiset(),
        },
    decreases items.len(),
{
    broadcast use vstd::seq_lib::to_multiset_build;

    let front = items.drop_last();
    let last = items.last();
    if i == items.len() - 1 {
        assert(items.remove(i) =~= front);
    } else {
        lemma_picked_remove(front, i, pick);
        assert(items.remove(i) =~= front.remove(i).push(last));
        lemma_picked_push(front.remove(i), last, pick);
        let base = picked(front.remove(i), pick).to_multiset();
        match (pick(items[i]), pick(last)) {
            (Some(b), Some(c)) => {
                assert(base.insert(b).insert(c) =~= base.insert(c).insert(b));
            },
            _ => {},
        }
    }
}

/// The selection does not depend on the order of the items: two sequences
/// that hold the same items, each as often, give selections that hold the
/// same entries, each as often.
pub proof fn lemma_picked_reordered<A, B>(a: Seq<A>, b: Seq<A>, pick: spec_fn(A) -> Option<B>)
    requires
        a.to_multiset() == b.to_multiset(),
    ensures
        picked(a, pick).to_multiset() == picked(b, pick).to_multiset(),
    decreases a.len(),
{
    broadcast use vstd::seq_lib::to_multiset_build;

    a.to_multiset_ensures();
    b.to_multiset_ensures();
    if a.len() == 0 {
        assert(b.len() == 0);
    } else {
        let last = a.last();
        assert(a.contains(last));
        assert(b.to_multiset().count(last) > 0);
        assert(b.contains(last));
        let j = choose|j: int| 0 <= j < b.len() && b[j] == last;
        vstd::seq_lib::to_multiset_remove(a, a.len() - 1);
        vstd::seq_lib::to_multiset_remove(b, j);
        assert(a.remove(a.len() - 1) =~= a.drop_last());
        lemma_picked_reordered(a.drop_last(), b.remove(j), pick);
        lemma_picked_remove(a, a.len() - 1, pick);
        lemma_picked_remove(b, j, pick);
    }
}

} // verus!
