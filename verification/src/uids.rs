//! UID search post-processing: sorting search results ascending and
//! discarding the watermark UID that an inclusive UID SEARCH range can echo
//! back.
use vstd::prelude::*;
use vstd::multiset::Multiset;
use vstd::seq_lib::group_to_multiset_ensures;

verus! {

/// The predicate a watermark induces: only UIDs strictly above it pass.
pub open spec fn above_watermark(last_uid: u32) -> spec_fn(u32) -> bool {
    |u: u32| u > last_uid
}

/// Ascending order, duplicates allowed.
pub open spec fn uids_sorted(s: Seq<u32>) -> bool {
    forall|i: int, j: int| 0 <= i < j < s.len() ==> s[i] <= s[j]
}

/// Strictly ascending order.
pub open spec fn uids_strictly_ascending(s: Seq<u32>) -> bool {
    forall|i: int, j: int| 0 <= i < j < s.len() ==> s[i] < s[j]
}

/// Sort UIDs ascending; the result holds exactly the input's elements.
pub fn sort_uids(v: Vec<u32>) -> (r: Vec<u32>)
    ensures
        r@.to_multiset() == v@.to_multiset(),
        uids_sorted(r@),
        r@.len() == v@.len(),
{
    broadcast use group_to_multiset_ensures;

    let mut work = v;
    let ghost orig = work@;
    let mut r: Vec<u32> = Vec::new();
    proof {
        assert(r@.to_multiset().add(work@.to_multiset()) =~= orig.to_multiset());
    }
    while work.len() > 0
        invariant
            r@.to_multiset().add(work@.to_multiset()) == orig.to_multiset(),
            uids_sorted(r@),
            r@.len() + work@.len() == orig.len(),
            forall|i: int, j: int|
                0 <= i < r@.len() && 0 <= j < work@.len() ==> r@[i] <= work@[j],
        decreases work.len(),
    {
        // Find the least remaining element.
        let mut m: usize = 0;
        let mut k: usize = 1;
        while k < work.len()
            invariant
                m < work@.len(),
                k <= work@.len(),
                forall|j: int| 0 <= j < k ==> work@[m as int] <= work@[j],
            decreases work.len() - k,
        {
            if work[k] < work[m] {
                m = k;
            }
            k = k + 1;
        }
        let ghost w0 = work@;
        let ghost r0 = r@;
        let x = work.remove(m);
        r.push(x);
        proof {
            broadcast use vstd::multiset::group_multiset_axioms;

            assert(work@ == w0.remove(m as int));
            vstd::seq_lib::to_multiset_remove(w0, m as int);
            assert(r@ == r0.push(x));
            vstd::seq_lib::to_multiset_build(r0, x);
            assert(w0.contains(x));
            w0.to_multiset_ensures();
            assert(w0.to_multiset().count(x) > 0);
            assert(r@.to_multiset().add(work@.to_multiset()) =~= orig.to_multiset());
            assert(forall|i: int, j: int|
                0 <= i < r@.len() && 0 <= j < work@.len() ==> r@[i] <= work@[j]);
        }
    }
    proof {
        assert(work@.to_multiset() =~= Multiset::<u32>::empty());
        assert(r@.to_multiset() =~= orig.to_multiset());
    }
    r
}

/// The UIDs strictly above the watermark, sorted ascending: what a
/// UID SEARCH over a range starting at the watermark should hand the
/// caller, with the watermark itself discarded.
pub fn filter_new_uids(uids: Vec<u32>, last_uid: u32) -> (r: Vec<u32>)
    ensures
        r@.to_multiset() == uids@.filter(above_watermark(last_uid)).to_multiset(),
        uids_sorted(r@),
        forall|i: int| 0 <= i < r@.len() ==> r@[i] > last_uid,
        !r@.contains(last_uid),
{
    broadcast use group_to_multiset_ensures;

    let mut kept: Vec<u32> = Vec::new();
    let mut i: usize = 0;
    proof {
        reveal(Seq::filter);
        assert(uids@.take(0).filter(above_watermark(last_uid)) =~= Seq::<u32>::empty());
    }
    while i < uids.len()
        invariant
            i <= uids@.len(),
            kept@ == uids@.take(i as int).filter(above_watermark(last_uid)),
        decreases uids.len() - i,
    {
        let u = uids[i];
        proof {
            reveal(Seq::filter);
            assert(uids@.take(i + 1 as int).drop_last() =~= uids@.take(i as int));
            assert(uids@.take(i + 1 as int).last() == uids@[i as int]);
        }
        proof {
            assert(above_watermark(last_uid)(uids@[i as int]) == (u > last_uid));
        }
        if u > last_uid {
            kept.push(u);
        }
        i = i + 1;
    }
    proof {
        assert(uids@.take(uids@.len() as int) =~= uids@);
    }
    let r = sort_uids(kept);
    proof {
        let pred = above_watermark(last_uid);
        let f = uids@.filter(pred);
        assert forall|j: int| 0 <= j < r@.len() implies r@[j] > last_uid by {
            assert(r@.to_multiset().contains(r@[j]));
            assert(f.to_multiset().contains(r@[j]));
            assert(f.contains(r@[j]));
            assert(pred(r@[j]));
        }
        if r@.contains(last_uid) {
            let j = choose|j: int| 0 <= j < r@.len() && r@[j] == last_uid;
            assert(r@[j] > last_uid);
        }
    }
    r
}

proof fn lemma_filter_subset_contains(s: Seq<u32>, pred: spec_fn(u32) -> bool, x: u32)
    requires
        s.filter(pred).contains(x),
    ensures
        s.contains(x),
    decreases s.len(),
{
    reveal(Seq::filter);
    if s.len() > 0 {
        if pred(s.last()) && x == s.last() {
            assert(s[s.len() - 1] == x);
        } else {
            // The element must come from the filtered prefix.
            assert(s.drop_last().filter(pred).contains(x));
            lemma_filter_subset_contains(s.drop_last(), pred, x);
            let j = choose|j: int| 0 <= j < s.drop_last().len() && s.drop_last()[j] == x;
            assert(s[j] == x);
        }
    }
}

proof fn lemma_filter_no_duplicates(s: Seq<u32>, pred: spec_fn(u32) -> bool)
    requires
        s.no_duplicates(),
    ensures
        s.filter(pred).no_duplicates(),
    decreases s.len(),
{
    reveal(Seq::filter);
    if s.len() > 0 {
        let d = s.drop_last();
        assert(d.no_duplicates());
        lemma_filter_no_duplicates(d, pred);
        if pred(s.last()) {
            if d.filter(pred).contains(s.last()) {
                lemma_filter_subset_contains(d, pred, s.last());
                let j = choose|j: int| 0 <= j < d.len() && d[j] == s.last();
                assert(s[j] == s[s.len() - 1]);
            }
        }
    }
}

/// Law: when the server's search result holds no duplicate UIDs — as a UID
/// SEARCH result is a set of UIDs — the filtered, sorted result is strictly
/// ascending, never contains the watermark, and holds only UIDs above it.
pub proof fn lemma_new_uids_strictly_ascending(uids: Seq<u32>, last_uid: u32, r: Seq<u32>)
    requires
        uids.no_duplicates(),
        r.to_multiset() == uids.filter(above_watermark(last_uid)).to_multiset(),
        uids_sorted(r),
    ensures
        uids_strictly_ascending(r),
        !r.contains(last_uid),
        forall|i: int| 0 <= i < r.len() ==> r[i] > last_uid,
{
    broadcast use group_to_multiset_ensures;

    let pred = above_watermark(last_uid);
    let f = uids.filter(pred);
    lemma_filter_no_duplicates(uids, pred);
    f.lemma_multiset_has_no_duplicates();
    r.lemma_multiset_has_no_duplicates_conv();
    assert forall|i: int, j: int| 0 <= i < j < r.len() implies r[i] < r[j] by {
        assert(r[i] <= r[j]);
    }
    assert forall|i: int| 0 <= i < r.len() implies r[i] > last_uid by {
        assert(r.to_multiset().contains(r[i]));
        assert(f.to_multiset().contains(r[i]));
        assert(f.contains(r[i]));
        assert(pred(f[choose|j: int| 0 <= j < f.len() && f[j] == r[i]]));
    }
    if r.contains(last_uid) {
        let j = choose|j: int| 0 <= j < r.len() && r[j] == last_uid;
        assert(r[j] > last_uid);
    }
}

} // verus!
