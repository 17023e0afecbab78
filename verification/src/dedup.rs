//! Tolerance-based deduplication of response fingerprints: a single
//! first-match-wins walk that drops an item when it is similar to one already
//! accepted.

use vstd::prelude::*;

verus! {

/// Fingerprint of one fetched response, used only for near-duplicate
/// detection: similarity compares the body lengths.
#[derive(Debug, PartialEq, Eq, Hash, Clone)]
pub struct ResponseData {
    pub status_code: String,
    pub endpoint: String,
    pub body_length: usize,
}

/// Types with a tolerance-based notion of being near-duplicates.
pub trait Similar: Sized {
    /// What counts as similar at a given tolerance.
    spec fn similar_spec(self, other: Self, tolerance: u32) -> bool;

    /// Decides similarity within the tolerance.
    fn is_similar_to(&self, other: &Self, tolerance: u32) -> (r: bool)
        ensures
            r == self.similar_spec(*other, tolerance),
    ;
}

impl Similar for ResponseData {
    /// Two fingerprints are similar when their body lengths differ by no more
    /// than the tolerance.
    open spec fn similar_spec(self, other: Self, tolerance: u32) -> bool {
        -(tolerance as int) <= self.body_length - other.body_length <= tolerance as int
    }

    fn is_similar_to(&self, other: &ResponseData, tolerance: u32) -> (r: bool) {
        let diff = if self.body_length > other.body_length {
            self.body_length - other.body_length
        } else {
            other.body_length - self.body_length
        };
        diff <= tolerance as usize
    }
}

/// The survivors of the first-match-wins walk: an item stays exactly when no
/// earlier survivor is similar to it.
pub open spec fn dedup_tol_spec<T: Similar>(s: Seq<T>, tolerance: u32) -> Seq<T>
    decreases s.len(),
{
    if s.len() == 0 {
        Seq::empty()
    } else {
        let prev = dedup_tol_spec(s.drop_last(), tolerance);
        if exists|j: int|
            0 <= j < prev.len() && #[trigger] prev[j].similar_spec(s.last(), tolerance) {
            prev
        } else {
            prev.push(s.last())
        }
    }
}

/// Walks the items once in arrival order; an item similar to any already
/// accepted item is discarded, any other is accepted. First match wins: no
/// clustering, and arrival order decides which representative survives.
pub fn remove_duplicates_with_tolerance<T: Eq + std::hash::Hash + Clone + Similar>(
    vec: Vec<T>,
    tolerance: u32,
) -> (r: Vec<T>)
    ensures
        r@ == dedup_tol_spec(vec@, tolerance),
{
    let ghost gvec = vec@;
    let mut vec = vec;
    let mut out: Vec<T> = Vec::new();
    let ghost mut i: int = 0;
    while vec.len() > 0
        invariant
            0 <= i <= gvec.len(),
            vec@ == gvec.subrange(i, gvec.len() as int),
            out@ == dedup_tol_spec(gvec.take(i), tolerance),
        decreases vec.len(),
    {
        let item = vec.remove(0);
        proof {
            assert(item == gvec[i]);
            assert(vec@ =~= gvec.subrange(i + 1, gvec.len() as int));
        }
        let mut is_dup = false;
        let mut j: usize = 0;
        while j < out.len() && !is_dup
            invariant
                j <= out.len(),
                is_dup ==> exists|k: int|
                    0 <= k < out@.len() && #[trigger] out@[k].similar_spec(item, tolerance),
                !is_dup ==> forall|k: int|
                    0 <= k < j ==> !(#[trigger] out@[k].similar_spec(item, tolerance)),
            decreases out.len() - j, (if is_dup { 0int } else { 1int }),
        {
            if out[j].is_similar_to(&item, tolerance) {
                is_dup = true;
            } else {
                j += 1;
            }
        }
        proof {
            assert(gvec.take(i + 1).drop_last() =~= gvec.take(i));
            assert(gvec.take(i + 1).last() == gvec[i]);
        }
        if !is_dup {
            out.push(item);
        }
        proof {
            i = i + 1;
        }
    }
    proof {
        assert(gvec.take(gvec.len() as int) =~= gvec);
    }
    out
}

/// The fingerprints arrive in non-decreasing body-length order.
pub open spec fn sorted_by_len(s: Seq<ResponseData>) -> bool {
    forall|i: int, j: int|
        0 <= i < j < s.len() ==> #[trigger] s[i].body_length <= #[trigger] s[j].body_length
}

proof fn lemma_dedup_shape(s: Seq<ResponseData>, t: u32)
    requires
        sorted_by_len(s),
    ensures
        sorted_by_len(dedup_tol_spec(s, t)),
        forall|j: int|
            0 <= j < dedup_tol_spec(s, t).len() ==> s.contains(#[trigger] dedup_tol_spec(s, t)[j]),
        s.len() > 0 ==> dedup_tol_spec(s, t).len() > 0,
    decreases s.len(),
{
    if s.len() > 0 {
        let p = s.drop_last();
        assert(sorted_by_len(p)) by {
            assert(forall|i: int, j: int|
                0 <= i < j < p.len() ==> #[trigger] p[i].body_length <= #[trigger] p[j].body_length);
        }
        lemma_dedup_shape(p, t);
        let dp = dedup_tol_spec(p, t);
        let d = dedup_tol_spec(s, t);
        assert(forall|j: int| 0 <= j < dp.len() ==> p.contains(#[trigger] dp[j]));
        assert(forall|j: int| 0 <= j < p.len() ==> s.contains(#[trigger] p[j]));
        assert(forall|j: int|
            0 <= j < dp.len() ==> #[trigger] dp[j].body_length <= s.last().body_length) by {
            assert(forall|j: int|
                0 <= j < dp.len() ==> exists|k: int| 0 <= k < p.len() && p[k] == #[trigger] dp[j]);
        }
        if exists|j: int| 0 <= j < dp.len() && #[trigger] dp[j].similar_spec(s.last(), t) {
            assert(d == dp);
        } else {
            assert(d == dp.push(s.last()));
            assert(sorted_by_len(d));
            assert(forall|j: int| 0 <= j < d.len() ==> s.contains(#[trigger] d[j]));
        }
    }
}

proof fn lemma_reject_iff_last_near(p: Seq<ResponseData>, x: ResponseData, t: u32)
    requires
        sorted_by_len(p),
        forall|i: int| 0 <= i < p.len() ==> #[trigger] p[i].body_length <= x.body_length,
    ensures
        (exists|j: int|
            0 <= j < dedup_tol_spec(p, t).len() && #[trigger] dedup_tol_spec(p, t)[j].similar_spec(
                x,
                t,
            )) <==> (dedup_tol_spec(p, t).len() > 0 && x.body_length - dedup_tol_spec(
            p,
            t,
        ).last().body_length <= t),
{
    lemma_dedup_shape(p, t);
    let d = dedup_tol_spec(p, t);
    assert(forall|j: int| 0 <= j < d.len() ==> #[trigger] d[j].body_length <= x.body_length) by {
        assert(forall|j: int|
            0 <= j < d.len() ==> exists|k: int| 0 <= k < p.len() && p[k] == #[trigger] d[j]);
    }
    if exists|j: int| 0 <= j < d.len() && #[trigger] d[j].similar_spec(x, t) {
        let j = choose|j: int| 0 <= j < d.len() && #[trigger] d[j].similar_spec(x, t);
        assert(d[j].body_length <= d.last().body_length);
        assert(x.body_length - d.last().body_length <= x.body_length - d[j].body_length);
    }
    if d.len() > 0 && x.body_length - d.last().body_length <= t {
        assert(d[d.len() - 1].similar_spec(x, t));
    }
}

/// Loosening the tolerance never enlarges the surviving set: for fingerprints
/// arriving in non-decreasing body-length order, the walk under a tolerance
/// `t1 <= t2` keeps at least as many items as the walk under `t2`.
pub proof fn lemma_dedup_tolerance_monotone(s: Seq<ResponseData>, t1: u32, t2: u32)
    requires
        t1 <= t2,
        sorted_by_len(s),
    ensures
        dedup_tol_spec(s, t1).len() >= dedup_tol_spec(s, t2).len(),
        (dedup_tol_spec(s, t1).len() == dedup_tol_spec(s, t2).len() && s.len() > 0)
            ==> dedup_tol_spec(s, t1).last().body_length <= dedup_tol_spec(
            s,
            t2,
        ).last().body_length,
    decreases s.len(),
{
    if s.len() > 0 {
        let p = s.drop_last();
        let x = s.last();
        assert(sorted_by_len(p)) by {
            assert(forall|i: int, j: int|
                0 <= i < j < p.len() ==> #[trigger] p[i].body_length <= #[trigger] p[j].body_length);
        }
        assert(forall|i: int| 0 <= i < p.len() ==> #[trigger] p[i].body_length <= x.body_length);
        lemma_dedup_tolerance_monotone(p, t1, t2);
        lemma_dedup_shape(p, t1);
        lemma_dedup_shape(p, t2);
        lemma_reject_iff_last_near(p, x, t1);
        lemma_reject_iff_last_near(p, x, t2);
        let d1p = dedup_tol_spec(p, t1);
        let d2p = dedup_tol_spec(p, t2);
        let d1 = dedup_tol_spec(s, t1);
        let d2 = dedup_tol_spec(s, t2);
        let r1 = exists|j: int| 0 <= j < d1p.len() && #[trigger] d1p[j].similar_spec(x, t1);
        let r2 = exists|j: int| 0 <= j < d2p.len() && #[trigger] d2p[j].similar_spec(x, t2);
        assert(forall|j: int|
            0 <= j < d1p.len() ==> #[trigger] d1p[j].body_length <= x.body_length) by {
            assert(forall|j: int|
                0 <= j < d1p.len() ==> exists|k: int| 0 <= k < p.len() && p[k] == #[trigger] d1p[j]);
        }
        if r2 {
            assert(d2 == d2p);
            if r1 {
                assert(d1 == d1p);
            } else {
                assert(d1 == d1p.push(x));
            }
        } else {
            assert(d2 == d2p.push(x));
            if r1 {
                // x was near the last survivor under t1 but not near the last
                // survivor under t2, so the t1 walk had strictly more
                // survivors before this step.
                assert(d1 == d1p);
                assert(d1p.len() > 0 && x.body_length - d1p.last().body_length <= t1);
                if p.len() == 0 {
                    assert(d1p.len() == 0);
                }
                assert(p.len() > 0);
                assert(d2p.len() > 0);
                assert(x.body_length - d2p.last().body_length > t2);
                if d1p.len() == d2p.len() {
                    assert(d1p.last().body_length <= d2p.last().body_length);
                    assert(false);
                }
                assert(d1p.len() > d2p.len());
                assert(d1.len() >= d2.len());
                if d1.len() == d2.len() {
                    assert(d1.last() == d1p.last());
                    assert(d1p.last().body_length <= x.body_length);
                }
            } else {
                assert(d1 == d1p.push(x));
            }
        }
    }
}

} // verus!
