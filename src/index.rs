use vstd::prelude::*;
use crate::model::{Embedding, Metadata};

verus! {

/// One neighbour found by a query: the metadata of the chunk and its distance
/// from the query vector, as the bit pattern of a non-negative IEEE-754
/// single-precision number (for such numbers the bit patterns order as the
/// values do).
#[derive(Debug)]
pub struct ApproxNearNeighResult {
    pub metadata: Metadata,
    pub distance: u32,
}

impl ApproxNearNeighResult {
    pub fn new(metadata: Metadata, distance: u32) -> (r: Self)
        ensures
            r.metadata == metadata,
            r.distance == distance,
    {
        ApproxNearNeighResult { metadata, distance }
    }
}

/// A search hit as the nearest-neighbour search reports it: the position of
/// a vector in the index and its distance.
pub type Hit = (usize, u32);

/// The hits that name a vector of an index of `n` vectors, in their order.
pub open spec fn in_range_hits(hits: Seq<Hit>, n: int) -> Seq<Hit>
    decreases hits.len(),
{
    if hits.len() == 0 {
        hits
    } else {
        let rest = in_range_hits(hits.drop_last(), n);
        if (hits.last().0 as int) < n {
            rest.push(hits.last())
        } else {
            rest
        }
    }
}

/// The snapshot that a similarity index is built from: the vectors and, at
/// the same positions, their metadata.
pub struct AppoxNearestNeighor {
    pub vectors: Vec<Embedding>,
    pub metadata: Vec<Metadata>,
}

impl AppoxNearestNeighor {
    pub open spec fn well_formed(&self) -> bool {
        self.vectors@.len() == self.metadata@.len()
    }

    pub open spec fn len(&self) -> int {
        self.vectors@.len() as int
    }

    /// Takes a snapshot of the vectors and their metadata; the two must be
    /// parallel sequences of one length.
    pub fn build(vectors: &Vec<Embedding>, metadata: &Vec<Metadata>) -> (r: Self)
        requires
            vectors@.len() == metadata@.len(),
        ensures
            r.well_formed(),
            r.vectors@.len() == vectors@.len(),
            forall|i: int| 0 <= i < vectors@.len() ==> #[trigger] r.vectors@[i]@ == vectors@[i]@,
            forall|i: int| 0 <= i < metadata@.len() ==> #[trigger] r.metadata@[i].same_as(&metadata@[i]),
    {
        let mut vs: Vec<Embedding> = Vec::new();
        let mut ms: Vec<Metadata> = Vec::new();
        let mut i: usize = 0;
        while i < vectors.len()
            invariant
                vectors@.len() == metadata@.len(),
                i <= vectors@.len(),
                vs@.len() == i,
                ms@.len() == i,
                forall|x: int| 0 <= x < i ==> #[trigger] vs@[x]@ == vectors@[x]@,
                forall|x: int| 0 <= x < i ==> #[trigger] ms@[x].same_as(&metadata@[x]),
            decreases vectors@.len() - i,
        {
            vs.push(vectors[i].duplicate());
            ms.push(metadata[i].duplicate());
            i = i + 1;
        }
        AppoxNearestNeighor { vectors: vs, metadata: ms }
    }

    /// Turns the hits of a nearest-neighbour search into results: hits that
    /// name no vector of this index are passed over, the others keep their
    /// order, and at most `k` of them are returned.
    pub fn query(&self, hits: &Vec<Hit>, k: usize) -> (r: Vec<ApproxNearNeighResult>)
        requires
            self.well_formed(),
        ensures
            r@.len() == if k < in_range_hits(hits@, self.len()).len() {
                k as int
            } else {
                in_range_hits(hits@, self.len()).len() as int
            },
            forall|t: int| 0 <= t < r@.len() ==> {
                &&& (#[trigger] r@[t]).distance == in_range_hits(hits@, self.len())[t].1
                &&& r@[t].metadata.same_as(&self.metadata@[in_range_hits(hits@, self.len())[t].0 as int])
            },
    {
        let n = self.vectors.len();
        let mut valid: Vec<Hit> = Vec::new();
        let mut i: usize = 0;
        while i < hits.len()
            invariant
                n == self.len(),
                i <= hits@.len(),
                valid@ == in_range_hits(hits@.subrange(0, i as int), n as int),
                forall|t: int| 0 <= t < valid@.len() ==> (#[trigger] valid@[t]).0 < n,
            decreases hits@.len() - i,
        {
            let h = hits[i];
            assert(hits@.subrange(0, i + 1).drop_last() =~= hits@.subrange(0, i as int));
            if h.0 < n {
                valid.push(h);
            }
            i = i + 1;
        }
        assert(hits@.subrange(0, hits@.len() as int) =~= hits@);
        let mut out: Vec<ApproxNearNeighResult> = Vec::new();
        let mut t: usize = 0;
        while t < valid.len() && t < k
            invariant
                self.well_formed(),
                n == self.len(),
                valid@ == in_range_hits(hits@, n as int),
                forall|x: int| 0 <= x < valid@.len() ==> (#[trigger] valid@[x]).0 < n,
                t <= valid@.len(),
                t <= k,
                out@.len() == t,
                forall|x: int| 0 <= x < t ==> {
                    &&& (#[trigger] out@[x]).distance == valid@[x].1
                    &&& out@[x].metadata.same_as(&self.metadata@[valid@[x].0 as int])
                },
            decreases valid@.len() - t,
        {
            let h = valid[t];
            out.push(ApproxNearNeighResult::new(self.metadata[h.0].duplicate(), h.1));
            t = t + 1;
        }
        out
    }
}

/// An index built from no vectors finds nothing, whatever the search hands
/// back and whatever `k`.
pub proof fn lemma_empty_index_finds_nothing(hits: Seq<Hit>)
    ensures
        in_range_hits(hits, 0).len() == 0,
    decreases hits.len(),
{
    if hits.len() > 0 {
        lemma_empty_index_finds_nothing(hits.drop_last());
    }
}

/// Hits that all name vectors of the index are kept as they are.
pub proof fn lemma_all_in_range(hits: Seq<Hit>, n: int)
    requires
        forall|i: int| 0 <= i < hits.len() ==> (#[trigger] hits[i]).0 < n,
    ensures
        in_range_hits(hits, n) == hits,
    decreases hits.len(),
{
    if hits.len() > 0 {
        lemma_all_in_range(hits.drop_last(), n);
        assert(hits.drop_last().push(hits.last()) =~= hits);
    }
}

/// When the search reports at least `k` hits, all naming vectors of the
/// index and in non-decreasing distance, a query returns exactly `k` results
/// in non-decreasing distance.
pub proof fn lemma_query_exact_and_ordered(hits: Seq<Hit>, n: int, k: int)
    requires
        0 <= k <= hits.len(),
        forall|i: int| 0 <= i < hits.len() ==> (#[trigger] hits[i]).0 < n,
        forall|a: int, b: int| 0 <= a <= b < hits.len() ==> #[trigger] hits[a].1 <= #[trigger] hits[b].1,
    ensures
        k <= in_range_hits(hits, n).len(),
        forall|a: int, b: int| 0 <= a <= b < k
            ==> #[trigger] in_range_hits(hits, n)[a].1 <= #[trigger] in_range_hits(hits, n)[b].1,
{
    lemma_all_in_range(hits, n);
}

} // verus!
