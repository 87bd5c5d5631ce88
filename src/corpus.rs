use vstd::prelude::*;
use vstd::arithmetic::div_mod::lemma_fundamental_div_mod_converse;
use crate::model::{ChunkRecord, Embedding, EmbeddingBuildError, EmbeddingError, Metadata};

verus! {

/// What one batch's embedding call gave back.
pub type BatchOutcome = Result<Vec<Embedding>, EmbeddingError>;

/// Number of contiguous batches of at most `b` records that `n` records make.
pub open spec fn batch_count(n: int, b: int) -> int {
    (n + b - 1) / b
}

/// Number of records in batch `i`.
pub open spec fn batch_len(n: int, b: int, i: int) -> int {
    if (i + 1) * b <= n {
        b
    } else {
        n - i * b
    }
}

/// Batch `i` came back whole: vectors, one for each of its records.
pub open spec fn batch_ok(n: int, b: int, outcomes: Seq<BatchOutcome>, i: int) -> bool {
    outcomes[i] is Ok && outcomes[i]->Ok_0@.len() == batch_len(n, b, i)
}

/// Why batch `i` is refused.
pub open spec fn failure_cause(n: int, b: int, outcomes: Seq<BatchOutcome>, i: int) -> EmbeddingError {
    match outcomes[i] {
        Ok(v) => EmbeddingError::CountMismatch {
            expected: batch_len(n, b, i) as usize,
            found: v@.len() as usize,
        },
        Err(e) => e,
    }
}

/// The vector that batch outcomes give to record `j`.
pub open spec fn vector_for(b: int, outcomes: Seq<BatchOutcome>, j: int) -> Seq<u32> {
    outcomes[j / b]->Ok_0@[j % b]@
}

pub proof fn lemma_batch_bounds(n: int, b: int)
    requires
        n >= 0,
        b >= 1,
    ensures
        batch_count(n, b) >= 0,
        batch_count(n, b) * b >= n,
        forall|i: int| 0 <= i < batch_count(n, b) ==> #[trigger] (i * b) < n,
        n > 0 ==> batch_count(n, b) >= 1,
{
    let q = batch_count(n, b);
    let r = (n + b - 1) % b;
    vstd::arithmetic::div_mod::lemma_fundamental_div_mod(n + b - 1, b);
    vstd::arithmetic::div_mod::lemma_mod_pos_bound(n + b - 1, b);
    assert(n + b - 1 == q * b + r) by (nonlinear_arith)
        requires n + b - 1 == b * q + r;
    assert(q >= 0) by (nonlinear_arith)
        requires n + b - 1 == q * b + r, 0 <= r < b, n >= 0, b >= 1;
    assert(q * b >= n);
    assert forall|i: int| 0 <= i < q implies #[trigger] (i * b) < n by {
        assert(i * b < n) by (nonlinear_arith)
            requires i <= q - 1, b >= 1, n + b - 1 == q * b + r, 0 <= r < b;
    }
    if n > 0 {
        assert(q >= 1) by (nonlinear_arith)
            requires q * b >= n, n > 0, b >= 1;
    }
}

proof fn lemma_position(b: int, i: int, t: int)
    requires
        b >= 1,
        i >= 0,
        0 <= t < b,
    ensures
        (i * b + t) / b == i,
        (i * b + t) % b == t,
{
    lemma_fundamental_div_mod_converse(i * b + t, b, i, t);
}

/// Splits the records into contiguous batches of at most `batch_size` texts,
/// in their input order.
pub fn batch_texts(records: &Vec<ChunkRecord>, batch_size: usize) -> (r: Vec<Vec<String>>)
    requires
        batch_size >= 1,
    ensures
        r@.len() == batch_count(records@.len() as int, batch_size as int),
        forall|i: int| 0 <= i < r@.len() ==> #[trigger] r@[i]@.len() == batch_len(records@.len() as int, batch_size as int, i),
        forall|i: int, t: int| 0 <= i < r@.len() && 0 <= t < r@[i]@.len()
            ==> #[trigger] r@[i]@[t]@ == records@[i * batch_size + t].text@,
{
    let n = records.len();
    let ghost b = batch_size as int;
    proof { lemma_batch_bounds(n as int, b); }
    let mut out: Vec<Vec<String>> = Vec::new();
    let mut start: usize = 0;
    proof {
        assert(0 * b == 0) by (nonlinear_arith);
        if n == 0 && batch_count(n as int, b) >= 1 {
            assert(0 * b < n);
        }
    }
    while start < n
        invariant
            n == records@.len(),
            b == batch_size as int,
            b >= 1,
            start <= n,
            start == n || start == out@.len() * b,
            start < n ==> out@.len() < batch_count(n as int, b),
            start == n ==> out@.len() == batch_count(n as int, b),
            forall|i: int| 0 <= i < out@.len() ==> #[trigger] out@[i]@.len() == batch_len(n as int, b, i),
            forall|i: int, t: int| 0 <= i < out@.len() && 0 <= t < out@[i]@.len()
                ==> #[trigger] out@[i]@[t]@ == records@[i * b + t].text@,
            batch_count(n as int, b) * b >= n,
            forall|i: int| 0 <= i < batch_count(n as int, b) ==> #[trigger] (i * b) < n,
        decreases n - start,
    {
        let end: usize = if n - start > batch_size { start + batch_size } else { n };
        let mut batch: Vec<String> = Vec::new();
        let mut j: usize = start;
        while j < end
            invariant
                start <= j <= end <= n,
                n == records@.len(),
                batch@.len() == j - start,
                forall|t: int| 0 <= t < batch@.len() ==> #[trigger] batch@[t]@ == records@[start + t].text@,
            decreases end - j,
        {
            batch.push(records[j].text.clone());
            j = j + 1;
        }
        let ghost i = out@.len() as int;
        let ghost old_out = out@;
        proof {
            assert(start as int == i * b);
            assert((i + 1) * b == i * b + b) by (nonlinear_arith);
            assert(batch@.len() == batch_len(n as int, b, i));
        }
        out.push(batch);
        proof {
            let k = i + 1;
            assert(out@[i] == batch);
            assert forall|x: int| 0 <= x < out@.len() implies #[trigger] out@[x]@.len() == batch_len(n as int, b, x) by {
                if x < i { assert(out@[x] == old_out[x]); }
            }
            assert forall|x: int, t: int| 0 <= x < out@.len() && 0 <= t < out@[x]@.len()
                implies #[trigger] out@[x]@[t]@ == records@[x * b + t].text@ by {
                if x < i { assert(out@[x] == old_out[x]); }
            }
            if end < n {
                assert(end as int == k * b);
                if k >= batch_count(n as int, b) {
                    assert(k * b >= batch_count(n as int, b) * b) by (nonlinear_arith)
                        requires k >= batch_count(n as int, b), b >= 1;
                }
            } else {
                if k < batch_count(n as int, b) {
                    assert(k * b < n);
                }
            }
        }
        start = end;
    }
    out
}


/// Reassembles the outcomes of the batch calls, taken in batch order, into
/// one sequence of vectors and a parallel sequence of metadata, in the
/// order of the records. The first batch that failed, or that returned a
/// number of vectors other than its number of records, aborts the whole
/// build and nothing of the rest is kept.
pub fn assemble_batches(
    records: &Vec<ChunkRecord>,
    batch_size: usize,
    outcomes: &Vec<BatchOutcome>,
) -> (r: Result<(Vec<Embedding>, Vec<Metadata>), EmbeddingBuildError>)
    requires
        batch_size >= 1,
        outcomes@.len() == batch_count(records@.len() as int, batch_size as int),
    ensures
        r is Ok <==> forall|i: int| 0 <= i < outcomes@.len()
            ==> #[trigger] batch_ok(records@.len() as int, batch_size as int, outcomes@, i),
        r matches Err(e) ==> {
            &&& 0 <= e.batch < outcomes@.len()
            &&& !batch_ok(records@.len() as int, batch_size as int, outcomes@, e.batch as int)
            &&& forall|i: int| 0 <= i < e.batch
                ==> #[trigger] batch_ok(records@.len() as int, batch_size as int, outcomes@, i)
            &&& e.cause == failure_cause(records@.len() as int, batch_size as int, outcomes@, e.batch as int)
        },
        r matches Ok((vecs, metas)) ==> {
            &&& vecs@.len() == records@.len()
            &&& metas@.len() == records@.len()
            &&& forall|j: int| 0 <= j < records@.len()
                ==> #[trigger] records@[j].provenance_matches(&metas@[j])
            &&& forall|j: int| 0 <= j < records@.len()
                ==> #[trigger] vecs@[j]@ == vector_for(batch_size as int, outcomes@, j)
        },
{
    let n = records.len();
    let ghost b = batch_size as int;
    proof { lemma_batch_bounds(n as int, b); }
    let mut vecs: Vec<Embedding> = Vec::new();
    let mut metas: Vec<Metadata> = Vec::new();
    let mut i: usize = 0;
    while i < outcomes.len()
        invariant
            n == records@.len(),
            b == batch_size as int,
            b >= 1,
            outcomes@.len() == batch_count(n as int, b),
            batch_count(n as int, b) * b >= n,
            forall|x: int| 0 <= x < batch_count(n as int, b) ==> #[trigger] (x * b) < n,
            i <= outcomes@.len(),
            forall|x: int| 0 <= x < i ==> #[trigger] batch_ok(n as int, b, outcomes@, x),
            vecs@.len() == metas@.len(),
            vecs@.len() == if i * b <= n { i * b } else { n as int },
            forall|j: int| 0 <= j < vecs@.len() ==> #[trigger] records@[j].provenance_matches(&metas@[j]),
            forall|j: int| 0 <= j < vecs@.len() ==> #[trigger] vecs@[j]@ == vector_for(b, outcomes@, j),
        decreases outcomes@.len() - i,
    {
        let ghost ib = i * b;
        proof {
            assert(ib < n);
            assert((i + 1) * b == ib + b) by (nonlinear_arith)
                requires ib == i * b;
        }
        let start: usize = i * batch_size;
        let expected: usize = if n - start > batch_size { batch_size } else { n - start };
        assert(expected == batch_len(n as int, b, i as int));
        match &outcomes[i] {
            Err(e) => {
                assert(!batch_ok(n as int, b, outcomes@, i as int));
                return Err(EmbeddingBuildError { batch: i, cause: *e });
            },
            Ok(batch) => {
                if batch.len() != expected {
                    assert(!batch_ok(n as int, b, outcomes@, i as int));
                    return Err(EmbeddingBuildError {
                        batch: i,
                        cause: EmbeddingError::CountMismatch { expected, found: batch.len() },
                    });
                }
                let mut t: usize = 0;
                while t < expected
                    invariant
                        n == records@.len(),
                        b == batch_size as int,
                        b >= 1,
                        start == i * b,
                        start + expected <= n,
                        expected <= batch_size,
                        batch@.len() == expected,
                        outcomes@[i as int] == Ok::<Vec<Embedding>, EmbeddingError>(*batch),
                        t <= expected,
                        i < outcomes@.len(),
                        vecs@.len() == metas@.len(),
                        vecs@.len() == start + t,
                        forall|j: int| 0 <= j < vecs@.len() ==> #[trigger] records@[j].provenance_matches(&metas@[j]),
                        forall|j: int| 0 <= j < vecs@.len() ==> #[trigger] vecs@[j]@ == vector_for(b, outcomes@, j),
                    decreases expected - t,
                {
                    proof { lemma_position(b, i as int, t as int); }
                    vecs.push(batch[t].duplicate());
                    metas.push(records[start + t].metadata());
                    t = t + 1;
                }
            },
        }
        i = i + 1;
        proof {
            if i * b > n {
                assert(i * b >= n);
            }
        }
    }
    proof {
        if i * b > n {
            assert(i * b == batch_count(n as int, b) * b);
        }
    }
    Ok((vecs, metas))
}


/// The outcomes are what an embedder that gives each text the vector in
/// `per_record` returns for the batches of size `b`.
pub open spec fn outcomes_from(n: int, b: int, outcomes: Seq<BatchOutcome>, per_record: Seq<Seq<u32>>) -> bool {
    &&& outcomes.len() == batch_count(n, b)
    &&& forall|i: int| 0 <= i < outcomes.len() ==> {
        &&& (#[trigger] outcomes[i]) is Ok
        &&& outcomes[i]->Ok_0@.len() == batch_len(n, b, i)
        &&& forall|t: int| 0 <= t < batch_len(n, b, i) ==> #[trigger] outcomes[i]->Ok_0@[t]@ == per_record[i * b + t]
    }
}

proof fn lemma_lookup(n: int, b: int, outcomes: Seq<BatchOutcome>, per_record: Seq<Seq<u32>>, j: int)
    requires
        b >= 1,
        0 <= j < n,
        outcomes_from(n, b, outcomes, per_record),
    ensures
        vector_for(b, outcomes, j) == per_record[j],
{
    lemma_batch_bounds(n, b);
    let q = j / b;
    let r = j % b;
    vstd::arithmetic::div_mod::lemma_fundamental_div_mod(j, b);
    vstd::arithmetic::div_mod::lemma_mod_pos_bound(j, b);
    assert(j == q * b + r) by (nonlinear_arith)
        requires j == b * q + r;
    assert(q >= 0) by (nonlinear_arith)
        requires j == q * b + r, 0 <= r < b, j >= 0, b >= 1;
    if q >= batch_count(n, b) {
        assert(q * b >= batch_count(n, b) * b) by (nonlinear_arith)
            requires q >= batch_count(n, b), b >= 1;
    }
    assert((q + 1) * b == q * b + b) by (nonlinear_arith);
    assert(r < batch_len(n, b, q));
    assert(outcomes[q] is Ok);
}

/// However the records are cut into batches, an embedder that gives every
/// text the same vector leads to the same ordered output: every batch comes
/// back whole, and record `j` gets its own vector under either batch size.
pub proof fn lemma_batch_size_invariant(
    n: int,
    b1: int,
    b2: int,
    o1: Seq<BatchOutcome>,
    o2: Seq<BatchOutcome>,
    per_record: Seq<Seq<u32>>,
)
    requires
        n >= 0,
        b1 >= 1,
        b2 >= 1,
        per_record.len() == n,
        outcomes_from(n, b1, o1, per_record),
        outcomes_from(n, b2, o2, per_record),
    ensures
        forall|i: int| 0 <= i < o1.len() ==> #[trigger] batch_ok(n, b1, o1, i),
        forall|i: int| 0 <= i < o2.len() ==> #[trigger] batch_ok(n, b2, o2, i),
        forall|j: int| 0 <= j < n ==> #[trigger] vector_for(b1, o1, j) == vector_for(b2, o2, j),
        forall|j: int| 0 <= j < n ==> #[trigger] vector_for(b1, o1, j) == per_record[j],
{
    assert forall|j: int| 0 <= j < n implies #[trigger] vector_for(b1, o1, j) == vector_for(b2, o2, j)
        && vector_for(b1, o1, j) == per_record[j] by {
        lemma_lookup(n, b1, o1, per_record, j);
        lemma_lookup(n, b2, o2, per_record, j);
    }
}

} // verus!
