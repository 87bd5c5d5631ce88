use vstd::prelude::*;
use crate::model::{DIM, Embedding, EmbeddingError};

verus! {

/// Accepts a raw vector only when it has exactly `DIM` components; a vector
/// of any other length is refused, never cut or padded.
pub fn checked_vector(raw: &Vec<u32>) -> (r: Result<Embedding, EmbeddingError>)
    ensures
        raw@.len() == DIM ==> (r matches Ok(e) && e@ == raw@ && e.well_formed()),
        raw@.len() != DIM ==> r == Err::<Embedding, EmbeddingError>(
            (EmbeddingError::DimensionMismatch { found: raw@.len() as usize }),
        ),
{
    if raw.len() != DIM {
        return Err(EmbeddingError::DimensionMismatch { found: raw.len() });
    }
    let components = raw.clone();
    assert(components@ =~= raw@);
    Ok(Embedding { components })
}

/// Index of the first raw vector that does not have `DIM` components, if any.
pub open spec fn first_bad_dimension(raws: Seq<Vec<u32>>) -> int
    decreases raws.len(),
{
    if raws.len() == 0 {
        0
    } else if raws[0]@.len() != DIM {
        0
    } else {
        1 + first_bad_dimension(raws.drop_first())
    }
}

proof fn lemma_first_bad(raws: Seq<Vec<u32>>, i: int)
    requires
        0 <= i <= raws.len(),
        forall|x: int| 0 <= x < i ==> #[trigger] raws[x]@.len() == DIM,
        i < raws.len() ==> raws[i]@.len() != DIM,
    ensures
        first_bad_dimension(raws) == i,
    decreases i,
{
    if i > 0 {
        assert forall|x: int| 0 <= x < i - 1 implies #[trigger] raws.drop_first()[x]@.len() == DIM by {
            assert(raws.drop_first()[x] == raws[x + 1]);
        }
        if i < raws.len() {
            assert(raws.drop_first()[i - 1] == raws[i]);
        }
        lemma_first_bad(raws.drop_first(), i - 1);
    }
}

/// Checks what a batch call for `expected` texts returned: one vector per
/// text, each with `DIM` components, in order. A wrong number of vectors is
/// reported first; otherwise the first vector of the wrong length is.
pub fn checked_batch(raws: &Vec<Vec<u32>>, expected: usize) -> (r: Result<Vec<Embedding>, EmbeddingError>)
    ensures
        raws@.len() != expected ==> r == Err::<Vec<Embedding>, EmbeddingError>(
            (EmbeddingError::CountMismatch { expected, found: raws@.len() as usize }),
        ),
        r is Ok <==> raws@.len() == expected
            && forall|i: int| 0 <= i < raws@.len() ==> #[trigger] raws@[i]@.len() == DIM,
        r matches Ok(v) ==> v@.len() == raws@.len()
            && forall|i: int| 0 <= i < raws@.len() ==> #[trigger] v@[i]@ == raws@[i]@ && v@[i].well_formed(),
        raws@.len() == expected ==> (r matches Err(e) ==> first_bad_dimension(raws@) < raws@.len()
            && e == (EmbeddingError::DimensionMismatch {
                found: raws@[first_bad_dimension(raws@)]@.len() as usize,
            })),
{
    if raws.len() != expected {
        return Err(EmbeddingError::CountMismatch { expected, found: raws.len() });
    }
    let mut out: Vec<Embedding> = Vec::new();
    let mut i: usize = 0;
    while i < raws.len()
        invariant
            raws@.len() == expected,
            i <= raws@.len(),
            out@.len() == i,
            forall|x: int| 0 <= x < i ==> #[trigger] raws@[x]@.len() == DIM,
            forall|x: int| 0 <= x < i ==> #[trigger] out@[x]@ == raws@[x]@ && out@[x].well_formed(),
        decreases raws@.len() - i,
    {
        match checked_vector(&raws[i]) {
            Ok(e) => {
                out.push(e);
            },
            Err(err) => {
                proof { lemma_first_bad(raws@, i as int); }
                return Err(err);
            },
        }
        i = i + 1;
    }
    Ok(out)
}

/// The single-text form: the batch call for one text must give exactly one
/// vector.
pub fn single_embedding(batch: Result<Vec<Embedding>, EmbeddingError>) -> (r: Result<Embedding, EmbeddingError>)
    ensures
        batch matches Err(e) ==> r == Err::<Embedding, EmbeddingError>(e),
        batch matches Ok(v) ==> {
            &&& v@.len() == 1 ==> (r matches Ok(x) && x@ == v@[0]@)
            &&& v@.len() != 1 ==> r == Err::<Embedding, EmbeddingError>(
                (EmbeddingError::CountMismatch { expected: 1, found: v@.len() as usize }),
            )
        },
{
    match batch {
        Err(e) => Err(e),
        Ok(mut v) => {
            if v.len() != 1 {
                return Err(EmbeddingError::CountMismatch { expected: 1, found: v.len() });
            }
            Ok(v.remove(0))
        },
    }
}

} // verus!
