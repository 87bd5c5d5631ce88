use hyde_search::embedding::{checked_batch, checked_vector, single_embedding};
use hyde_search::model::{Embedding, EmbeddingError, DIM};

#[test]
fn full_length_vector_is_accepted() {
    let raw: Vec<u32> = (0..DIM as u32).collect();
    let e = checked_vector(&raw).unwrap();
    assert_eq!(e.components, raw);
}

#[test]
fn short_vector_is_refused_not_padded() {
    let raw = vec![1u32; 511];
    assert_eq!(
        checked_vector(&raw).unwrap_err(),
        EmbeddingError::DimensionMismatch { found: 511 }
    );
}

#[test]
fn long_vector_is_refused_not_truncated() {
    let raw = vec![1u32; 768];
    assert_eq!(
        checked_vector(&raw).unwrap_err(),
        EmbeddingError::DimensionMismatch { found: 768 }
    );
}

#[test]
fn batch_reports_first_bad_vector() {
    let raws = vec![vec![0u32; DIM], vec![0u32; 10], vec![0u32; 20]];
    assert_eq!(
        checked_batch(&raws, 3).unwrap_err(),
        EmbeddingError::DimensionMismatch { found: 10 }
    );
}

#[test]
fn batch_keeps_order() {
    let raws = vec![vec![1u32; DIM], vec![2u32; DIM]];
    let v = checked_batch(&raws, 2).unwrap();
    assert_eq!(v.len(), 2);
    assert_eq!(v[0].components[0], 1);
    assert_eq!(v[1].components[0], 2);
}

#[test]
fn single_needs_exactly_one_vector() {
    assert_eq!(
        single_embedding(Ok(Vec::new())).unwrap_err(),
        EmbeddingError::CountMismatch { expected: 1, found: 0 }
    );
    let one = single_embedding(Ok(vec![Embedding { components: vec![7u32; DIM] }])).unwrap();
    assert_eq!(one.components[0], 7);
    assert_eq!(single_embedding(Err(EmbeddingError::Upstream)).unwrap_err(), EmbeddingError::Upstream);
}

#[test]
fn batch_with_wrong_vector_count_is_refused() {
    let raws = vec![vec![0u32; DIM], vec![0u32; DIM]];
    assert_eq!(
        checked_batch(&raws, 3).unwrap_err(),
        EmbeddingError::CountMismatch { expected: 3, found: 2 }
    );
    let short = vec![vec![0u32; 5]];
    assert_eq!(
        checked_batch(&short, 2).unwrap_err(),
        EmbeddingError::CountMismatch { expected: 2, found: 1 }
    );
}
