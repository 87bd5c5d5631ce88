use hyde_search::corpus::{assemble_batches, batch_texts, BatchOutcome};
use hyde_search::model::{ChunkRecord, Embedding, EmbeddingError, DIM};

fn records(n: usize) -> Vec<ChunkRecord> {
    (0..n)
        .map(|i| ChunkRecord::new(format!("f{}.go", i), format!("code {}", i)))
        .collect()
}

fn vector_of(i: usize) -> Embedding {
    let mut components = vec![0u32; DIM];
    components[0] = i as u32;
    Embedding { components }
}

fn outcomes_for(n: usize, batch_size: usize) -> Vec<BatchOutcome> {
    let mut out = Vec::new();
    let mut start = 0;
    while start < n {
        let end = (start + batch_size).min(n);
        out.push(Ok((start..end).map(vector_of).collect()));
        start = end;
    }
    out
}

#[test]
fn batches_are_contiguous_and_ordered() {
    let recs = records(5);
    let batches = batch_texts(&recs, 2);
    assert_eq!(batches.len(), 3);
    assert_eq!(batches[0], vec!["code 0".to_string(), "code 1".to_string()]);
    assert_eq!(batches[1], vec!["code 2".to_string(), "code 3".to_string()]);
    assert_eq!(batches[2], vec!["code 4".to_string()]);
}

#[test]
fn empty_corpus_gives_empty_output() {
    let recs = records(0);
    assert!(batch_texts(&recs, 32).is_empty());
    let (vecs, metas) = assemble_batches(&recs, 32, &Vec::new()).unwrap();
    assert!(vecs.is_empty());
    assert!(metas.is_empty());
}

#[test]
fn output_keeps_record_order() {
    let recs = records(7);
    let (vecs, metas) = assemble_batches(&recs, 3, &outcomes_for(7, 3)).unwrap();
    assert_eq!(vecs.len(), 7);
    assert_eq!(metas.len(), 7);
    for i in 0..7 {
        assert_eq!(metas[i].file, format!("f{}.go", i));
        assert_eq!(metas[i].code, format!("code {}", i));
        assert_eq!(vecs[i].components[0], i as u32);
        assert_eq!(vecs[i].components.len(), DIM);
    }
}

#[test]
fn batch_size_does_not_change_output() {
    let recs = records(6);
    let mut results = Vec::new();
    for b in [1usize, 2, 4, 6, 10] {
        let (vecs, metas) = assemble_batches(&recs, b, &outcomes_for(6, b)).unwrap();
        let flat: Vec<(u32, String, String)> = vecs
            .iter()
            .zip(metas.iter())
            .map(|(v, m)| (v.components[0], m.file.clone(), m.code.clone()))
            .collect();
        results.push(flat);
    }
    for r in &results[1..] {
        assert_eq!(r, &results[0]);
    }
}

#[test]
fn first_failed_batch_aborts_build() {
    let recs = records(6);
    let mut outcomes = outcomes_for(6, 2);
    outcomes[1] = Err(EmbeddingError::Upstream);
    outcomes[2] = Err(EmbeddingError::DimensionMismatch { found: 3 });
    let err = assemble_batches(&recs, 2, &outcomes).unwrap_err();
    assert_eq!(err.batch, 1);
    assert_eq!(err.cause, EmbeddingError::Upstream);
}

#[test]
fn wrong_vector_count_is_fatal() {
    let recs = records(5);
    let mut outcomes = outcomes_for(5, 2);
    outcomes[2] = Ok(vec![vector_of(4), vector_of(5)]);
    let err = assemble_batches(&recs, 2, &outcomes).unwrap_err();
    assert_eq!(err.batch, 2);
    assert_eq!(err.cause, EmbeddingError::CountMismatch { expected: 1, found: 2 });
}
