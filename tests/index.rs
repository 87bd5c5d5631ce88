use hyde_search::corpus::{assemble_batches, batch_texts, BatchOutcome};
use hyde_search::embedding::checked_batch;
use hyde_search::index::AppoxNearestNeighor;
use hyde_search::model::{ChunkRecord, Embedding, Metadata, DIM};

fn unit(i: usize) -> [f32; 512] {
    let mut v = [0.0f32; 512];
    v[i] = 1.0;
    v
}

fn bits(v: &[f32; 512]) -> Embedding {
    Embedding { components: v.iter().map(|x| x.to_bits()).collect() }
}

fn meta(file: &str, code: &str) -> Metadata {
    ChunkRecord::new(file.to_string(), code.to_string()).metadata()
}

#[test]
fn nearest_chunk_is_found_at_distance_zero() {
    let floats = vec![unit(0), unit(1)];
    let vectors: Vec<Embedding> = floats.iter().map(bits).collect();
    let metas = vec![
        meta("a.go", "func Add(a,b int) int { return a+b }"),
        meta("b.go", "func Sub(a,b int) int { return a-b }"),
    ];
    let ann = AppoxNearestNeighor::build(&vectors, &metas);
    let index = vector::Index::build(&floats, 1, 1, 42);
    let hits: Vec<(usize, u32)> = index
        .search(&floats, &unit(0), 1)
        .into_iter()
        .map(|(i, d)| (i, d.to_bits()))
        .collect();
    let results = ann.query(&hits, 1);
    assert_eq!(results.len(), 1);
    assert_eq!(results[0].metadata.file, "a.go");
    assert_eq!(f32::from_bits(results[0].distance), 0.0);
}

#[test]
fn empty_index_returns_nothing() {
    let ann = AppoxNearestNeighor::build(&Vec::new(), &Vec::new());
    assert!(ann.query(&Vec::new(), 5).is_empty());
    assert!(ann.query(&vec![(0, 0), (3, 7)], 5).is_empty());
    assert!(ann.query(&vec![(0, 0)], 0).is_empty());
}

#[test]
fn query_returns_exactly_k_in_order() {
    let vectors: Vec<Embedding> = (0..3).map(|i| Embedding { components: vec![i; DIM] }).collect();
    let metas = vec![meta("x.go", "x"), meta("y.go", "y"), meta("z.go", "z")];
    let ann = AppoxNearestNeighor::build(&vectors, &metas);
    let hits = vec![(2usize, 1.0f32.to_bits()), (0, 2.0f32.to_bits()), (1, 3.0f32.to_bits())];
    let results = ann.query(&hits, 2);
    assert_eq!(results.len(), 2);
    assert_eq!(results[0].metadata.file, "z.go");
    assert_eq!(results[1].metadata.file, "x.go");
    assert!(f32::from_bits(results[0].distance) <= f32::from_bits(results[1].distance));
}

#[test]
fn hits_outside_the_index_are_passed_over() {
    let vectors = vec![Embedding { components: vec![0; DIM] }];
    let metas = vec![meta("only.go", "x")];
    let ann = AppoxNearestNeighor::build(&vectors, &metas);
    let results = ann.query(&vec![(4, 1), (0, 2)], 3);
    assert_eq!(results.len(), 1);
    assert_eq!(results[0].metadata.file, "only.go");
    assert_eq!(results[0].distance, 2);
}

#[test]
fn two_chunk_corpus_end_to_end() {
    let records = vec![
        ChunkRecord::new("a.go".to_string(), "func Add(a,b int) int { return a+b }".to_string()),
        ChunkRecord::new("b.go".to_string(), "func Sub(a,b int) int { return a-b }".to_string()),
    ];
    let stub = |text: &String| -> Vec<u32> {
        let v = if text.contains("Add") { unit(0) } else { unit(1) };
        v.iter().map(|x| x.to_bits()).collect()
    };
    let outcomes: Vec<BatchOutcome> = batch_texts(&records, 1)
        .iter()
        .map(|texts| checked_batch(&texts.iter().map(stub).collect(), texts.len()))
        .collect();
    let (vecs, metas) = assemble_batches(&records, 1, &outcomes).unwrap();
    let floats: Vec<[f32; 512]> = vecs
        .iter()
        .map(|e| {
            let mut v = [0.0f32; 512];
            for (slot, b) in v.iter_mut().zip(e.components.iter()) {
                *slot = f32::from_bits(*b);
            }
            v
        })
        .collect();
    let ann = AppoxNearestNeighor::build(&vecs, &metas);
    let index = vector::Index::build(&floats, 1, 1, 42);
    let hits: Vec<(usize, u32)> = index
        .search(&floats, &unit(0), 1)
        .into_iter()
        .map(|(i, d)| (i, d.to_bits()))
        .collect();
    let results = ann.query(&hits, 1);
    assert_eq!(results.len(), 1);
    assert_eq!(results[0].metadata.file, "a.go");
    assert_eq!(results[0].metadata.code, "func Add(a,b int) int { return a+b }");
    assert_eq!(f32::from_bits(results[0].distance), 0.0);
}
