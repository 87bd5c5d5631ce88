use hyde_search::chunking::{chunk_file, has_go_extension};
use hyde_search::model::ChunkRecord;
use hyde_search::prompt::{decimal_string, explain_request, hypothetical_prompt, synthesis_prompt};

#[test]
fn decimal_numbers() {
    assert_eq!(decimal_string(0), "0");
    assert_eq!(decimal_string(7), "7");
    assert_eq!(decimal_string(1000), "1000");
    assert_eq!(decimal_string(90210), "90210");
}

#[test]
fn explain_request_uses_default_system() {
    let r = explain_request("x := 1", None);
    assert_eq!(r.user, "Explain the following Golang code in detail:\n\nx := 1");
    assert_eq!(r.system, "You are a Golang expert. Explain the code clearly and concisely.");
    let r = explain_request("y", Some("sys"));
    assert_eq!(r.system, "sys");
}

#[test]
fn hypothetical_prompt_text() {
    let p = hypothetical_prompt(1000, "add two numbers");
    assert!(p.ends_with("must fit within 1000 characters.\n\nQuery: add two numbers\n\nHypothetical Document:"));
}

#[test]
fn synthesis_prompt_joins_snippets() {
    let metas = vec![
        ChunkRecord::new("a.go".to_string(), "A".to_string()).metadata(),
        ChunkRecord::new("b.go".to_string(), "B".to_string()).metadata(),
    ];
    let p = synthesis_prompt("q", &metas);
    assert_eq!(
        p,
        "Given the following user query:\nq\n\nand these relevant code snippets:\nFile: a.go\nCode:\nA\n\n---\nFile: b.go\nCode:\nB\n\n\nProvide a detailed answer, referencing the code where appropriate."
    );
}

#[test]
fn go_extension() {
    assert!(has_go_extension("./data/main.go"));
    assert!(has_go_extension("x.go"));
    assert!(!has_go_extension("./data/.go"));
    assert!(!has_go_extension(".go"));
    assert!(!has_go_extension("main.rs"));
    assert!(!has_go_extension("main.gox"));
}

#[test]
fn go_file_is_chunked() {
    let code = "package main\n\nfunc Add(a, b int) int {\n\treturn a + b\n}\n\nfunc Sub(a, b int) int {\n\treturn a - b\n}\n";
    let records = chunk_file("m.go", &code.as_bytes().to_vec(), 1000).unwrap();
    assert!(!records.is_empty());
    for r in &records {
        assert_eq!(r.source_id, "m.go");
        assert!(code.contains(r.text.as_str()));
    }
    assert!(records.iter().any(|r| r.text.contains("func Add")));
    let small = chunk_file("m.go", &code.as_bytes().to_vec(), 40).unwrap();
    assert!(small.len() >= 2);
}

#[test]
fn empty_file_has_no_chunks() {
    let records = chunk_file("e.go", &Vec::new(), 1000).unwrap();
    assert!(records.is_empty());
}
