use doc_vector_index::vector_store::{
    batch_size, collect_search_results, collect_search_results_with, plan_upsert, ChunkFactor, Embedding, PayloadText, QueryErrors,
    QueryResult, Relevance, ScoredHit, VectorDatabaseInterfaceErrors,
};

fn factor(n: u64, d: u64) -> ChunkFactor {
    ChunkFactor::new(n, d).unwrap()
}

fn emb(values: &[f32]) -> Embedding {
    Embedding { components: values.iter().map(|v| v.to_bits()).collect() }
}

fn strings(v: &[&str]) -> Vec<String> {
    v.iter().map(|s| s.to_string()).collect()
}

fn hit(score: f32, content: PayloadText) -> ScoredHit {
    ScoredHit { score: Relevance { bits: score.to_bits() }, content }
}

#[test]
fn chunk_factor_needs_positive_parts() {
    assert!(ChunkFactor::new(0, 1).is_none());
    assert!(ChunkFactor::new(1, 0).is_none());
    assert_eq!(ChunkFactor::new(3, 2), Some(ChunkFactor { numerator: 3, denominator: 2 }));
}

#[test]
fn batch_size_rounds_up() {
    assert_eq!(batch_size(7, factor(2, 1)), 4);
    assert_eq!(batch_size(8, factor(2, 1)), 4);
    assert_eq!(batch_size(10, factor(3, 1)), 4);
    assert_eq!(batch_size(7, factor(1, 2)), 14);
    assert_eq!(batch_size(5, factor(5, 2)), 2);
}

#[test]
fn batch_size_is_at_least_one() {
    assert_eq!(batch_size(0, factor(2, 1)), 1);
    assert_eq!(batch_size(1, factor(100, 1)), 1);
}

#[test]
fn batch_size_of_largest_inputs() {
    let b = batch_size(usize::MAX, factor(1, u64::MAX));
    assert_eq!(b, (usize::MAX as u128) * (u64::MAX as u128));
}

#[test]
fn seven_slices_with_factor_two_make_batches_of_four_and_three() {
    let texts = strings(&["a", "b", "c", "d", "e", "f", "g"]);
    let ids = strings(&["1", "2", "3", "4", "5", "6", "7"]);
    let vectors: Vec<Embedding> = (0..7).map(|i| emb(&[i as f32, 1.0])).collect();
    let plan = plan_upsert(&"doc".to_string(), &texts, factor(2, 1), &vectors, &ids).unwrap();
    assert_eq!(plan.batch_size, 4);
    assert_eq!(plan.batch_lengths(), vec![4, 3]);
}

#[test]
fn mismatched_texts_and_vectors_are_rejected() {
    let texts = strings(&["a", "b"]);
    let ids = strings(&["1", "2"]);
    let vectors = vec![emb(&[0.5])];
    let r = plan_upsert(&"doc".to_string(), &texts, factor(1, 1), &vectors, &ids);
    assert!(matches!(r, Err(VectorDatabaseInterfaceErrors::TextSlicesMismatchError)));
}

#[test]
fn plan_entries_align_ids_vectors_and_texts() {
    let texts = strings(&["first", "second"]);
    let ids = strings(&["id-1", "id-2"]);
    let vectors = vec![emb(&[0.1, 0.2]), emb(&[0.3, 0.4])];
    let plan = plan_upsert(&"doc-9".to_string(), &texts, factor(3, 2), &vectors, &ids).unwrap();
    assert_eq!(plan.entries.len(), 2);
    for i in 0..2 {
        let e = &plan.entries[i];
        assert_eq!(e.id, ids[i]);
        assert_eq!(e.vector.components, vectors[i].components);
        assert_eq!(e.payload.document_id, "doc-9");
        assert_eq!(e.payload.content, texts[i]);
        assert_eq!(e.payload.chunk_factor, factor(3, 2));
    }
    assert_eq!(plan.batch_size, 2);
}

#[test]
fn empty_document_plans_no_entries() {
    let plan = plan_upsert(&"doc".to_string(), &vec![], factor(1, 1), &vec![], &vec![]).unwrap();
    assert!(plan.entries.is_empty());
    assert_eq!(plan.batch_size, 1);
    assert!(plan.batch_lengths().is_empty());
}

#[test]
fn search_with_no_hits_is_empty_not_error() {
    let r = collect_search_results(vec![]).unwrap();
    assert!(r.is_empty());
}

#[test]
fn search_keeps_ranking_order() {
    let hits = vec![
        hit(1.0, PayloadText::Text("top".to_string())),
        hit(0.5, PayloadText::Text("next".to_string())),
    ];
    let r = collect_search_results(hits).unwrap();
    assert_eq!(r.len(), 2);
    assert_eq!(f32::from_bits(r[0].relevance.bits), 1.0);
    assert_eq!(r[0].content.as_deref(), Some("top"));
    assert_eq!(r[1].content.as_deref(), Some("next"));
}

#[test]
fn non_positive_score_fails_whole_search() {
    let hits = vec![hit(0.9, PayloadText::Text("ok".to_string())), hit(0.0, PayloadText::Text("zero".to_string()))];
    assert!(matches!(collect_search_results(hits), Err(VectorDatabaseInterfaceErrors::SearchError)));
    let hits = vec![hit(-0.3, PayloadText::Text("neg".to_string()))];
    assert!(matches!(collect_search_results(hits), Err(VectorDatabaseInterfaceErrors::SearchError)));
}

#[test]
fn missing_content_fails_whole_search() {
    let hits = vec![hit(0.9, PayloadText::Text("ok".to_string())), hit(0.8, PayloadText::Absent)];
    assert!(matches!(collect_search_results(hits), Err(VectorDatabaseInterfaceErrors::SearchError)));
    let hits = vec![hit(0.8, PayloadText::Other)];
    assert!(matches!(collect_search_results(hits), Err(VectorDatabaseInterfaceErrors::SearchError)));
}

#[test]
fn single_hit_errors_name_the_cause() {
    assert!(matches!(QueryResult::from_scored_hit(hit(-1.0, PayloadText::Absent)), Err(QueryErrors::InvalidScore)));
    assert!(matches!(QueryResult::from_scored_hit(hit(0.7, PayloadText::Absent)), Err(QueryErrors::MissingContent)));
    assert!(matches!(QueryResult::from_scored_hit(hit(0.7, PayloadText::Other)), Err(QueryErrors::MissingContent)));
}

#[test]
fn score_sign_is_read_from_bits() {
    assert!(Relevance { bits: 0.0f32.to_bits() }.is_at_most_zero());
    assert!(Relevance { bits: (-0.0f32).to_bits() }.is_at_most_zero());
    assert!(Relevance { bits: f32::NEG_INFINITY.to_bits() }.is_at_most_zero());
    assert!(Relevance { bits: (-1.0e-40f32).to_bits() }.is_at_most_zero());
    assert!(!Relevance { bits: 1.0e-40f32.to_bits() }.is_at_most_zero());
    assert!(!Relevance { bits: 0.25f32.to_bits() }.is_at_most_zero());
    assert!(!Relevance { bits: f32::INFINITY.to_bits() }.is_at_most_zero());
    assert!(!Relevance { bits: f32::NAN.to_bits() }.is_at_most_zero());
    assert!(!Relevance { bits: (-f32::NAN).to_bits() }.is_at_most_zero());
}

#[test]
fn error_messages() {
    assert_eq!(
        VectorDatabaseInterfaceErrors::TextSlicesMismatchError.message(),
        "The number of text slices MUST be the same as the number of vectors!"
    );
    assert_eq!(VectorDatabaseInterfaceErrors::DeletionError.message(), "Error happens when deleting a slice.");
    assert_eq!(
        VectorDatabaseInterfaceErrors::ScrollError.message(),
        "Error happens when trying to scroll the collection"
    );
}

#[test]
fn mismatched_slice_ids_are_rejected() {
    let texts = strings(&["a", "b"]);
    let ids = strings(&["1"]);
    let vectors = vec![emb(&[0.5]), emb(&[0.6])];
    let r = plan_upsert(&"doc".to_string(), &texts, factor(1, 1), &vectors, &ids);
    assert!(matches!(r, Err(VectorDatabaseInterfaceErrors::TextSlicesMismatchError)));
}

#[test]
fn score_policy_can_admit_non_positive_scores() {
    let hits = vec![hit(0.9, PayloadText::Text("a".to_string())), hit(-0.2, PayloadText::Text("b".to_string()))];
    let r = collect_search_results_with(hits, false).unwrap();
    assert_eq!(r.len(), 2);
    assert_eq!(f32::from_bits(r[1].relevance.bits), -0.2);
    assert_eq!(r[1].content.as_deref(), Some("b"));
    let hits = vec![hit(-0.2, PayloadText::Absent)];
    assert!(matches!(collect_search_results_with(hits, false), Err(VectorDatabaseInterfaceErrors::SearchError)));
    let hits = vec![hit(-0.2, PayloadText::Text("b".to_string()))];
    assert!(matches!(collect_search_results_with(hits, true), Err(VectorDatabaseInterfaceErrors::SearchError)));
    assert!(matches!(
        QueryResult::from_scored_hit_with(hit(0.0, PayloadText::Other), false),
        Err(QueryErrors::MissingContent)
    ));
}
