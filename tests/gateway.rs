use doc_vector_index::gateway::{
    recover_chunk_factor, CollectionSetup, DocumentUpdate, InitAction, InitEvent, InitStage, ScrollOutcome,
    UpdateAction, UpdateEvent, UpdateStage,
};
use doc_vector_index::vector_store::{plan_upsert, ChunkFactor, Embedding, VectorDatabaseInterfaceErrors};

fn factor(n: u64, d: u64) -> ChunkFactor {
    ChunkFactor::new(n, d).unwrap()
}

fn strings(v: &[&str]) -> Vec<String> {
    v.iter().map(|s| s.to_string()).collect()
}

fn emb(x: f32) -> Embedding {
    Embedding { components: vec![x.to_bits(), (x + 1.0).to_bits()] }
}

#[test]
fn initialize_existing_collection_twice_reuses_it() {
    for _ in 0..2 {
        let mut setup = CollectionSetup::new("documents".to_string(), 1024);
        assert_eq!(setup.step(InitEvent::Connected(true)), InitAction::CheckCollection);
        assert_eq!(setup.step(InitEvent::CollectionChecked(Some(true))), InitAction::Ready);
        assert_eq!(setup.stage, InitStage::Ready);
        assert_eq!(setup.collection_name, "documents");
    }
}

#[test]
fn initialize_creates_missing_collection() {
    let mut setup = CollectionSetup::new("documents".to_string(), 384);
    assert_eq!(setup.step(InitEvent::Connected(true)), InitAction::CheckCollection);
    assert_eq!(
        setup.step(InitEvent::CollectionChecked(Some(false))),
        InitAction::CreateCollection { dimensionality: 384 }
    );
    assert_eq!(setup.step(InitEvent::CollectionCreated(true)), InitAction::Ready);
    assert_eq!(setup.stage, InitStage::Ready);
}

#[test]
fn initialize_failures() {
    let mut setup = CollectionSetup::new("c".to_string(), 8);
    assert_eq!(
        setup.step(InitEvent::Connected(false)),
        InitAction::Fail(VectorDatabaseInterfaceErrors::ConnectionError)
    );
    assert_eq!(setup.stage, InitStage::Failed);

    let mut setup = CollectionSetup::new("c".to_string(), 8);
    setup.step(InitEvent::Connected(true));
    assert_eq!(
        setup.step(InitEvent::CollectionChecked(None)),
        InitAction::Fail(VectorDatabaseInterfaceErrors::ConnectionError)
    );

    let mut setup = CollectionSetup::new("c".to_string(), 8);
    setup.step(InitEvent::Connected(true));
    setup.step(InitEvent::CollectionChecked(Some(false)));
    assert_eq!(
        setup.step(InitEvent::CollectionCreated(false)),
        InitAction::Fail(VectorDatabaseInterfaceErrors::CollectionCreationError)
    );
}

#[test]
fn initialize_ignores_out_of_order_events() {
    let mut setup = CollectionSetup::new("c".to_string(), 8);
    assert_eq!(setup.step(InitEvent::CollectionCreated(true)), InitAction::Ignore);
    assert_eq!(setup.stage, InitStage::Connecting);
}

#[test]
fn recover_reads_first_entry() {
    let f = factor(5, 2);
    assert_eq!(recover_chunk_factor(&ScrollOutcome::Entries(vec![Some(f)])), Ok(f));
    assert_eq!(
        recover_chunk_factor(&ScrollOutcome::Entries(vec![])),
        Err(VectorDatabaseInterfaceErrors::ScrollError)
    );
    assert_eq!(
        recover_chunk_factor(&ScrollOutcome::Entries(vec![None])),
        Err(VectorDatabaseInterfaceErrors::ScrollError)
    );
    assert_eq!(
        recover_chunk_factor(&ScrollOutcome::Entries(vec![Some(ChunkFactor { numerator: 0, denominator: 1 })])),
        Err(VectorDatabaseInterfaceErrors::ScrollError)
    );
    assert_eq!(recover_chunk_factor(&ScrollOutcome::Failed), Err(VectorDatabaseInterfaceErrors::ScrollError));
}

#[test]
fn update_without_chunk_factor_keeps_stored_one() {
    let stored_factor = factor(3, 1);
    let stored = plan_upsert(
        &"doc".to_string(),
        &strings(&["old one", "old two"]),
        stored_factor,
        &vec![emb(0.1), emb(0.2)],
        &strings(&["o1", "o2"]),
    )
    .unwrap();
    let read_back: Vec<Option<ChunkFactor>> = stored.entries.iter().take(1).map(|e| Some(e.payload.chunk_factor)).collect();

    let (mut update, first) = DocumentUpdate::start(
        "doc".to_string(),
        strings(&["a", "b", "c", "d", "e", "f", "g"]),
        None,
        (0..7).map(|i| emb(i as f32)).collect(),
        strings(&["1", "2", "3", "4", "5", "6", "7"]),
    );
    assert!(matches!(first, UpdateAction::ScrollOne));
    assert_eq!(update.stage, UpdateStage::Resolving);
    let next = update.on_event(UpdateEvent::Scrolled(ScrollOutcome::Entries(read_back)));
    assert!(matches!(next, UpdateAction::DeleteAll));
    match update.on_event(UpdateEvent::Deleted(true)) {
        UpdateAction::Upsert(plan) => {
            assert_eq!(plan.entries.len(), 7);
            assert!(plan.entries.iter().all(|e| e.payload.chunk_factor == stored_factor));
            assert_eq!(plan.batch_size, 3);
            assert_eq!(plan.batch_lengths(), vec![3, 3, 1]);
        }
        _ => panic!("expected the write of the new entries"),
    }
    assert!(matches!(update.on_event(UpdateEvent::Written(true)), UpdateAction::Finish(None)));
    assert_eq!(update.stage, UpdateStage::Done);
}

#[test]
fn update_with_chunk_factor_skips_scroll() {
    let (mut update, first) = DocumentUpdate::start(
        "doc".to_string(),
        strings(&["a"]),
        Some(factor(2, 1)),
        vec![emb(0.5)],
        strings(&["1"]),
    );
    assert!(matches!(first, UpdateAction::DeleteAll));
    match update.on_event(UpdateEvent::Deleted(true)) {
        UpdateAction::Upsert(plan) => assert_eq!(plan.entries[0].payload.chunk_factor, factor(2, 1)),
        _ => panic!("expected the write of the new entries"),
    }
}

#[test]
fn update_mismatch_ends_before_any_request() {
    let (update, first) =
        DocumentUpdate::start("doc".to_string(), strings(&["a", "b"]), None, vec![emb(0.5)], strings(&["1", "2"]));
    assert!(matches!(first, UpdateAction::Finish(Some(VectorDatabaseInterfaceErrors::TextSlicesMismatchError))));
    assert_eq!(update.stage, UpdateStage::Done);
}

#[test]
fn update_failures() {
    let (mut update, _) = DocumentUpdate::start("doc".to_string(), strings(&["a"]), None, vec![emb(0.5)], strings(&["1"]));
    assert!(matches!(
        update.on_event(UpdateEvent::Scrolled(ScrollOutcome::Failed)),
        UpdateAction::Finish(Some(VectorDatabaseInterfaceErrors::ScrollError))
    ));

    let (mut update, _) =
        DocumentUpdate::start("doc".to_string(), strings(&["a"]), Some(factor(1, 1)), vec![emb(0.5)], strings(&["1"]));
    assert!(matches!(
        update.on_event(UpdateEvent::Deleted(false)),
        UpdateAction::Finish(Some(VectorDatabaseInterfaceErrors::DeletionError))
    ));

    let (mut update, _) =
        DocumentUpdate::start("doc".to_string(), strings(&["a"]), Some(factor(1, 1)), vec![emb(0.5)], strings(&["1"]));
    update.on_event(UpdateEvent::Deleted(true));
    assert!(matches!(
        update.on_event(UpdateEvent::Written(false)),
        UpdateAction::Finish(Some(VectorDatabaseInterfaceErrors::CollectionCreationError))
    ));
}

#[test]
fn update_ignores_out_of_order_events() {
    let (mut update, _) = DocumentUpdate::start("doc".to_string(), strings(&["a"]), None, vec![emb(0.5)], strings(&["1"]));
    assert!(matches!(update.on_event(UpdateEvent::Written(true)), UpdateAction::Ignore));
    assert_eq!(update.stage, UpdateStage::Resolving);
}

#[test]
fn update_with_mismatched_ids_ends_before_any_request() {
    let (update, first) = DocumentUpdate::start(
        "doc".to_string(),
        strings(&["a", "b"]),
        Some(factor(1, 1)),
        vec![emb(0.5), emb(0.6)],
        strings(&["1"]),
    );
    assert!(matches!(first, UpdateAction::Finish(Some(VectorDatabaseInterfaceErrors::TextSlicesMismatchError))));
    assert_eq!(update.stage, UpdateStage::Done);
}
