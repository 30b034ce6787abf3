//! The decisions of the vector store gateway. Each network exchange with the index
//! is performed by the caller; these machines say what to send next and how an
//! operation ends, given what the index answered.
use vstd::prelude::*;
use crate::vector_store::{
    ChunkFactor, Embedding, UpsertPlan, VectorDatabaseInterfaceErrors, plan_is, plan_upsert,
};

verus! {

/// Where opening the shared collection stands.
#[derive(Debug, Clone, Copy, PartialEq, Eq, Structural)]
pub enum InitStage {
    Connecting,
    CheckingCollection,
    CreatingCollection,
    Ready,
    Failed,
}

/// What the index answered to the last request of the initialization.
#[derive(Debug, Clone, Copy, PartialEq, Eq, Structural)]
pub enum InitEvent {
    /// Whether a client could be built for the connection target.
    Connected(bool),
    /// Whether the collection exists; `None` when the index could not say.
    CollectionChecked(Option<bool>),
    /// Whether creating the collection succeeded.
    CollectionCreated(bool),
}

/// What the caller does next during initialization.
#[derive(Debug, Clone, Copy, PartialEq, Eq, Structural)]
pub enum InitAction {
    /// Ask whether the collection exists.
    CheckCollection,
    /// Create the collection with cosine distance and this many dimensions.
    CreateCollection { dimensionality: u64 },
    /// The collection is there and the gateway may serve requests.
    Ready,
    /// Initialization failed.
    Fail(VectorDatabaseInterfaceErrors),
    /// The event did not answer a request of the current stage; nothing changes.
    Ignore,
}

/// One step of initialization: the next stage and the action for the caller.
pub open spec fn init_transition(stage: InitStage, event: InitEvent, dimensionality: u64) -> (InitStage, InitAction) {
    match (stage, event) {
        (InitStage::Connecting, InitEvent::Connected(true)) => (InitStage::CheckingCollection, InitAction::CheckCollection),
        (InitStage::Connecting, InitEvent::Connected(false)) => (
            InitStage::Failed,
            InitAction::Fail(VectorDatabaseInterfaceErrors::ConnectionError),
        ),
        (InitStage::CheckingCollection, InitEvent::CollectionChecked(Some(true))) => (InitStage::Ready, InitAction::Ready),
        (InitStage::CheckingCollection, InitEvent::CollectionChecked(Some(false))) => (
            InitStage::CreatingCollection,
            InitAction::CreateCollection { dimensionality },
        ),
        (InitStage::CheckingCollection, InitEvent::CollectionChecked(None)) => (
            InitStage::Failed,
            InitAction::Fail(VectorDatabaseInterfaceErrors::ConnectionError),
        ),
        (InitStage::CreatingCollection, InitEvent::CollectionCreated(true)) => (InitStage::Ready, InitAction::Ready),
        (InitStage::CreatingCollection, InitEvent::CollectionCreated(false)) => (
            InitStage::Failed,
            InitAction::Fail(VectorDatabaseInterfaceErrors::CollectionCreationError),
        ),
        _ => (stage, InitAction::Ignore),
    }
}

/// The stages and actions that a sequence of events leads to, from `stage`.
pub open spec fn init_run(stage: InitStage, events: Seq<InitEvent>, dimensionality: u64) -> (InitStage, Seq<InitAction>)
    decreases events.len(),
{
    if events.len() == 0 {
        (stage, Seq::empty())
    } else {
        let (next, action) = init_transition(stage, events[0], dimensionality);
        let (last, rest) = init_run(next, events.drop_first(), dimensionality);
        (last, seq![action].add(rest))
    }
}

/// Opening the one collection shared by all documents.
#[derive(Debug, Clone)]
pub struct CollectionSetup {
    pub collection_name: String,
    pub dimensionality: u64,
    pub stage: InitStage,
}

impl CollectionSetup {
    /// A setup that starts by connecting to the index.
    pub fn new(collection_name: String, dimensionality: u64) -> (r: CollectionSetup)
        ensures
            r.collection_name == collection_name,
            r.dimensionality == dimensionality,
            r.stage == InitStage::Connecting,
    {
        CollectionSetup { collection_name, dimensionality, stage: InitStage::Connecting }
    }

    /// Takes the index's answer and says what to do next.
    pub fn step(&mut self, event: InitEvent) -> (r: InitAction)
        ensures
            (final(self).stage, r) == init_transition(old(self).stage, event, old(self).dimensionality),
            final(self).collection_name == old(self).collection_name,
            final(self).dimensionality == old(self).dimensionality,
    {
        let (next, action) = match (self.stage, event) {
            (InitStage::Connecting, InitEvent::Connected(ok)) => {
                if ok {
                    (InitStage::CheckingCollection, InitAction::CheckCollection)
                } else {
                    (InitStage::Failed, InitAction::Fail(VectorDatabaseInterfaceErrors::ConnectionError))
                }
            },
            (InitStage::CheckingCollection, InitEvent::CollectionChecked(answer)) => match answer {
                Some(true) => (InitStage::Ready, InitAction::Ready),
                Some(false) => (
                    InitStage::CreatingCollection,
                    InitAction::CreateCollection { dimensionality: self.dimensionality },
                ),
                None => (InitStage::Failed, InitAction::Fail(VectorDatabaseInterfaceErrors::ConnectionError)),
            },
            (InitStage::CreatingCollection, InitEvent::CollectionCreated(ok)) => {
                if ok {
                    (InitStage::Ready, InitAction::Ready)
                } else {
                    (InitStage::Failed, InitAction::Fail(VectorDatabaseInterfaceErrors::CollectionCreationError))
                }
            },
            _ => (self.stage, InitAction::Ignore),
        };
        self.stage = next;
        action
    }
}

/// Initialization asks to create the collection only in answer to the index
/// saying that it does not exist: the action for each event is a creation only
/// when that event reported the collection absent.
pub proof fn creation_only_when_collection_absent(stage: InitStage, events: Seq<InitEvent>, dimensionality: u64)
    ensures
        init_run(stage, events, dimensionality).1.len() == events.len(),
        forall|i: int|
            0 <= i < events.len() && (#[trigger] init_run(stage, events, dimensionality).1[i]) is CreateCollection
                ==> events[i] == InitEvent::CollectionChecked(Some(false)),
    decreases events.len(),
{
    if events.len() > 0 {
        let (next, action) = init_transition(stage, events[0], dimensionality);
        creation_only_when_collection_absent(next, events.drop_first(), dimensionality);
        let actions = init_run(stage, events, dimensionality).1;
        let rest = init_run(next, events.drop_first(), dimensionality).1;
        assert forall|i: int|
            0 <= i < events.len() && (#[trigger] init_run(stage, events, dimensionality).1[i]) is CreateCollection
                implies events[i] == InitEvent::CollectionChecked(Some(false)) by {
            if i > 0 {
                assert(actions[i] == rest[i - 1]);
                assert(events[i] == events.drop_first()[i - 1]);
            }
        }
    }
}

/// Opening a collection that already exists, whatever its dimensionality, reuses
/// it: the run ends ready after one existence check and issues no creation, so a
/// second initialization leaves the collection and its entries as they were.
pub proof fn initialize_reuses_existing_collection(dimensionality: u64)
    ensures
        init_run(
            InitStage::Connecting,
            seq![InitEvent::Connected(true), InitEvent::CollectionChecked(Some(true))],
            dimensionality,
        ) == (InitStage::Ready, seq![InitAction::CheckCollection, InitAction::Ready]),
{
    reveal_with_fuel(init_run, 3);
    let events = seq![InitEvent::Connected(true), InitEvent::CollectionChecked(Some(true))];
    assert(events.drop_first() =~= seq![InitEvent::CollectionChecked(Some(true))]);
    assert(events.drop_first().drop_first() =~= Seq::<InitEvent>::empty());
    assert(seq![InitAction::Ready].add(Seq::<InitAction>::empty()) =~= seq![InitAction::Ready]);
    assert(seq![InitAction::CheckCollection].add(seq![InitAction::Ready]) =~= seq![
        InitAction::CheckCollection,
        InitAction::Ready,
    ]);
}

/// What a scroll for one entry of a document returned: the call failed, or the
/// entries found, each with the chunk factor read from its payload when there is one.
#[derive(Debug, Clone)]
pub enum ScrollOutcome {
    Failed,
    Entries(Vec<Option<ChunkFactor>>),
}

/// The chunk factor stored with a document, read from the first entry found.
pub open spec fn stored_chunk_factor(entries: Seq<Option<ChunkFactor>>) -> Option<ChunkFactor> {
    if entries.len() > 0 && entries[0] is Some && entries[0]->Some_0.wf() {
        entries[0]
    } else {
        None
    }
}

/// The chunk factor that a scroll recovers, or `ScrollError` when the scroll failed
/// or found no entry that carries a valid factor.
pub fn recover_chunk_factor(outcome: &ScrollOutcome) -> (r: Result<ChunkFactor, VectorDatabaseInterfaceErrors>)
    ensures
        outcome is Failed ==> r == Err::<ChunkFactor, VectorDatabaseInterfaceErrors>(VectorDatabaseInterfaceErrors::ScrollError),
        outcome is Entries ==> match stored_chunk_factor(outcome->Entries_0@) {
            Some(f) => r == Ok::<ChunkFactor, VectorDatabaseInterfaceErrors>(f),
            None => r == Err::<ChunkFactor, VectorDatabaseInterfaceErrors>(VectorDatabaseInterfaceErrors::ScrollError),
        },
{
    match outcome {
        ScrollOutcome::Failed => Err(VectorDatabaseInterfaceErrors::ScrollError),
        ScrollOutcome::Entries(entries) => {
            if entries.len() > 0 {
                match entries[0] {
                    Some(f) => {
                        if f.numerator > 0 && f.denominator > 0 {
                            Ok(f)
                        } else {
                            Err(VectorDatabaseInterfaceErrors::ScrollError)
                        }
                    },
                    None => Err(VectorDatabaseInterfaceErrors::ScrollError),
                }
            } else {
                Err(VectorDatabaseInterfaceErrors::ScrollError)
            }
        },
    }
}

/// Where a replace-style update of a document stands.
#[derive(Debug, Clone, Copy, PartialEq, Eq, Structural)]
pub enum UpdateStage {
    /// Waiting for the scroll that recovers the stored chunk factor.
    Resolving,
    /// Waiting for the deletion of the document's entries.
    Deleting,
    /// Waiting for the new entries to be written.
    Writing,
    /// The update has ended.
    Done,
}

/// What the index answered to the last request of an update.
#[derive(Debug, Clone)]
pub enum UpdateEvent {
    Scrolled(ScrollOutcome),
    /// Whether the deletion was acknowledged.
    Deleted(bool),
    /// Whether all batches were written.
    Written(bool),
}

/// What the caller does next during an update.
#[derive(Debug, Clone)]
pub enum UpdateAction {
    /// Fetch one entry of the document, payload only.
    ScrollOne,
    /// Delete every entry of the document and wait for the acknowledgement.
    DeleteAll,
    /// Write these entries in batches of the plan's size.
    Upsert(UpsertPlan),
    /// The update ended: `None` on success, else the failure.
    Finish(Option<VectorDatabaseInterfaceErrors>),
    /// The event did not answer a request of the current stage; nothing changes.
    Ignore,
}

/// A replace-style update: recover the chunk factor when it is omitted, delete the
/// document's entries, then write the new ones. Not atomic: a failed write after a
/// successful delete leaves the document absent from the index.
#[derive(Debug, Clone)]
pub struct DocumentUpdate {
    pub document_id: String,
    pub text_slices: Vec<String>,
    pub vectors: Vec<Embedding>,
    pub slice_ids: Vec<String>,
    pub stage: UpdateStage,
    pub plan: Option<UpsertPlan>,
}

impl DocumentUpdate {
    /// The update's own data is consistent with its stage.
    pub open spec fn wf(self) -> bool {
        &&& self.stage != UpdateStage::Done ==> self.slice_ids@.len() == self.text_slices@.len()
        &&& self.stage == UpdateStage::Resolving ==> self.text_slices@.len() == self.vectors@.len()
        &&& (self.stage == UpdateStage::Deleting <==> self.plan is Some)
    }

    /// `self` holds a plan that writes its slices with `factor`.
    pub open spec fn plans_with(self, factor: ChunkFactor) -> bool {
        &&& self.plan is Some
        &&& plan_is(
            self.plan->Some_0,
            self.document_id@,
            self.text_slices@,
            factor,
            self.vectors@,
            self.slice_ids@,
        )
    }

    /// Starts an update and gives its first action.
    ///
    /// Texts that do not match the vectors or the slice ids in number end it at
    /// once, before any request. With a
    /// chunk factor the update goes straight to deleting; without one it first
    /// scrolls for the stored factor.
    pub fn start(
        document_id: String,
        text_slices: Vec<String>,
        chunk_factor: Option<ChunkFactor>,
        vectors: Vec<Embedding>,
        slice_ids: Vec<String>,
    ) -> (r: (DocumentUpdate, UpdateAction))
        requires
            chunk_factor is Some ==> chunk_factor->Some_0.wf(),
        ensures
            r.0.wf(),
            r.0.document_id == document_id,
            r.0.text_slices == text_slices,
            r.0.vectors == vectors,
            r.0.slice_ids == slice_ids,
            !aligned(text_slices@.len(), vectors@.len(), slice_ids@.len()) ==> r.0.stage == UpdateStage::Done && r.1
                == UpdateAction::Finish(Some(VectorDatabaseInterfaceErrors::TextSlicesMismatchError)),
            aligned(text_slices@.len(), vectors@.len(), slice_ids@.len()) && chunk_factor is None ==> r.0.stage
                == UpdateStage::Resolving && r.1 is ScrollOne,
            aligned(text_slices@.len(), vectors@.len(), slice_ids@.len()) && chunk_factor is Some ==> r.0.stage
                == UpdateStage::Deleting && r.1 is DeleteAll && r.0.plans_with(chunk_factor->Some_0),
    {
        let mut update = DocumentUpdate {
            document_id,
            text_slices,
            vectors,
            slice_ids,
            stage: UpdateStage::Done,
            plan: None,
        };
        if update.text_slices.len() != update.vectors.len() || update.text_slices.len() != update.slice_ids.len() {
            return (update, UpdateAction::Finish(Some(VectorDatabaseInterfaceErrors::TextSlicesMismatchError)));
        }
        match chunk_factor {
            None => {
                update.stage = UpdateStage::Resolving;
                (update, UpdateAction::ScrollOne)
            },
            Some(f) => {
                let action = update.plan_and_delete(f);
                (update, action)
            },
        }
    }

    /// Builds the plan with `factor` and moves on to deleting the old entries.
    fn plan_and_delete(&mut self, factor: ChunkFactor) -> (r: UpdateAction)
        requires
            factor.wf(),
            old(self).slice_ids@.len() == old(self).text_slices@.len(),
            old(self).text_slices@.len() == old(self).vectors@.len(),
        ensures
            final(self).document_id == old(self).document_id,
            final(self).text_slices == old(self).text_slices,
            final(self).vectors == old(self).vectors,
            final(self).slice_ids == old(self).slice_ids,
            final(self).stage == UpdateStage::Deleting,
            final(self).plans_with(factor),
            r is DeleteAll,
    {
        match plan_upsert(&self.document_id, &self.text_slices, factor, &self.vectors, &self.slice_ids) {
            Ok(plan) => {
                self.plan = Some(plan);
                self.stage = UpdateStage::Deleting;
                UpdateAction::DeleteAll
            },
            Err(_) => {
                assert(false);
                UpdateAction::Ignore
            },
        }
    }

    /// Takes the index's answer and says what to do next.
    pub fn on_event(&mut self, event: UpdateEvent) -> (r: UpdateAction)
        requires
            old(self).wf(),
        ensures
            final(self).wf(),
            final(self).document_id == old(self).document_id,
            final(self).text_slices == old(self).text_slices,
            final(self).vectors == old(self).vectors,
            final(self).slice_ids == old(self).slice_ids,
            old(self).stage == UpdateStage::Resolving && event is Scrolled ==> match stored_chunk_factor_of(
                event->Scrolled_0,
            ) {
                Some(f) => final(self).stage == UpdateStage::Deleting && r is DeleteAll && final(self).plans_with(f),
                None => final(self).stage == UpdateStage::Done && r == UpdateAction::Finish(
                    Some(VectorDatabaseInterfaceErrors::ScrollError),
                ),
            },
            old(self).stage == UpdateStage::Deleting && event == UpdateEvent::Deleted(true) ==> {
                &&& final(self).stage == UpdateStage::Writing
                &&& old(self).plan is Some
                &&& r == UpdateAction::Upsert(old(self).plan->Some_0)
            },
            old(self).stage == UpdateStage::Deleting && event == UpdateEvent::Deleted(false) ==> {
                &&& final(self).stage == UpdateStage::Done
                &&& r == UpdateAction::Finish(Some(VectorDatabaseInterfaceErrors::DeletionError))
            },
            old(self).stage == UpdateStage::Writing && event == UpdateEvent::Written(true) ==> {
                &&& final(self).stage == UpdateStage::Done
                &&& r == UpdateAction::Finish(None)
            },
            old(self).stage == UpdateStage::Writing && event == UpdateEvent::Written(false) ==> {
                &&& final(self).stage == UpdateStage::Done
                &&& r == UpdateAction::Finish(Some(VectorDatabaseInterfaceErrors::CollectionCreationError))
            },
            !answers(old(self).stage, event) ==> r is Ignore && *final(self) == *old(self),
    {
        match (self.stage, event) {
            (UpdateStage::Resolving, UpdateEvent::Scrolled(outcome)) => {
                match recover_chunk_factor(&outcome) {
                    Ok(f) => self.plan_and_delete(f),
                    Err(e) => {
                        self.stage = UpdateStage::Done;
                        UpdateAction::Finish(Some(e))
                    },
                }
            },
            (UpdateStage::Deleting, UpdateEvent::Deleted(ok)) => {
                if ok {
                    let plan = self.plan.take();
                    self.stage = UpdateStage::Writing;
                    match plan {
                        Some(p) => UpdateAction::Upsert(p),
                        None => {
                            assert(false);
                            UpdateAction::Ignore
                        },
                    }
                } else {
                    self.plan = None;
                    self.stage = UpdateStage::Done;
                    UpdateAction::Finish(Some(VectorDatabaseInterfaceErrors::DeletionError))
                }
            },
            (UpdateStage::Writing, UpdateEvent::Written(ok)) => {
                self.stage = UpdateStage::Done;
                if ok {
                    UpdateAction::Finish(None)
                } else {
                    UpdateAction::Finish(Some(VectorDatabaseInterfaceErrors::CollectionCreationError))
                }
            },
            _ => UpdateAction::Ignore,
        }
    }
}

/// As many texts as vectors and as slice ids.
pub open spec fn aligned(texts: nat, vectors: nat, ids: nat) -> bool {
    texts == vectors && texts == ids
}

/// The chunk factor that a scroll outcome recovers.
pub open spec fn stored_chunk_factor_of(outcome: ScrollOutcome) -> Option<ChunkFactor> {
    match outcome {
        ScrollOutcome::Failed => None,
        ScrollOutcome::Entries(entries) => stored_chunk_factor(entries@),
    }
}

/// `event` answers the request made in `stage`.
pub open spec fn answers(stage: UpdateStage, event: UpdateEvent) -> bool {
    match (stage, event) {
        (UpdateStage::Resolving, UpdateEvent::Scrolled(_)) => true,
        (UpdateStage::Deleting, UpdateEvent::Deleted(_)) => true,
        (UpdateStage::Writing, UpdateEvent::Written(_)) => true,
        _ => false,
    }
}

/// An update that omits the chunk factor writes its new entries with the factor
/// that the document was stored with: reading the factor back from any stored
/// entry and planning with it tags every new entry with the factor it was first stored with.
pub proof fn omitted_chunk_factor_is_kept(
    stored: UpsertPlan,
    document: Seq<char>,
    texts: Seq<String>,
    factor: ChunkFactor,
    vectors: Seq<Embedding>,
    ids: Seq<String>,
    k: int,
    update: DocumentUpdate,
)
    requires
        factor.wf(),
        plan_is(stored, document, texts, factor, vectors, ids),
        0 <= k < stored.entries@.len(),
        update.plans_with(stored_chunk_factor(seq![Some(stored.entries@[k].payload.chunk_factor)])->Some_0),
    ensures
        stored_chunk_factor(seq![Some(stored.entries@[k].payload.chunk_factor)]) == Some(factor),
        forall|i: int|
            0 <= i < update.plan->Some_0.entries@.len() ==> (#[trigger] update.plan->Some_0.entries@[i]).payload.chunk_factor
                == factor,
{
    assert(stored.entries@[k].payload.chunk_factor == factor);
}

} // verus!
