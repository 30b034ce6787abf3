//! Entries of the shared vector index: the write plan for a document and the
//! validation of what a filtered search hands back.
use vstd::prelude::*;
use vstd::string::*;

verus! {

/// Failures of the vector store gateway.
#[derive(Debug, Clone, Copy, PartialEq, Eq, Structural)]
pub enum VectorDatabaseInterfaceErrors {
    ConnectionError,
    CollectionCreationError,
    TextSlicesMismatchError,
    SearchError,
    ScrollError,
    DeletionError,
}

/// The human-readable text of each gateway failure.
pub open spec fn gateway_error_text(e: VectorDatabaseInterfaceErrors) -> Seq<char> {
    match e {
        VectorDatabaseInterfaceErrors::CollectionCreationError => "Error happens when creating a new collection."@,
        VectorDatabaseInterfaceErrors::ConnectionError => "Error happens when trying to connect to the vector database."@,
        VectorDatabaseInterfaceErrors::DeletionError => "Error happens when deleting a slice."@,
        VectorDatabaseInterfaceErrors::SearchError => "Vector search encounters errors. Connection might be lost."@,
        VectorDatabaseInterfaceErrors::TextSlicesMismatchError => "The number of text slices MUST be the same as the number of vectors!"@,
        VectorDatabaseInterfaceErrors::ScrollError => "Error happens when trying to scroll the collection"@,
    }
}

impl VectorDatabaseInterfaceErrors {
    /// The message shown to callers for this failure.
    pub fn message(&self) -> (r: String)
        ensures
            r@ == gateway_error_text(*self),
    {
        match self {
            VectorDatabaseInterfaceErrors::CollectionCreationError => String::from_str("Error happens when creating a new collection."),
            VectorDatabaseInterfaceErrors::ConnectionError => String::from_str("Error happens when trying to connect to the vector database."),
            VectorDatabaseInterfaceErrors::DeletionError => String::from_str("Error happens when deleting a slice."),
            VectorDatabaseInterfaceErrors::SearchError => String::from_str("Vector search encounters errors. Connection might be lost."),
            VectorDatabaseInterfaceErrors::TextSlicesMismatchError => String::from_str("The number of text slices MUST be the same as the number of vectors!"),
            VectorDatabaseInterfaceErrors::ScrollError => String::from_str("Error happens when trying to scroll the collection"),
        }
    }
}

/// Why a single search hit was rejected.
#[derive(Debug, Clone, Copy, PartialEq, Eq, Structural)]
pub enum QueryErrors {
    MissingContent,
    MissingScore,
    InvalidScore,
}

/// The divisor that sets how many entries go into one write batch, held as the
/// exact ratio `numerator / denominator`.
#[derive(Debug, Clone, Copy, PartialEq, Eq, Structural)]
pub struct ChunkFactor {
    pub numerator: u64,
    pub denominator: u64,
}

impl ChunkFactor {
    /// Both parts are positive, so the factor is a positive ratio.
    pub open spec fn wf(self) -> bool {
        self.numerator > 0 && self.denominator > 0
    }

    /// The factor `numerator / denominator`, when both parts are positive.
    pub fn new(numerator: u64, denominator: u64) -> (r: Option<ChunkFactor>)
        ensures
            r is Some <==> (numerator > 0 && denominator > 0),
            r is Some ==> r->Some_0 == (ChunkFactor { numerator, denominator }),
    {
        if numerator > 0 && denominator > 0 {
            Some(ChunkFactor { numerator, denominator })
        } else {
            None
        }
    }
}

/// `a / b` rounded up.
pub open spec fn ceil_div(a: nat, b: nat) -> nat
    recommends
        b > 0,
{
    if a % b == 0 {
        a / b
    } else {
        a / b + 1
    }
}

/// `max(1, ceil(count / factor))`, with `count / factor == count * denominator / numerator`.
pub open spec fn batch_size_of(count: nat, factor: ChunkFactor) -> nat {
    let q = ceil_div((count * factor.denominator) as nat, factor.numerator as nat);
    if q < 1 {
        1
    } else {
        q
    }
}

/// The number of entries written per batch when a document has `count` slices.
pub fn batch_size(count: usize, factor: ChunkFactor) -> (r: u128)
    requires
        factor.wf(),
    ensures
        r as nat == batch_size_of(count as nat, factor),
{
    let c = count as u128;
    let d = factor.denominator as u128;
    let n = factor.numerator as u128;
    assert(c * d <= 0xffff_ffff_ffff_ffffu128 * 0xffff_ffff_ffff_ffffu128) by (nonlinear_arith)
        requires
            c <= 0xffff_ffff_ffff_ffffu128,
            d <= 0xffff_ffff_ffff_ffffu128,
    ;
    let a: u128 = c * d;
    let q0: u128 = a / n;
    assert(q0 <= a) by (nonlinear_arith)
        requires
            n >= 1,
            q0 == a / n,
    ;
    let q: u128 = if a % n == 0 { q0 } else { q0 + 1 };
    if q < 1 {
        1
    } else {
        q
    }
}

/// The lengths of the consecutive batches that `count` entries fall into when each
/// batch holds `size` of them: full batches, then the remainder.
pub open spec fn batch_lengths_of(count: nat, size: nat) -> Seq<nat>
    decreases count,
{
    if count == 0 || size == 0 {
        Seq::empty()
    } else if count <= size {
        seq![count]
    } else {
        seq![size].add(batch_lengths_of((count - size) as nat, size))
    }
}

/// An embedding vector, each component held as the bit pattern of an IEEE-754
/// single-precision number.
#[derive(Debug, Clone)]
pub struct Embedding {
    pub components: Vec<u32>,
}

impl View for Embedding {
    type V = Seq<u32>;

    open spec fn view(&self) -> Seq<u32> {
        self.components@
    }
}

impl Embedding {
    /// A copy with the same components.
    pub fn duplicate(&self) -> (r: Embedding)
        ensures
            r@ == self@,
    {
        let mut out: Vec<u32> = Vec::new();
        let mut i: usize = 0;
        while i < self.components.len()
            invariant
                0 <= i <= self.components@.len(),
                out@ == self.components@.subrange(0, i as int),
            decreases self.components.len() - i,
        {
            out.push(self.components[i]);
            i = i + 1;
        }
        assert(out@ =~= self.components@);
        Embedding { components: out }
    }
}

/// The payload stored with each entry: the owning document, the slice's text and
/// the chunk factor of the ingestion that wrote it.
#[derive(Debug, Clone)]
pub struct DocumentSlice {
    pub document_id: String,
    pub content: String,
    pub chunk_factor: ChunkFactor,
}

/// One entry of the shared index: a slice id, its vector and its payload.
#[derive(Debug, Clone)]
pub struct IndexEntry {
    pub id: String,
    pub vector: Embedding,
    pub payload: DocumentSlice,
}

/// `e` is the entry for slice `id` with `vector` and `content`, owned by `document`
/// and tagged with `factor`.
pub open spec fn entry_is(
    e: IndexEntry,
    id: Seq<char>,
    vector: Seq<u32>,
    document: Seq<char>,
    content: Seq<char>,
    factor: ChunkFactor,
) -> bool {
    &&& e.id@ == id
    &&& e.vector@ == vector
    &&& e.payload.document_id@ == document
    &&& e.payload.content@ == content
    &&& e.payload.chunk_factor == factor
}

/// All entries of one document's ingestion and the batch size to write them with.
#[derive(Debug, Clone)]
pub struct UpsertPlan {
    pub entries: Vec<IndexEntry>,
    pub batch_size: u128,
}

impl UpsertPlan {
    /// The sizes of the batches in which the entries are written, in order.
    pub fn batch_lengths(&self) -> (r: Vec<u128>)
        requires
            self.batch_size > 0,
        ensures
            r@.len() == batch_lengths_of(self.entries@.len(), self.batch_size as nat).len(),
            forall|i: int| 0 <= i < r@.len() ==> r@[i] as nat == #[trigger] batch_lengths_of(self.entries@.len(), self.batch_size as nat)[i],
    {
        let size = self.batch_size;
        let total = self.entries.len() as u128;
        let mut out: Vec<u128> = Vec::new();
        let mut left: u128 = total;
        while left > 0
            invariant
                left <= total,
                size > 0,
                batch_lengths_of(total as nat, size as nat) =~= out@.map_values(|x: u128| x as nat).add(
                    batch_lengths_of(left as nat, size as nat),
                ),
            decreases left,
        {
            let piece: u128 = if left <= size { left } else { size };
            let ghost prev = out@;
            proof {
                let rest = (left - piece) as nat;
                assert(batch_lengths_of(left as nat, size as nat) =~= seq![piece as nat].add(
                    batch_lengths_of(rest, size as nat),
                ));
            }
            out.push(piece);
            left = left - piece;
            assert(out@.map_values(|x: u128| x as nat) =~= prev.map_values(|x: u128| x as nat).push(piece as nat));
        }
        proof {
            assert(batch_lengths_of(0, size as nat) =~= Seq::<nat>::empty());
            assert(out@.map_values(|x: u128| x as nat).add(Seq::<nat>::empty()) =~= out@.map_values(|x: u128| x as nat));
        }
        out
    }
}

/// `plan` writes one entry per slice of `document`, entry `i` pairing slice id `i`,
/// vector `i` and text `i`, all tagged with `factor`, in batches of the size that
/// `factor` gives for that many slices.
pub open spec fn plan_is(
    plan: UpsertPlan,
    document: Seq<char>,
    texts: Seq<String>,
    factor: ChunkFactor,
    vectors: Seq<Embedding>,
    ids: Seq<String>,
) -> bool {
    &&& plan.entries@.len() == texts.len()
    &&& plan.batch_size as nat == batch_size_of(texts.len(), factor)
    &&& forall|i: int|
        0 <= i < plan.entries@.len() ==> entry_is(
            #[trigger] plan.entries@[i],
            ids[i]@,
            vectors[i]@,
            document,
            texts[i]@,
            factor,
        )
}

/// Builds the entries for one document's slices and the batch size to write
/// them with.
///
/// Fails with `TextSlicesMismatchError`, before anything is built, exactly when
/// the number of texts differs from the number of vectors or of slice ids. Entry `i` pairs slice id `i`, vector
/// `i` and text `i`, and every entry carries the document id and the chunk factor.
pub fn plan_upsert(
    document_id: &String,
    text_slices: &Vec<String>,
    chunk_factor: ChunkFactor,
    vectors: &Vec<Embedding>,
    slice_ids: &Vec<String>,
) -> (r: Result<UpsertPlan, VectorDatabaseInterfaceErrors>)
    requires
        chunk_factor.wf(),
    ensures
        r is Err <==> (text_slices@.len() != vectors@.len() || text_slices@.len() != slice_ids@.len()),
        r is Err ==> r->Err_0 == VectorDatabaseInterfaceErrors::TextSlicesMismatchError,
        r is Ok ==> plan_is(r->Ok_0, document_id@, text_slices@, chunk_factor, vectors@, slice_ids@),
{
    if text_slices.len() != vectors.len() || text_slices.len() != slice_ids.len() {
        return Err(VectorDatabaseInterfaceErrors::TextSlicesMismatchError);
    }
    let count = text_slices.len();
    let mut entries: Vec<IndexEntry> = Vec::new();
    let mut i: usize = 0;
    while i < count
        invariant
            count == text_slices@.len(),
            count == vectors@.len(),
            count == slice_ids@.len(),
            0 <= i <= count,
            entries@.len() == i,
            forall|j: int|
                0 <= j < i ==> entry_is(
                    #[trigger] entries@[j],
                    slice_ids@[j]@,
                    vectors@[j]@,
                    document_id@,
                    text_slices@[j]@,
                    chunk_factor,
                ),
        decreases count - i,
    {
        let entry = IndexEntry {
            id: slice_ids[i].clone(),
            vector: vectors[i].duplicate(),
            payload: DocumentSlice {
                document_id: document_id.clone(),
                content: text_slices[i].clone(),
                chunk_factor,
            },
        };
        entries.push(entry);
        i = i + 1;
    }
    let size = batch_size(count, chunk_factor);
    Ok(UpsertPlan { entries, batch_size: size })
}

/// `bits`, read as an IEEE-754 single-precision number, compares `<= 0.0`: a zero
/// of either sign or a negative number, infinity included. A NaN does not.
pub open spec fn at_most_zero(bits: u32) -> bool {
    let magnitude = bits % 0x8000_0000;
    magnitude == 0 || (bits >= 0x8000_0000 && magnitude <= 0x7f80_0000)
}

/// A relevance score, held as the bit pattern of an IEEE-754 single-precision number.
#[derive(Debug, Clone, Copy, PartialEq, Eq, Structural)]
pub struct Relevance {
    pub bits: u32,
}

impl Relevance {
    /// Whether the score compares `<= 0.0`.
    pub fn is_at_most_zero(&self) -> (r: bool)
        ensures
            r == at_most_zero(self.bits),
    {
        let magnitude = self.bits % 0x8000_0000;
        magnitude == 0 || (self.bits >= 0x8000_0000 && magnitude <= 0x7f80_0000)
    }
}

/// What a hit's payload holds under its `content` key.
#[derive(Debug, Clone)]
pub enum PayloadText {
    Absent,
    Text(String),
    Other,
}

/// One hit of a filtered nearest-neighbour query, as the index returned it.
#[derive(Debug, Clone)]
pub struct ScoredHit {
    pub score: Relevance,
    pub content: PayloadText,
}

impl ScoredHit {
    /// A copy of this hit.
    pub fn duplicate(&self) -> (r: ScoredHit)
        ensures
            r == *self,
    {
        let content = match &self.content {
            PayloadText::Absent => PayloadText::Absent,
            PayloadText::Text(t) => PayloadText::Text(t.clone()),
            PayloadText::Other => PayloadText::Other,
        };
        ScoredHit { score: self.score, content }
    }
}

/// A hit accepted for the caller: its relevance and its slice's text.
#[derive(Debug, Clone)]
pub struct QueryResult {
    pub relevance: Relevance,
    pub content: Option<String>,
}

/// A hit is accepted when its score is positive (not `<= 0.0`) and its payload
/// holds the slice's text.
pub open spec fn hit_is_valid(hit: ScoredHit) -> bool {
    hit_is_accepted(hit, true)
}

/// `q` carries the score and the text of `hit`.
pub open spec fn result_of_hit(q: QueryResult, hit: ScoredHit) -> bool {
    &&& q.relevance == hit.score
    &&& q.content is Some
    &&& hit.content is Text
    &&& q.content->Some_0@ == hit.content->Text_0@
}

/// A hit is accepted under a policy when its payload holds the slice's text and,
/// if the policy rejects non-positive scores, its score is not `<= 0.0`.
pub open spec fn hit_is_accepted(hit: ScoredHit, reject_non_positive: bool) -> bool {
    &&& !(reject_non_positive && at_most_zero(hit.score.bits))
    &&& hit.content is Text
}

impl QueryResult {
    /// Accepts one hit, or says why it is rejected: the score first, then the text.
    pub fn from_scored_hit(hit: ScoredHit) -> (r: Result<QueryResult, QueryErrors>)
        ensures
            at_most_zero(hit.score.bits) ==> r == Err::<QueryResult, QueryErrors>(QueryErrors::InvalidScore),
            !at_most_zero(hit.score.bits) && !(hit.content is Text) ==> r == Err::<QueryResult, QueryErrors>(
                QueryErrors::MissingContent,
            ),
            r is Ok <==> hit_is_valid(hit),
            r is Ok ==> result_of_hit(r->Ok_0, hit),
    {
        QueryResult::from_scored_hit_with(hit, true)
    }

    /// Accepts one hit under a score policy: with `reject_non_positive` a score
    /// `<= 0.0` is rejected first; a hit without text is always rejected.
    pub fn from_scored_hit_with(hit: ScoredHit, reject_non_positive: bool) -> (r: Result<QueryResult, QueryErrors>)
        ensures
            reject_non_positive && at_most_zero(hit.score.bits) ==> r == Err::<QueryResult, QueryErrors>(
                QueryErrors::InvalidScore,
            ),
            !(reject_non_positive && at_most_zero(hit.score.bits)) && !(hit.content is Text) ==> r == Err::<
                QueryResult,
                QueryErrors,
            >(QueryErrors::MissingContent),
            r is Ok <==> hit_is_accepted(hit, reject_non_positive),
            r is Ok ==> result_of_hit(r->Ok_0, hit),
    {
        if reject_non_positive && hit.score.is_at_most_zero() {
            return Err(QueryErrors::InvalidScore);
        }
        let score = hit.score;
        match hit.content {
            PayloadText::Text(content) => Ok(QueryResult { relevance: score, content: Some(content) }),
            _ => Err(QueryErrors::MissingContent),
        }
    }
}

/// Turns the hits of a search into results, in the order the index ranked them.
///
/// Fail-closed: one rejected hit fails the whole search with `SearchError`; a
/// score `<= 0.0` counts as rejected. No hits give an empty list.
pub fn collect_search_results(hits: Vec<ScoredHit>) -> (r: Result<Vec<QueryResult>, VectorDatabaseInterfaceErrors>)
    ensures
        r is Ok <==> forall|i: int| 0 <= i < hits@.len() ==> hit_is_valid(#[trigger] hits@[i]),
        r is Err ==> r->Err_0 == VectorDatabaseInterfaceErrors::SearchError,
        r is Ok ==> r->Ok_0@.len() == hits@.len(),
        r is Ok ==> forall|i: int| 0 <= i < hits@.len() ==> result_of_hit(#[trigger] r->Ok_0@[i], hits@[i]),
{
    collect_search_results_with(hits, true)
}

/// Turns the hits of a search into results, in ranking order, under a score
/// policy: `reject_non_positive` says whether a score `<= 0.0` fails the search.
/// One rejected hit fails the whole search with `SearchError`.
pub fn collect_search_results_with(hits: Vec<ScoredHit>, reject_non_positive: bool) -> (r: Result<
    Vec<QueryResult>,
    VectorDatabaseInterfaceErrors,
>)
    ensures
        r is Ok <==> forall|i: int| 0 <= i < hits@.len() ==> hit_is_accepted(#[trigger] hits@[i], reject_non_positive),
        r is Err ==> r->Err_0 == VectorDatabaseInterfaceErrors::SearchError,
        r is Ok ==> r->Ok_0@.len() == hits@.len(),
        r is Ok ==> forall|i: int| 0 <= i < hits@.len() ==> result_of_hit(#[trigger] r->Ok_0@[i], hits@[i]),
{
    let mut results: Vec<QueryResult> = Vec::new();
    let mut i: usize = 0;
    while i < hits.len()
        invariant
            0 <= i <= hits@.len(),
            results@.len() == i,
            forall|j: int| 0 <= j < i ==> hit_is_accepted(#[trigger] hits@[j], reject_non_positive),
            forall|j: int| 0 <= j < i ==> result_of_hit(#[trigger] results@[j], hits@[j]),
        decreases hits.len() - i,
    {
        let hit = hits[i].duplicate();
        match QueryResult::from_scored_hit_with(hit, reject_non_positive) {
            Ok(q) => results.push(q),
            Err(_) => return Err(VectorDatabaseInterfaceErrors::SearchError),
        }
        i = i + 1;
    }
    Ok(results)
}

} // verus!
