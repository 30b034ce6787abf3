//! Turning a document's text into index-aligned slice ids, texts and vectors.
use vstd::prelude::*;
use uuid::Uuid;
use crate::segmenter::{SegmentError, is_segmentation, segment, splitter_chunks, views_of};
use crate::vector_store::Embedding;

verus! {

/// Relies on `uuid::Uuid::new_v4` and its hyphenated text form: a fresh random id.
/// Nothing is promised of its value.
#[verifier::external_body]
fn new_slice_id() -> (r: String) {
    Uuid::new_v4().to_string()
}

/// The three index-aligned sequences of a document: position `i` of each is the
/// same slice.
#[derive(Debug, Clone)]
pub struct BasicParser {
    pub vectors: Vec<Embedding>,
    pub slice_ids: Vec<String>,
    pub text_slices: Vec<String>,
}

/// No two of `ids` are equal.
pub open spec fn distinct_ids(ids: Seq<String>) -> bool {
    forall|i: int, j: int| 0 <= i < j < ids.len() ==> #[trigger] ids[i]@ != #[trigger] ids[j]@
}

/// Why an assembly could not go on.
#[derive(Debug, Clone, Copy, PartialEq, Eq, Structural)]
pub enum AssemblyError {
    /// Every slice already has its vector.
    NothingPending,
    /// The id drawn for a slice repeats the id of an earlier slice.
    DuplicateSliceId,
}

/// An assembly in progress: the slices of one text, and the vectors and ids of
/// the first ones. The embedding of each slice is done by the caller, in order;
/// a caller that meets a failure drops the assembly, so nothing partial is kept.
#[derive(Debug, Clone)]
pub struct SliceAssembly {
    pub text_slices: Vec<String>,
    pub vectors: Vec<Embedding>,
    pub slice_ids: Vec<String>,
}

impl SliceAssembly {
    /// Vectors and ids cover a prefix of the slices, one each, ids distinct.
    pub open spec fn wf(self) -> bool {
        &&& self.vectors@.len() == self.slice_ids@.len()
        &&& self.vectors@.len() <= self.text_slices@.len()
        &&& distinct_ids(self.slice_ids@)
    }

    /// Segments `full_text` into slices of at most `maximum_text_split_size`
    /// characters; no slice has a vector yet.
    pub fn start(full_text: &str, maximum_text_split_size: usize) -> (r: Result<SliceAssembly, SegmentError>)
        ensures
            maximum_text_split_size == 0 ==> r == Err::<SliceAssembly, SegmentError>(SegmentError::InvalidConfiguration),
            maximum_text_split_size > 0 ==> r is Ok,
            maximum_text_split_size > 0 && full_text@.len() == 0 ==> r->Ok_0.text_slices@.len() == 0,
            maximum_text_split_size > 0 && full_text@.len() > 0 ==> views_of(r->Ok_0.text_slices@)
                == splitter_chunks(full_text@, maximum_text_split_size as nat),
            r is Ok ==> {
                let a = r->Ok_0;
                &&& a.wf()
                &&& a.vectors@.len() == 0
                &&& is_segmentation(full_text@, views_of(a.text_slices@), maximum_text_split_size as nat)
            },
    {
        let text_slices = segment(full_text, maximum_text_split_size)?;
        Ok(SliceAssembly { text_slices, vectors: Vec::new(), slice_ids: Vec::new() })
    }

    /// The text of the next slice to embed, if any is left.
    pub fn pending(&self) -> (r: Option<String>)
        requires
            self.wf(),
        ensures
            self.vectors@.len() < self.text_slices@.len() ==> r is Some && r->Some_0@
                == self.text_slices@[self.vectors@.len() as int]@,
            self.vectors@.len() == self.text_slices@.len() ==> r is None,
    {
        let next = self.vectors.len();
        if next < self.text_slices.len() {
            Some(self.text_slices[next].clone())
        } else {
            None
        }
    }

    /// Records the vector of the pending slice and gives that slice a freshly drawn
    /// id. The first slice always succeeds; a later one fails only when the drawn
    /// id repeats an earlier one.
    pub fn accept(&mut self, vector: Embedding) -> (r: Result<(), AssemblyError>)
        requires
            old(self).wf(),
        ensures
            final(self).wf(),
            final(self).text_slices == old(self).text_slices,
            old(self).vectors@.len() == old(self).text_slices@.len() ==> r == Err::<(), AssemblyError>(
                AssemblyError::NothingPending,
            ),
            old(self).vectors@.len() < old(self).text_slices@.len() ==> r != Err::<(), AssemblyError>(
                AssemblyError::NothingPending,
            ),
            old(self).vectors@.len() < old(self).text_slices@.len() && old(self).slice_ids@.len() == 0 ==> r is Ok,
            r is Err ==> final(self).vectors == old(self).vectors && final(self).slice_ids == old(self).slice_ids,
            r is Ok ==> final(self).vectors@ == old(self).vectors@.push(vector),
            r is Ok ==> final(self).slice_ids@.drop_last() == old(self).slice_ids@,
    {
        if self.vectors.len() >= self.text_slices.len() {
            return Err(AssemblyError::NothingPending);
        }
        let id = new_slice_id();
        self.accept_with_id(vector, id)
    }

    /// Records the vector of the pending slice under slice id `id`.
    ///
    /// Fails with `NothingPending` when every slice has its vector, and with
    /// `DuplicateSliceId` when `id` repeats the id of an earlier slice.
    pub fn accept_with_id(&mut self, vector: Embedding, id: String) -> (r: Result<(), AssemblyError>)
        requires
            old(self).wf(),
        ensures
            final(self).wf(),
            final(self).text_slices == old(self).text_slices,
            r is Ok <==> (old(self).vectors@.len() < old(self).text_slices@.len() && forall|j: int|
                0 <= j < old(self).slice_ids@.len() ==> #[trigger] old(self).slice_ids@[j]@ != id@),
            old(self).vectors@.len() == old(self).text_slices@.len() ==> r == Err::<(), AssemblyError>(
                AssemblyError::NothingPending,
            ),
            old(self).vectors@.len() < old(self).text_slices@.len() && r is Err ==> r == Err::<(), AssemblyError>(
                AssemblyError::DuplicateSliceId,
            ),
            r is Err ==> *final(self) == *old(self),
            r is Ok ==> final(self).vectors@ == old(self).vectors@.push(vector),
            r is Ok ==> final(self).slice_ids@ == old(self).slice_ids@.push(id),
    {
        if self.vectors.len() >= self.text_slices.len() {
            return Err(AssemblyError::NothingPending);
        }
        let mut i: usize = 0;
        while i < self.slice_ids.len()
            invariant
                0 <= i <= self.slice_ids@.len(),
                self == old(self),
                self.wf(),
                self.vectors@.len() < self.text_slices@.len(),
                forall|j: int| 0 <= j < i ==> #[trigger] self.slice_ids@[j]@ != id@,
            decreases self.slice_ids.len() - i,
        {
            if self.slice_ids[i] == id {
                return Err(AssemblyError::DuplicateSliceId);
            }
            i = i + 1;
        }
        let ghost before = self.slice_ids@;
        self.slice_ids.push(id);
        assert forall|a: int, b: int| 0 <= a < b < self.slice_ids@.len() implies #[trigger] self.slice_ids@[a]@
            != #[trigger] self.slice_ids@[b]@ by {
            if b < before.len() {
                assert(self.slice_ids@[a] == before[a]);
                assert(self.slice_ids@[b] == before[b]);
            }
        }
        self.vectors.push(vector);
        Ok(())
    }

    /// The finished slices, once every one has its vector.
    pub fn finish(self) -> (r: Option<BasicParser>)
        requires
            self.wf(),
        ensures
            r is Some <==> self.vectors@.len() == self.text_slices@.len(),
            r is Some ==> {
                let p = r->Some_0;
                &&& p.text_slices == self.text_slices
                &&& p.vectors == self.vectors
                &&& p.slice_ids == self.slice_ids
                &&& distinct_ids(p.slice_ids@)
                &&& p.vectors@.len() == p.text_slices@.len()
                &&& p.slice_ids@.len() == p.text_slices@.len()
            },
    {
        if self.vectors.len() == self.text_slices.len() {
            Some(BasicParser { vectors: self.vectors, slice_ids: self.slice_ids, text_slices: self.text_slices })
        } else {
            None
        }
    }
}

} // verus!
