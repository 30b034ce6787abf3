//! Splitting raw text into bounded, ordered slices.
use vstd::prelude::*;
use vstd::string::*;
use text_splitter::{ChunkConfig, TextSplitter};

verus! {

/// Why a text could not be segmented.
#[derive(Debug, Clone, Copy, PartialEq, Eq, Structural)]
pub enum SegmentError {
    /// The maximum slice size was not positive.
    InvalidConfiguration,
}

/// The characters of all slices, one after the other.
pub open spec fn joined(slices: Seq<Seq<char>>) -> Seq<char>
    decreases slices.len(),
{
    if slices.len() == 0 {
        Seq::empty()
    } else {
        joined(slices.drop_last()) + slices.last()
    }
}

/// The character views of a vector of strings.
pub open spec fn views_of(v: Seq<String>) -> Seq<Seq<char>> {
    v.map_values(|s: String| s@)
}

/// `slices` reassemble `text` exactly and none is longer than `max` characters.
pub open spec fn is_segmentation(text: Seq<char>, slices: Seq<Seq<char>>, max: nat) -> bool {
    &&& joined(slices) == text
    &&& forall|i: int| 0 <= i < slices.len() ==> #[trigger] slices[i].len() <= max
}

/// What the text splitter makes of `text` with a capacity of `max` characters.
pub uninterp spec fn splitter_chunks(text: Seq<char>, max: nat) -> Seq<Seq<char>>;

/// Relies on `text_splitter::TextSplitter::chunks`, configured with a character
/// capacity of `max` and trimming switched off: the chunks depend on the text and
/// the capacity alone, each chunk is "up to the chunk capacity", and with trimming
/// off "joining all chunks should return the original string".
#[verifier::external_body]
fn split_chunks(text: &str, max: usize) -> (r: Vec<String>)
    requires
        max > 0,
    ensures
        views_of(r@) == splitter_chunks(text@, max as nat),
        is_segmentation(text@, views_of(r@), max as nat),
{
    let splitter = TextSplitter::new(ChunkConfig::new(max).with_trim(false));
    splitter.chunks(text).map(|c| c.to_string()).collect()
}

/// Splits `text` into ordered slices of at most `max` characters that join back
/// into `text`. A zero size is rejected and an empty text gives no slices.
pub fn segment(text: &str, max: usize) -> (r: Result<Vec<String>, SegmentError>)
    ensures
        max == 0 <==> r == Err::<Vec<String>, SegmentError>(SegmentError::InvalidConfiguration),
        max > 0 ==> r is Ok,
        max > 0 && text@.len() == 0 ==> r->Ok_0@.len() == 0,
        max > 0 && text@.len() > 0 ==> views_of(r->Ok_0@) == splitter_chunks(text@, max as nat),
        r is Ok ==> is_segmentation(text@, views_of(r->Ok_0@), max as nat),
{
    if max == 0 {
        return Err(SegmentError::InvalidConfiguration);
    }
    if text.unicode_len() == 0 {
        let empty: Vec<String> = Vec::new();
        assert(views_of(empty@) =~= Seq::<Seq<char>>::empty());
        assert(joined(views_of(empty@)) == text@);
        return Ok(empty);
    }
    Ok(split_chunks(text, max))
}

} // verus!
