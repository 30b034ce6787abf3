//! Preparing a text for the embedding model, and taking the vector from its output.
use vstd::prelude::*;
use vstd::string::*;
use tokenizers::Tokenizer;
use crate::vector_store::Embedding;

verus! {

#[verifier::external_type_specification]
#[verifier::external_body]
pub struct ExTokenizer(Tokenizer);

/// Failures of the embedding engine, each reported as is.
#[derive(Debug, Clone, Copy, PartialEq, Eq, Structural)]
pub enum TextVectorizationErrors {
    TokenizationFailure,
    InferenceFailure,
    MissingOutputTensor,
}

/// The message of each engine failure.
pub open spec fn engine_error_text(e: TextVectorizationErrors) -> Seq<char> {
    match e {
        TextVectorizationErrors::TokenizationFailure => "Error happens when tokenizing the input"@,
        TextVectorizationErrors::InferenceFailure => "Error happens when running the embedding model"@,
        TextVectorizationErrors::MissingOutputTensor => "Error happens when extracting the outputs"@,
    }
}

impl TextVectorizationErrors {
    /// The message shown to callers for this failure.
    pub fn message(&self) -> (r: String)
        ensures
            r@ == engine_error_text(*self),
    {
        match self {
            TextVectorizationErrors::TokenizationFailure => String::from_str("Error happens when tokenizing the input"),
            TextVectorizationErrors::InferenceFailure => String::from_str("Error happens when running the embedding model"),
            TextVectorizationErrors::MissingOutputTensor => String::from_str("Error happens when extracting the outputs"),
        }
    }
}

/// Relies on `tokenizers::Tokenizer::encode`, with the encoding's token ids and
/// attention mask taken out as they are. What they hold depends on the loaded
/// tokenizer, so only the failure is stated.
#[verifier::external_body]
fn encode_text(tokenizer: &Tokenizer, text: &str, special_tokens: bool) -> (r: Result<
    (Vec<u32>, Vec<u32>),
    TextVectorizationErrors,
>)
    ensures
        r is Err ==> r->Err_0 == TextVectorizationErrors::TokenizationFailure,
{
    match tokenizer.encode(text, special_tokens) {
        Ok(encoding) => Ok((encoding.get_ids().to_vec(), encoding.get_attention_mask().to_vec())),
        Err(_) => Err(TextVectorizationErrors::TokenizationFailure),
    }
}

/// The two model inputs, each a batch of one row: the shape `[1, n]` and the row.
#[derive(Debug, Clone)]
pub struct ModelInputs {
    pub ids_shape: Vec<i64>,
    pub ids: Vec<i64>,
    pub mask_shape: Vec<i64>,
    pub mask: Vec<i64>,
}

/// `row` holds the values of `tokens`, widened, and `shape` is `[1, len]`.
pub open spec fn batch_of_one(tokens: Seq<u32>, shape: Seq<i64>, row: Seq<i64>) -> bool {
    &&& shape == seq![1i64, tokens.len() as i64]
    &&& row.len() == tokens.len()
    &&& forall|i: int| 0 <= i < tokens.len() ==> #[trigger] row[i] == tokens[i] as i64
}

/// Widens token values into one row of a batch of one.
pub fn widen_row(tokens: &Vec<u32>) -> (r: (Vec<i64>, Vec<i64>))
    requires
        tokens@.len() <= i64::MAX,
    ensures
        batch_of_one(tokens@, r.0@, r.1@),
{
    let mut row: Vec<i64> = Vec::new();
    let mut i: usize = 0;
    while i < tokens.len()
        invariant
            0 <= i <= tokens@.len(),
            row@.len() == i,
            forall|j: int| 0 <= j < i ==> #[trigger] row@[j] == tokens@[j] as i64,
        decreases tokens.len() - i,
    {
        row.push(tokens[i] as i64);
        i = i + 1;
    }
    let shape: Vec<i64> = vec![1i64, tokens.len() as i64];
    assert(shape@ =~= seq![1i64, tokens@.len() as i64]);
    (shape, row)
}

/// Shapes token ids and an attention mask as the two model inputs: the ids go to
/// the ids input and the mask to the mask input, each as a batch of one row.
/// Fails with `TokenizationFailure` only when a length does not fit the shape's
/// integer type.
pub fn shape_inputs(ids: &Vec<u32>, mask: &Vec<u32>) -> (r: Result<ModelInputs, TextVectorizationErrors>)
    ensures
        r is Ok <==> (ids@.len() <= i64::MAX && mask@.len() <= i64::MAX),
        r is Err ==> r->Err_0 == TextVectorizationErrors::TokenizationFailure,
        r is Ok ==> batch_of_one(ids@, r->Ok_0.ids_shape@, r->Ok_0.ids@),
        r is Ok ==> batch_of_one(mask@, r->Ok_0.mask_shape@, r->Ok_0.mask@),
{
    if ids.len() as u64 > i64::MAX as u64 || mask.len() as u64 > i64::MAX as u64 {
        return Err(TextVectorizationErrors::TokenizationFailure);
    }
    let (ids_shape, ids_row) = widen_row(ids);
    let (mask_shape, mask_row) = widen_row(mask);
    Ok(ModelInputs { ids_shape, ids: ids_row, mask_shape, mask: mask_row })
}

/// Tokenizes `text` and shapes its token ids and attention mask as a batch of one.
/// What the tokens are depends on the loaded tokenizer, so the result is stated
/// of every encoding it may give: both inputs are well-shaped rows of one batch.
pub fn prepare_inputs(tokenizer: &Tokenizer, text: &str, special_tokens: bool) -> (r: Result<
    ModelInputs,
    TextVectorizationErrors,
>)
    ensures
        r is Err ==> r->Err_0 == TextVectorizationErrors::TokenizationFailure,
        r is Ok ==> exists|ids: Seq<u32>, mask: Seq<u32>|
            batch_of_one(ids, r->Ok_0.ids_shape@, r->Ok_0.ids@) && batch_of_one(mask, r->Ok_0.mask_shape@, r->Ok_0.mask@),
{
    let (ids, mask) = encode_text(tokenizer, text, special_tokens)?;
    shape_inputs(&ids, &mask)
}

/// The rows of a row-major output of `width` columns, each row a vector; a
/// trailing part shorter than `width` is not a row.
pub open spec fn rows_of(data: Seq<u32>, width: nat) -> Seq<Seq<u32>>
    recommends
        width > 0,
{
    Seq::new(data.len() / width, |i: int| data.subrange(i * width, i * width + width))
}

/// Splits a row-major model output of `width` columns into its rows.
pub fn split_rows(data: &Vec<u32>, width: usize) -> (r: Vec<Embedding>)
    requires
        width > 0,
    ensures
        r@.len() == rows_of(data@, width as nat).len(),
        forall|i: int| 0 <= i < r@.len() ==> (#[trigger] r@[i])@ == rows_of(data@, width as nat)[i],
{
    let count = data.len() / width;
    let mut rows: Vec<Embedding> = Vec::new();
    let mut k: usize = 0;
    while k < count
        invariant
            width > 0,
            count == data@.len() / (width as nat),
            data@.len() <= usize::MAX,
            0 <= k <= count,
            rows@.len() == k,
            forall|i: int| 0 <= i < k ==> (#[trigger] rows@[i])@ == rows_of(data@, width as nat)[i],
        decreases count - k,
    {
        proof {
            assert((k + 1) * width <= count * width) by (nonlinear_arith)
                requires
                    k + 1 <= count,
            ;
            assert(count * width <= data@.len()) by (nonlinear_arith)
                requires
                    count == data@.len() / (width as nat),
                    width > 0,
            ;
            assert(k * width + width == (k + 1) * width) by (nonlinear_arith);
            assert(k * width + width <= data@.len());
        }
        let start: usize = k * width;
        let mut row: Vec<u32> = Vec::new();
        let mut j: usize = 0;
        while j < width
            invariant
                width > 0,
                start == k * width,
                start + width <= data@.len(),
                data@.len() <= usize::MAX,
                0 <= j <= width,
                row@ == data@.subrange(start as int, start + j),
            decreases width - j,
        {
            row.push(data[start + j]);
            j = j + 1;
            assert(row@ =~= data@.subrange(start as int, start + j));
        }
        rows.push(Embedding { components: row });
        k = k + 1;
    }
    rows
}

/// Takes the first row of the model's dense output as the text's vector.
///
/// `output` is `None` when the named output tensor is absent; an output without
/// rows, or whose first row is empty, counts as missing too.
pub fn first_row(output: Option<Vec<Embedding>>) -> (r: Result<Embedding, TextVectorizationErrors>)
    ensures
        r is Ok <==> (output is Some && output->Some_0@.len() > 0 && output->Some_0@[0]@.len() > 0),
        r is Ok ==> r->Ok_0@ == output->Some_0@[0]@,
        r is Err ==> r->Err_0 == TextVectorizationErrors::MissingOutputTensor,
{
    match output {
        None => Err(TextVectorizationErrors::MissingOutputTensor),
        Some(rows) => {
            if rows.len() == 0 {
                return Err(TextVectorizationErrors::MissingOutputTensor);
            }
            let row = rows[0].duplicate();
            if row.components.len() == 0 {
                Err(TextVectorizationErrors::MissingOutputTensor)
            } else {
                Ok(row)
            }
        },
    }
}

} // verus!
