//! What the service answers: a uniform envelope, and the statuses and errors of
//! document requests.
use vstd::prelude::*;
use vstd::string::*;

verus! {

/// The uniform answer to a request: a success flag, a human-readable message
/// and, on success, optional data.
#[derive(Debug, Clone)]
pub struct BasicResponse<T> {
    pub status: bool,
    pub message: String,
    pub data: Option<T>,
}

impl<T> BasicResponse<T> {
    /// A successful answer carrying `data`.
    pub fn success(message: String, data: Option<T>) -> (r: BasicResponse<T>)
        ensures
            r.status,
            r.message == message,
            r.data == data,
    {
        BasicResponse { status: true, message, data }
    }

    /// A failed answer: no data, only the message.
    pub fn failure(message: String) -> (r: BasicResponse<T>)
        ensures
            !r.status,
            r.message == message,
            r.data is None,
    {
        BasicResponse { status: false, message, data: None }
    }
}

/// Failures of the relational store of documents.
#[derive(Debug, Clone, Copy, PartialEq, Eq, Structural)]
pub enum DocumentErrors {
    CreateNewDocumentError,
    DeletionError,
}

/// The message of each document failure.
pub open spec fn document_error_text(e: DocumentErrors) -> Seq<char> {
    match e {
        DocumentErrors::CreateNewDocumentError => "Error happens when creating a new document, you may want to check the connection to the database"@,
        DocumentErrors::DeletionError => "When trying to delete the document, an error has ocurred. "@,
    }
}

impl DocumentErrors {
    /// The message shown to callers for this failure.
    pub fn message(&self) -> (r: String)
        ensures
            r@ == document_error_text(*self),
    {
        match self {
            DocumentErrors::CreateNewDocumentError => String::from_str(
                "Error happens when creating a new document, you may want to check the connection to the database",
            ),
            DocumentErrors::DeletionError => String::from_str("When trying to delete the document, an error has ocurred. "),
        }
    }
}

/// Where the processing of a document stands.
#[derive(Debug, Clone, Copy, PartialEq, Eq, Structural)]
pub enum DocumentStatus {
    Received,
    Processing,
    Ready,
    Failed,
}

/// The word for each status.
pub open spec fn status_text(s: DocumentStatus) -> Seq<char> {
    match s {
        DocumentStatus::Received => "received"@,
        DocumentStatus::Processing => "processing"@,
        DocumentStatus::Ready => "ready"@,
        DocumentStatus::Failed => "failed"@,
    }
}

impl DocumentStatus {
    /// The status as the word sent to callers.
    pub fn text(&self) -> (r: String)
        ensures
            r@ == status_text(*self),
    {
        match self {
            DocumentStatus::Received => String::from_str("received"),
            DocumentStatus::Processing => String::from_str("processing"),
            DocumentStatus::Ready => String::from_str("ready"),
            DocumentStatus::Failed => String::from_str("failed"),
        }
    }
}

/// The answer to a create or an update: the document's id and its status.
#[derive(Debug, Clone)]
pub struct CreateDocumentResponse {
    pub document_id: String,
    pub status: String,
}

impl CreateDocumentResponse {
    /// The answer for `document_id` in `status`.
    pub fn new(document_id: String, status: DocumentStatus) -> (r: CreateDocumentResponse)
        ensures
            r.document_id == document_id,
            r.status@ == status_text(status),
    {
        CreateDocumentResponse { document_id, status: status.text() }
    }
}

/// The slice size used when a create request names none.
pub const DEFAULT_MAXIMUM_TEXT_SPLIT_SIZE: u64 = 256;

/// The slice size used when a create request names none.
pub fn default_maximum_text_split_size() -> (r: u64)
    ensures
        r == DEFAULT_MAXIMUM_TEXT_SPLIT_SIZE,
{
    DEFAULT_MAXIMUM_TEXT_SPLIT_SIZE
}

} // verus!
