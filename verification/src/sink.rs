//! The persistence boundary: the one request the pipeline issues, what comes
//! back from it, and a model of the collection it is applied to.

use crate::question::{Question, QuestionView};
use vstd::prelude::*;

verus! {

/// Name of the collection that holds every question.
pub const COLLECTION: &'static str = "comments";

/// A create-or-replace write of one document, keyed by the caller.
#[derive(Clone, Debug, PartialEq, Eq)]
pub struct UpsertRequest {
    /// The collection to write to.
    pub collection: String,
    /// The document key within the collection.
    pub key: String,
    /// The full document body.
    pub body: Question,
}

/// The mathematical value of an [`UpsertRequest`].
pub struct UpsertRequestView {
    pub collection: Seq<char>,
    pub key: Seq<char>,
    pub body: QuestionView,
}

impl View for UpsertRequest {
    type V = UpsertRequestView;

    open spec fn view(&self) -> UpsertRequestView {
        UpsertRequestView { collection: self.collection@, key: self.key@, body: self.body@ }
    }
}

/// The request that stores `record`: into the fixed collection, under the
/// record's own identifier, with the whole record as the body.
pub open spec fn request_for(record: QuestionView) -> UpsertRequestView {
    UpsertRequestView { collection: COLLECTION@, key: record.id, body: record }
}

/// Builds the upsert that persists `record`. The key is the record's `id`, so
/// a record delivered again addresses the document it wrote before.
pub fn upsert_request(record: Question) -> (request: UpsertRequest)
    ensures
        request@ == request_for(record@),
{
    let key = record.id.clone();
    UpsertRequest { collection: COLLECTION.to_owned(), key, body: record }
}

/// What the store confirms after a successful write. Either time may be
/// absent, depending on whether the store created or replaced the document;
/// absence is no error.
#[derive(Clone, Debug, PartialEq, Eq)]
pub struct PersistResult {
    /// Identifier of the stored document.
    pub document_id: String,
    /// When the store created the document, if it says.
    pub create_time: Option<String>,
    /// When the store last replaced the document, if it says.
    pub update_time: Option<String>,
}

/// The mathematical value of a [`PersistResult`].
pub struct PersistResultView {
    pub document_id: Seq<char>,
    pub create_time: Option<Seq<char>>,
    pub update_time: Option<Seq<char>>,
}

/// The view of an optional text.
pub open spec fn text_view(text: Option<String>) -> Option<Seq<char>> {
    match text {
        Some(t) => Some(t@),
        None => None,
    }
}

impl View for PersistResult {
    type V = PersistResultView;

    open spec fn view(&self) -> PersistResultView {
        PersistResultView {
            document_id: self.document_id@,
            create_time: text_view(self.create_time),
            update_time: text_view(self.update_time),
        }
    }
}

/// Why the store rejected a write: expired authentication, a network fault, a
/// body it could not accept, or an exhausted quota. The cause is opaque text.
/// A rejected write is never fatal to the pipeline.
#[derive(Clone, Debug, PartialEq, Eq)]
pub struct PersistError {
    /// The store's own account of the rejection.
    pub cause: String,
}

/// The mathematical value of a [`PersistError`].
pub struct PersistErrorView {
    pub cause: Seq<char>,
}

impl View for PersistError {
    type V = PersistErrorView;

    open spec fn view(&self) -> PersistErrorView {
        PersistErrorView { cause: self.cause@ }
    }
}

/// The view of the outcome of one write.
pub open spec fn outcome_view(outcome: Result<PersistResult, PersistError>) -> Result<
    PersistResultView,
    PersistErrorView,
> {
    match outcome {
        Ok(result) => Ok(result@),
        Err(error) => Err(error@),
    }
}

/// The documents of a store: each one found under its collection and key.
pub type Documents = Map<(Seq<char>, Seq<char>), QuestionView>;

/// The documents after the store has carried out `request`: the addressed
/// document is created if absent and replaced as a whole if present; no other
/// document changes.
pub open spec fn stored(documents: Documents, request: UpsertRequestView) -> Documents {
    documents.insert((request.collection, request.key), request.body)
}

/// Persisting the same record twice leaves exactly what persisting it once
/// leaves: one document under the record's identifier, equal to the record,
/// and every other document as it was.
pub proof fn upsert_is_idempotent(documents: Documents, record: QuestionView)
    ensures
        stored(stored(documents, request_for(record)), request_for(record)) == stored(
            documents,
            request_for(record),
        ),
        stored(documents, request_for(record)).dom() == documents.dom().insert(
            (COLLECTION@, record.id),
        ),
        stored(documents, request_for(record))[(COLLECTION@, record.id)] == record,
        forall|address: (Seq<char>, Seq<char>)|
            address != (COLLECTION@, record.id) && documents.dom().contains(address) ==> stored(
                documents,
                request_for(record),
            )[address] == documents[address],
{
    let once = stored(documents, request_for(record));
    assert(stored(once, request_for(record)) =~= once);
}

/// Two records with the same identifier share one document, and the later
/// write decides its content: the store ends as if only the later record had
/// been persisted.
pub proof fn later_write_replaces_earlier(
    documents: Documents,
    earlier: QuestionView,
    later: QuestionView,
)
    requires
        earlier.id == later.id,
    ensures
        stored(stored(documents, request_for(earlier)), request_for(later)) == stored(
            documents,
            request_for(later),
        ),
        stored(stored(documents, request_for(earlier)), request_for(later))[(
            COLLECTION@,
            later.id,
        )] == later,
{
    assert(stored(stored(documents, request_for(earlier)), request_for(later)) =~= stored(
        documents,
        request_for(later),
    ));
}

} // verus!
