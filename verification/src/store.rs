//! What passes between the repository and the store: the requests that the
//! repository makes, the replies that it is handed, and how each reply ends an
//! operation.

use crate::document::{
    document_fields, new_document, put_document, put_id, put_int32, FieldValue, Fields,
};
use crate::error::{insert_error, MyError, MyErrorView, StoreFailure, StoreFailureView};
use crate::ident::{id_bytes, well_formed_id, DocumentId};
use vstd::prelude::*;

verus! {

/// The name of the field in which every document carries its identifier.
pub open spec fn id_field() -> Seq<char> {
    "_id"@
}

/// The operator of an update that sets fields and leaves the others alone.
pub open spec fn set_operator() -> Seq<char> {
    "$set"@
}

/// The filter that matches the document with identifier `id`.
pub open spec fn id_filter(id: Seq<u8>) -> Fields {
    seq![(id_field(), FieldValue::Id(id))]
}

/// The keys of an ascending index on `field`.
pub open spec fn ascending_index(field: Seq<char>) -> Fields {
    seq![(field, FieldValue::Int32(1))]
}

/// The update that sets the fields of `patch`.
pub open spec fn set_update(patch: Fields) -> Fields {
    seq![(set_operator(), FieldValue::Nested(patch))]
}

/// The reply to a lookup, as plain values.
pub open spec fn found_view<T: View>(reply: Result<Option<T>, StoreFailure>) -> Result<
    Option<T::V>,
    StoreFailureView,
> {
    match reply {
        Ok(Some(t)) => Ok(Some(t@)),
        Ok(None) => Ok(None),
        Err(f) => Err(f@),
    }
}

/// The reply to a request, as plain values.
pub open spec fn reply_view<T: View>(reply: Result<T, StoreFailure>) -> Result<
    T::V,
    StoreFailureView,
> {
    match reply {
        Ok(t) => Ok(t@),
        Err(f) => Err(f@),
    }
}

/// The reply to a listing, as plain values.
pub open spec fn page_view<T: View>(reply: Result<Vec<T>, StoreFailure>) -> Result<
    Seq<T::V>,
    StoreFailureView,
> {
    match reply {
        Ok(v) => Ok(v@.map_values(|t: T| t@)),
        Err(f) => Err(f@),
    }
}

/// The end of an operation, as plain values.
pub open spec fn outcome_view<T: View>(r: Result<T, MyError>) -> Result<T::V, MyErrorView> {
    match r {
        Ok(t) => Ok(t@),
        Err(e) => Err(e@),
    }
}

/// How a request that only the store can fail ends.
pub open spec fn query_outcome<T>(reply: Result<T, StoreFailureView>) -> Result<T, MyErrorView> {
    match reply {
        Ok(t) => Ok(t),
        Err(f) => Err(MyErrorView::MongoQueryError(f)),
    }
}

/// How an insert ends: with the new identifier, or with the error that the
/// failure stands for.
pub open spec fn insert_outcome(reply: Result<Seq<u8>, StoreFailureView>) -> Result<
    Seq<u8>,
    MyErrorView,
> {
    match reply {
        Ok(id) => Ok(id),
        Err(f) => Err(insert_error(f)),
    }
}

/// How the text of an identifier is read: a malformed one is an error that
/// carries the text.
pub open spec fn parsed_id(id: Seq<char>) -> Result<Seq<u8>, MyErrorView> {
    if well_formed_id(id) {
        Ok(id_bytes(id))
    } else {
        Err(MyErrorView::InvalidIDError(id))
    }
}

/// How a lookup by the identifier written `id` ends. A malformed identifier is
/// an error whatever the reply is.
pub open spec fn lookup_outcome<T>(
    id: Seq<char>,
    reply: Result<Option<T>, StoreFailureView>,
) -> Result<T, MyErrorView> {
    match (parsed_id(id), reply) {
        (Err(e), _) => Err(e),
        (_, Ok(Some(t))) => Ok(t),
        (_, Ok(None)) => Err(MyErrorView::NotFoundError(id)),
        (_, Err(f)) => Err(MyErrorView::MongoQueryError(f)),
    }
}

/// How a delete by the identifier written `id` ends, given how many documents
/// the store deleted. A malformed identifier is an error whatever the reply is.
pub open spec fn delete_outcome(id: Seq<char>, reply: Result<u64, StoreFailureView>) -> Result<
    (),
    MyErrorView,
> {
    match (parsed_id(id), reply) {
        (Err(e), _) => Err(e),
        (_, Ok(deleted)) => if deleted == 0 {
            Err(MyErrorView::NotFoundError(id))
        } else {
            Ok(())
        },
        (_, Err(f)) => Err(MyErrorView::MongoQueryError(f)),
    }
}

/// What the store is asked for when a document is created: first a unique
/// index, made if it is not there, then the insert of a document. The request
/// keeps the document until the index is there.
#[derive(Debug)]
pub struct InsertRequest {
    index_keys: bson::Document,
    document: bson::Document,
}

impl InsertRequest {
    /// The keys of the index that is to be there.
    pub closed spec fn index_keys(&self) -> bson::Document {
        self.index_keys
    }

    /// The document that is to be inserted.
    pub closed spec fn document(&self) -> bson::Document {
        self.document
    }

    /// The request for a unique index with the keys `index_keys` and the insert
    /// of `document`.
    pub fn new(index_keys: bson::Document, document: bson::Document) -> (r: InsertRequest)
        ensures
            r.index_keys() == index_keys,
            r.document() == document,
    {
        InsertRequest { index_keys, document }
    }

    /// The keys of the index that is to be there.
    pub fn keys(&self) -> (r: &bson::Document)
        ensures
            *r == self.index_keys(),
    {
        &self.index_keys
    }

    /// Ends the making of the index: hands out the document to insert where the
    /// index is there; a failure ends the creation with a query error, and
    /// nothing is inserted.
    pub fn indexed(self, reply: Result<(), StoreFailure>) -> (r: Result<bson::Document, MyError>)
        ensures
            match reply {
                Ok(_) => r == Ok::<bson::Document, MyError>(self.document()),
                Err(f) => r matches Err(e) && e@ == MyErrorView::MongoQueryError(f@),
            },
    {
        match reply {
            Ok(_) => Ok(self.document),
            Err(f) => Err(MyError::MongoQueryError(f)),
        }
    }
}

/// What the store is asked for when a document is changed: the `update` of the
/// one document that `filter` matches, answered with the document as it is
/// after the update.
#[derive(Debug)]
pub struct UpdateRequest {
    pub filter: bson::Document,
    pub update: bson::Document,
}

/// Reads the text of an identifier.
pub fn parse_id(id: &str) -> (r: Result<DocumentId, MyError>)
    ensures
        outcome_view(r) == parsed_id(id@),
{
    match DocumentId::parse(id) {
        Some(parsed) => Ok(parsed),
        None => Err(MyError::InvalidIDError(id.to_owned())),
    }
}

/// The filter that matches the document with identifier `id`.
pub fn filter_by_id(id: &DocumentId) -> (d: bson::Document)
    ensures
        document_fields(d) == id_filter(id@),
{
    let mut d = new_document();
    put_id(&mut d, "_id", id.bytes());
    d
}

/// The keys of an ascending index on `field`.
pub fn index_on(field: &str) -> (d: bson::Document)
    ensures
        document_fields(d) == ascending_index(field@),
{
    let mut d = new_document();
    put_int32(&mut d, field, 1);
    d
}

/// The update that sets the fields of `patch`.
pub fn update_setting(patch: bson::Document) -> (d: bson::Document)
    ensures
        document_fields(d) == set_update(document_fields(patch)),
{
    let mut d = new_document();
    put_document(&mut d, "$set", patch);
    d
}

/// Ends an insert: the new identifier, a duplicate error where the failure
/// reports a broken uniqueness index, a query error for any other failure.
pub fn insert_reply(reply: Result<DocumentId, StoreFailure>) -> (r: Result<DocumentId, MyError>)
    ensures
        outcome_view(r) == insert_outcome(reply_view(reply)),
{
    match reply {
        Ok(id) => Ok(id),
        Err(f) => Err(MyError::from_insert_failure(f)),
    }
}

/// Ends a lookup by the identifier written `id`: an invalid-identifier error
/// where `id` is malformed; else the document, a not-found error that carries
/// `id` where the store found none, a query error where the store failed.
pub fn lookup_reply<T>(id: &str, reply: Result<Option<T>, StoreFailure>) -> (r: Result<T, MyError>)
    ensures
        match (parsed_id(id@), reply) {
            (Err(e), _) => r matches Err(err) && err@ == e,
            (_, Ok(Some(t))) => r == Ok::<T, MyError>(t),
            (_, Ok(None)) => r matches Err(err) && err@ == MyErrorView::NotFoundError(id@),
            (_, Err(f)) => r matches Err(err) && err@ == MyErrorView::MongoQueryError(f@),
        },
{
    match parse_id(id) {
        Ok(_) => {},
        Err(e) => {
            return Err(e);
        },
    }
    match reply {
        Ok(Some(t)) => Ok(t),
        Ok(None) => Err(MyError::NotFoundError(id.to_owned())),
        Err(f) => Err(MyError::MongoQueryError(f)),
    }
}

/// Ends a delete by the identifier written `id`: an invalid-identifier error
/// where `id` is malformed; else success where the store deleted a document, a
/// not-found error that carries `id` where it deleted none, a query error where
/// it failed.
pub fn delete_reply(id: &str, reply: Result<u64, StoreFailure>) -> (r: Result<(), MyError>)
    ensures
        outcome_view(r) == delete_outcome(id@, reply_view(reply)),
{
    match parse_id(id) {
        Ok(_) => {},
        Err(e) => {
            return Err(e);
        },
    }
    match reply {
        Ok(deleted) => {
            if deleted == 0 {
                Err(MyError::NotFoundError(id.to_owned()))
            } else {
                Ok(())
            }
        },
        Err(f) => Err(MyError::MongoQueryError(f)),
    }
}

} // verus!
