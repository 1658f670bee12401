//! The repository's errors, and how a failure of the store is sorted into them.

use vstd::prelude::*;

verus! {

/// What the store's client reported when a request failed: the server's error
/// code, where the client has one, and the client's message. The code says
/// what kind of failure it was; the message is for people to read.
#[derive(Clone, Debug, PartialEq, Eq)]
pub struct StoreFailure {
    pub code: Option<i32>,
    pub message: String,
}

/// A `StoreFailure` as plain values.
pub struct StoreFailureView {
    pub code: Option<i32>,
    pub message: Seq<char>,
}

impl View for StoreFailure {
    type V = StoreFailureView;

    open spec fn view(&self) -> StoreFailureView {
        StoreFailureView { code: self.code, message: self.message@ }
    }
}

/// The errors that a repository operation can end with.
#[derive(Clone, Debug, PartialEq, Eq)]
pub enum MyError {
    /// An insert broke the uniqueness index.
    MongoDuplicateError(StoreFailure),
    /// Any other failure of the store.
    MongoQueryError(StoreFailure),
    /// A schema could not be turned into a document. The schemas of this crate
    /// always can: no step of the repository ends with this error.
    MongoSerializeBsonError(String),
    /// The text is not a well-formed identifier.
    InvalidIDError(String),
    /// No document has this identifier.
    NotFoundError(String),
}

/// A `MyError` as plain values.
pub enum MyErrorView {
    MongoDuplicateError(StoreFailureView),
    MongoQueryError(StoreFailureView),
    MongoSerializeBsonError(Seq<char>),
    InvalidIDError(Seq<char>),
    NotFoundError(Seq<char>),
}

impl View for MyError {
    type V = MyErrorView;

    open spec fn view(&self) -> MyErrorView {
        match self {
            MyError::MongoDuplicateError(f) => MyErrorView::MongoDuplicateError(f@),
            MyError::MongoQueryError(f) => MyErrorView::MongoQueryError(f@),
            MyError::MongoSerializeBsonError(m) => MyErrorView::MongoSerializeBsonError(m@),
            MyError::InvalidIDError(id) => MyErrorView::InvalidIDError(id@),
            MyError::NotFoundError(id) => MyErrorView::NotFoundError(id@),
        }
    }
}

/// The server's code for a write that broke a uniqueness index.
pub const DUPLICATE_KEY_CODE: i32 = 11000;

/// A failure reports a broken uniqueness index exactly when it carries the
/// server's code for it. The message decides nothing.
pub open spec fn is_duplicate_key(failure: StoreFailureView) -> bool {
    failure.code == Some(DUPLICATE_KEY_CODE)
}

/// The error that a failed insert ends with.
pub open spec fn insert_error(failure: StoreFailureView) -> MyErrorView {
    if is_duplicate_key(failure) {
        MyErrorView::MongoDuplicateError(failure)
    } else {
        MyErrorView::MongoQueryError(failure)
    }
}

impl StoreFailure {
    /// Whether the failure reports a broken uniqueness index.
    pub fn is_duplicate_key(&self) -> (r: bool)
        ensures
            r == is_duplicate_key(self@),
    {
        match self.code {
            Some(code) => code == DUPLICATE_KEY_CODE,
            None => false,
        }
    }
}

impl MyError {
    /// The error for a failed insert: a duplicate where the failure reports a
    /// broken uniqueness index, a query error otherwise.
    pub fn from_insert_failure(failure: StoreFailure) -> (r: MyError)
        ensures
            r@ == insert_error(failure@),
    {
        if failure.is_duplicate_key() {
            MyError::MongoDuplicateError(failure)
        } else {
            MyError::MongoQueryError(failure)
        }
    }
}

} // verus!
