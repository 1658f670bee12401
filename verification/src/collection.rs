//! The store that the repository is written for, as far as the repository
//! relies on it: a collection keeps its documents in the order of insertion,
//! gives each an identifier of its own, and refuses a document whose key
//! another document has.

use crate::document::{field_value, with_fields, FieldValue, Fields};
use crate::paging::page_of;
use vstd::prelude::*;

verus! {

/// One document of a collection: its identifier and its other fields.
pub struct Stored {
    pub id: Seq<u8>,
    pub fields: Fields,
}

/// A collection: its documents in the store's natural order, the order of
/// insertion.
pub type Collection = Seq<Stored>;

/// Whether a document of `all` has identifier `id`.
pub open spec fn holds_id(all: Collection, id: Seq<u8>) -> bool {
    exists|i: int| 0 <= i < all.len() && (#[trigger] all[i]).id == id
}

/// Whether a document of `all` has `value` in its field `key`.
pub open spec fn holds_key(all: Collection, key: Seq<char>, value: FieldValue) -> bool {
    exists|i: int|
        0 <= i < all.len() && field_value((#[trigger] all[i]).fields, key) == Some(value)
}

/// No two documents of `all` share an identifier.
pub open spec fn distinct_ids(all: Collection) -> bool {
    forall|i: int, j: int|
        0 <= i < all.len() && 0 <= j < all.len() && i != j ==> (#[trigger] all[i]).id != (
        #[trigger] all[j]).id
}

/// The position of the document with identifier `id`. Meaningful where
/// `holds_id(all, id)`.
pub open spec fn position_of(all: Collection, id: Seq<u8>) -> int {
    choose|i: int| 0 <= i < all.len() && (#[trigger] all[i]).id == id
}

/// What a lookup by identifier finds.
pub open spec fn find_one(all: Collection, id: Seq<u8>) -> Option<Stored> {
    if holds_id(all, id) {
        Some(all[position_of(all, id)])
    } else {
        None
    }
}

/// Whether a collection with a unique index on `key` takes a document with
/// these fields: it does unless a document already has the same value there.
pub open spec fn accepts(all: Collection, key: Seq<char>, fields: Fields) -> bool {
    match field_value(fields, key) {
        Some(value) => !holds_key(all, key, value),
        None => false,
    }
}

/// The collection after an insert that it accepts: the document stands last,
/// under the identifier `id` that the store gave it.
pub open spec fn inserted(all: Collection, id: Seq<u8>, fields: Fields) -> Collection {
    all.push(Stored { id, fields })
}

/// The collection after the document with identifier `id` is deleted.
pub open spec fn deleted(all: Collection, id: Seq<u8>) -> Collection {
    if holds_id(all, id) {
        all.remove(position_of(all, id))
    } else {
        all
    }
}

/// How many documents a delete by identifier removes.
pub open spec fn deleted_count(all: Collection, id: Seq<u8>) -> u64 {
    if holds_id(all, id) {
        1
    } else {
        0
    }
}

/// The collection after the fields of `patch` are set in the document with
/// identifier `id`.
pub open spec fn updated(all: Collection, id: Seq<u8>, patch: Fields) -> Collection {
    if holds_id(all, id) {
        let at = position_of(all, id);
        all.update(at, Stored { id, fields: with_fields(all[at].fields, patch) })
    } else {
        all
    }
}

/// The documents that a listing returns.
pub open spec fn listed(all: Collection, skip: int, limit: int) -> Seq<Stored> {
    page_of(all, skip, limit)
}

} // verus!
