//! What the repository's steps add up to when the store does its part without
//! failing and nothing else writes to the collection.
//!
//! A run joins the steps of one operation, as `crate::store` has them for any
//! kind of entity, with the store's replies, as `crate::collection` describes
//! them. The runs here work on stored documents; `crate::auth::laws` and
//! `crate::blog::laws` read users and blog posts out of them.

use crate::collection::{
    accepts, deleted, deleted_count, distinct_ids, find_one, holds_id, holds_key, inserted, listed,
    position_of, updated, Collection, Stored,
};
use crate::document::{field_value, with_fields, FieldValue, Fields};
use crate::error::{is_duplicate_key, MyErrorView, StoreFailureView};
use crate::ident::{hex_text, id_bytes, lemma_hex_text_round_trip, well_formed_id};
use crate::paging::page_offset;
use crate::store::{delete_outcome, insert_outcome, lookup_outcome, parsed_id};
use vstd::prelude::*;

verus! {

/// A creation: the insert of a document with the fields `fields` into a
/// collection with a unique index on `key`, and the reading back. `id` is the
/// identifier that the store gives the document if it takes it, `failure` what
/// it reports if it does not.
pub open spec fn create_run(
    all: Collection,
    key: Seq<char>,
    fields: Fields,
    id: Seq<u8>,
    failure: StoreFailureView,
) -> (Collection, Result<Stored, MyErrorView>) {
    let taken = accepts(all, key, fields);
    let after = if taken {
        inserted(all, id, fields)
    } else {
        all
    };
    let reply = if taken {
        Ok(id)
    } else {
        Err(failure)
    };
    match insert_outcome(reply) {
        Ok(id) => (after, lookup_outcome(hex_text(id), Ok(find_one(after, id)))),
        Err(e) => (after, Err(e)),
    }
}

/// A lookup by the identifier written `id`.
pub open spec fn get_run(all: Collection, id: Seq<char>) -> Result<Stored, MyErrorView> {
    match parsed_id(id) {
        Ok(bytes) => lookup_outcome(id, Ok(find_one(all, bytes))),
        Err(e) => Err(e),
    }
}

/// An update of the document with the identifier written `id`, which sets the
/// fields of `patch`.
pub open spec fn update_run(all: Collection, id: Seq<char>, patch: Fields) -> (
    Collection,
    Result<Stored, MyErrorView>,
) {
    match parsed_id(id) {
        Ok(bytes) => {
            let after = updated(all, bytes, patch);
            (after, lookup_outcome(id, Ok(find_one(after, bytes))))
        },
        Err(e) => (all, Err(e)),
    }
}

/// A delete of the document with the identifier written `id`.
pub open spec fn delete_run(all: Collection, id: Seq<char>) -> (
    Collection,
    Result<(), MyErrorView>,
) {
    match parsed_id(id) {
        Ok(bytes) => (deleted(all, bytes), delete_outcome(id, Ok(deleted_count(all, bytes)))),
        Err(e) => (all, Err(e)),
    }
}

/// A listing of page `page`, `limit` documents to the page.
pub open spec fn list_run(all: Collection, limit: int, page: int) -> Seq<Stored> {
    listed(all, page_offset(limit, page), limit)
}

/// A lookup finds the document that was inserted last under a new identifier.
pub proof fn lemma_find_inserted(all: Collection, id: Seq<u8>, fields: Fields)
    requires
        !holds_id(all, id),
    ensures
        find_one(inserted(all, id, fields), id) == Some(Stored { id, fields }),
{
    let after = inserted(all, id, fields);
    assert(after[all.len() as int].id == id);
    assert(holds_id(after, id));
    let at = position_of(after, id);
    if at < all.len() {
        assert(all[at].id == id);
    }
}

/// A creation whose key no document holds succeeds: the collection gains the
/// document, last, and the creation ends with that document under its new
/// identifier.
pub proof fn lemma_create_unique(
    all: Collection,
    key: Seq<char>,
    fields: Fields,
    value: FieldValue,
    id: Seq<u8>,
    failure: StoreFailureView,
)
    requires
        field_value(fields, key) == Some(value),
        !holds_key(all, key, value),
        id.len() == 12,
        !holds_id(all, id),
    ensures
        create_run(all, key, fields, id, failure) == (
            all.push(Stored { id, fields }),
            Ok::<Stored, MyErrorView>(Stored { id, fields }),
        ),
{
    lemma_hex_text_round_trip(id);
    lemma_find_inserted(all, id, fields);
}

/// A creation whose key a document holds fails with a duplicate error, and the
/// collection stays as it was.
pub proof fn lemma_create_duplicate(
    all: Collection,
    key: Seq<char>,
    fields: Fields,
    value: FieldValue,
    id: Seq<u8>,
    failure: StoreFailureView,
)
    requires
        field_value(fields, key) == Some(value),
        holds_key(all, key, value),
        is_duplicate_key(failure),
    ensures
        create_run(all, key, fields, id, failure) == (
            all,
            Err::<Stored, MyErrorView>(MyErrorView::MongoDuplicateError(failure)),
        ),
{
}

/// With a malformed identifier every operation by identifier ends with an
/// invalid-identifier error that carries the text, whatever the collection
/// holds and whatever the store replies, and leaves the collection as it was.
pub proof fn lemma_malformed_id(all: Collection, id: Seq<char>, patch: Fields)
    requires
        !well_formed_id(id),
    ensures
        get_run(all, id) == Err::<Stored, MyErrorView>(MyErrorView::InvalidIDError(id)),
        update_run(all, id, patch) == (
            all,
            Err::<Stored, MyErrorView>(MyErrorView::InvalidIDError(id)),
        ),
        delete_run(all, id) == (all, Err::<(), MyErrorView>(MyErrorView::InvalidIDError(id))),
        forall|reply: Result<Option<Stored>, StoreFailureView>| #[trigger]
            lookup_outcome(id, reply) == Err::<Stored, MyErrorView>(
                MyErrorView::InvalidIDError(id),
            ),
        forall|reply: Result<u64, StoreFailureView>| #[trigger]
            delete_outcome(id, reply) == Err::<(), MyErrorView>(MyErrorView::InvalidIDError(id)),
{
}

/// With a well-formed identifier that no document has, every operation by
/// identifier ends with a not-found error that carries the text, and leaves
/// the collection as it was.
pub proof fn lemma_absent_id(all: Collection, id: Seq<char>, patch: Fields)
    requires
        well_formed_id(id),
        !holds_id(all, id_bytes(id)),
    ensures
        get_run(all, id) == Err::<Stored, MyErrorView>(MyErrorView::NotFoundError(id)),
        update_run(all, id, patch) == (
            all,
            Err::<Stored, MyErrorView>(MyErrorView::NotFoundError(id)),
        ),
        delete_run(all, id) == (all, Err::<(), MyErrorView>(MyErrorView::NotFoundError(id))),
{
}

/// After a delete no document has the identifier, and the other documents are
/// there as before.
pub proof fn lemma_deleted(all: Collection, id: Seq<u8>)
    requires
        distinct_ids(all),
        holds_id(all, id),
    ensures
        !holds_id(deleted(all, id), id),
        distinct_ids(deleted(all, id)),
        deleted(all, id).len() + 1 == all.len(),
        forall|other: Seq<u8>| other != id ==> find_one(deleted(all, id), other) == find_one(
            all,
            other,
        ),
{
    let at = position_of(all, id);
    let after = deleted(all, id);
    assert forall|i: int| 0 <= i < after.len() implies (#[trigger] after[i]).id != id by {
        if i < at {
            assert(after[i] == all[i]);
        } else {
            assert(after[i] == all[i + 1]);
        }
    }
    assert forall|i: int, j: int|
        0 <= i < after.len() && 0 <= j < after.len() && i != j implies (#[trigger] after[i]).id != (
    #[trigger] after[j]).id by {
        let si = if i < at { i } else { i + 1 };
        let sj = if j < at { j } else { j + 1 };
        assert(after[i] == all[si] && after[j] == all[sj]);
    }
    assert forall|other: Seq<u8>| other != id implies find_one(after, other) == find_one(
        all,
        other,
    ) by {
        if holds_id(all, other) {
            let p = position_of(all, other);
            let q = if p < at { p } else { p - 1 };
            assert(after[q] == all[p]);
            assert(holds_id(after, other));
            let r = position_of(after, other);
            let sr = if r < at { r } else { r + 1 };
            assert(after[r] == all[sr]);
            assert(sr == p);
        } else if holds_id(after, other) {
            let r = position_of(after, other);
            let sr = if r < at { r } else { r + 1 };
            assert(after[r] == all[sr]);
        }
    }
}

/// A delete of a document that is there succeeds; a second delete of the same
/// identifier ends with a not-found error.
pub proof fn lemma_delete_twice(all: Collection, id: Seq<char>)
    requires
        distinct_ids(all),
        well_formed_id(id),
        holds_id(all, id_bytes(id)),
    ensures
        delete_run(all, id).1 == Ok::<(), MyErrorView>(()),
        delete_run(delete_run(all, id).0, id) == (
            delete_run(all, id).0,
            Err::<(), MyErrorView>(MyErrorView::NotFoundError(id)),
        ),
        get_run(delete_run(all, id).0, id) == Err::<Stored, MyErrorView>(
            MyErrorView::NotFoundError(id),
        ),
{
    lemma_deleted(all, id_bytes(id));
}

/// A document that was created is found under the text of its identifier until
/// it is deleted.
pub proof fn lemma_get_created(all: Collection, id: Seq<u8>, fields: Fields)
    requires
        id.len() == 12,
        !holds_id(all, id),
    ensures
        get_run(inserted(all, id, fields), hex_text(id)) == Ok::<Stored, MyErrorView>(
            Stored { id, fields },
        ),
{
    lemma_hex_text_round_trip(id);
    lemma_find_inserted(all, id, fields);
}

/// Pages of one size do not overlap and leave nothing out: page `page` holds
/// the documents at the positions from `(page - 1) * limit` up to
/// `page * limit`, as far as the collection goes, in the collection's order.
pub proof fn lemma_pages_partition(all: Collection, limit: int, page: int)
    requires
        limit > 0,
        page >= 1,
    ensures
        ({
            let from = page_offset(limit, page);
            let run = list_run(all, limit, page);
            &&& from >= 0
            &&& page_offset(limit, page + 1) == from + limit
            &&& run.len() == if all.len() <= from {
                0
            } else if all.len() <= from + limit {
                all.len() - from
            } else {
                limit
            }
            &&& forall|i: int| 0 <= i < run.len() ==> #[trigger] run[i] == all[from + i]
        }),
{
    let from = page_offset(limit, page);
    assert(from >= 0) by (nonlinear_arith)
        requires
            from == (page - 1) * limit,
            page >= 1,
            limit > 0,
    ;
    assert(page_offset(limit, page + 1) == from + limit) by (nonlinear_arith)
        requires
            from == (page - 1) * limit,
            page_offset(limit, page + 1) == (page + 1 - 1) * limit,
    ;
}

/// An update of a document that is there sets the fields of the patch in it and
/// ends with the document as it then is; the collection is as long as before,
/// and every other document is as it was.
pub proof fn lemma_update_merges(all: Collection, id: Seq<char>, patch: Fields)
    requires
        distinct_ids(all),
        well_formed_id(id),
        holds_id(all, id_bytes(id)),
    ensures
        ({
            let before = find_one(all, id_bytes(id))->0;
            let (after, end) = update_run(all, id, patch);
            let now = Stored { id: id_bytes(id), fields: with_fields(before.fields, patch) };
            &&& end == Ok::<Stored, MyErrorView>(now)
            &&& get_run(after, id) == Ok::<Stored, MyErrorView>(now)
            &&& after.len() == all.len()
            &&& distinct_ids(after)
            &&& forall|other: Seq<u8>|
                other != id_bytes(id) ==> find_one(after, other) == find_one(all, other)
        }),
{
    let bytes = id_bytes(id);
    let at = position_of(all, bytes);
    let after = updated(all, bytes, patch);
    assert(after[at].id == bytes);
    assert(holds_id(after, bytes));
    let found = position_of(after, bytes);
    if found != at {
        assert(after[found] == all[found]);
    }
    assert forall|i: int, j: int|
        0 <= i < after.len() && 0 <= j < after.len() && i != j implies (#[trigger] after[i]).id != (
    #[trigger] after[j]).id by {
        assert(after[i].id == all[i].id && after[j].id == all[j].id);
    }
    assert forall|other: Seq<u8>| other != bytes implies find_one(after, other) == find_one(
        all,
        other,
    ) by {
        if holds_id(all, other) {
            let p = position_of(all, other);
            assert(after[p] == all[p]);
            assert(holds_id(after, other));
            let r = position_of(after, other);
            assert(after[r].id == all[r].id);
        } else if holds_id(after, other) {
            let r = position_of(after, other);
            assert(after[r].id == all[r].id);
        }
    }
}

} // verus!
