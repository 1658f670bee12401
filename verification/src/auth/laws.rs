//! What the user repository's steps add up to when the store does its part
//! without failing and nothing else writes to the collection.
//!
//! A run joins the steps of one operation of `DB` with the store's replies, as
//! `crate::collection` describes them and as the store's client reads a user
//! out of a document.

use crate::auth::db::{
    lemma_user_fields_differ, single_user, user_document, user_key, user_outcome, user_patch,
    user_response, users_outcome,
};
use crate::auth::model::UserModelView;
use crate::auth::response::{SingleUserView, UserListView, UserResponseView};
use crate::auth::schema::{CreateUserView, UpdateUserView};
use crate::collection::{
    accepts, distinct_ids, find_one, holds_id, holds_key, inserted, updated, Collection, Stored,
};
use crate::document::{
    field_value, lemma_maybe_sets, lemma_with_fields_concat, maybe_text, with_fields, FieldValue,
};
use crate::error::{is_duplicate_key, MyErrorView, StoreFailureView};
use crate::ident::{hex_text, id_bytes, lemma_hex_text_round_trip, well_formed_id};
use crate::laws::{
    delete_run, lemma_deleted, lemma_find_inserted, lemma_pages_partition, lemma_update_merges,
    list_run,
};
use crate::paging::page_offset;
use crate::response::success;
use crate::store::{insert_outcome, parsed_id};
use vstd::prelude::*;

verus! {

/// The user that a stored document holds, if it holds one: its `name` and `uid`
/// are strings and its two dates are dates.
pub open spec fn stored_user(doc: Stored) -> Option<UserModelView> {
    match (
        field_value(doc.fields, "name"@),
        field_value(doc.fields, "uid"@),
        field_value(doc.fields, "createdAt"@),
        field_value(doc.fields, "updatedAt"@),
    ) {
        (
            Some(FieldValue::Text(name)),
            Some(FieldValue::Text(uid)),
            Some(FieldValue::Instant(created)),
            Some(FieldValue::Instant(updated)),
        ) => Some(UserModelView { id: doc.id, name, uid, createdAt: created, updatedAt: updated }),
        _ => None,
    }
}

/// Whether every document of a collection holds a user.
pub open spec fn all_users(all: Collection) -> bool {
    forall|i: int| 0 <= i < all.len() ==> stored_user(#[trigger] all[i]) is Some
}

/// The user that a lookup by identifier finds.
pub open spec fn found_user(all: Collection, id: Seq<u8>) -> Option<UserModelView> {
    match find_one(all, id) {
        Some(doc) => stored_user(doc),
        None => None,
    }
}

/// A user after an update: the fields that the update holds take its values,
/// the others and the two dates stay.
pub open spec fn user_after(user: UserModelView, body: UpdateUserView) -> UserModelView {
    UserModelView {
        id: user.id,
        name: match body.name {
            Some(name) => name,
            None => user.name,
        },
        uid: match body.uid {
            Some(uid) => uid,
            None => user.uid,
        },
        createdAt: user.createdAt,
        updatedAt: user.updatedAt,
    }
}

/// A creation at the instant `now`. `id` is the identifier that the store gives
/// the user if it takes it, `failure` what it reports if it does not.
pub open spec fn create_user_run(
    all: Collection,
    body: CreateUserView,
    now: i64,
    id: Seq<u8>,
    failure: StoreFailureView,
) -> (Collection, Result<SingleUserView, MyErrorView>) {
    let document = user_document(body, now);
    let taken = accepts(all, user_key(), document);
    let after = if taken {
        inserted(all, id, document)
    } else {
        all
    };
    let reply = if taken {
        Ok(id)
    } else {
        Err(failure)
    };
    match insert_outcome(reply) {
        Ok(id) => (after, user_outcome(hex_text(id), Ok(found_user(after, id)))),
        Err(e) => (after, Err(e)),
    }
}

/// A lookup of the user with the identifier written `id`.
pub open spec fn get_user_run(all: Collection, id: Seq<char>) -> Result<
    SingleUserView,
    MyErrorView,
> {
    match parsed_id(id) {
        Ok(bytes) => user_outcome(id, Ok(found_user(all, bytes))),
        Err(e) => Err(e),
    }
}

/// An update of the user with the identifier written `id`.
pub open spec fn edit_user_run(all: Collection, id: Seq<char>, body: UpdateUserView) -> (
    Collection,
    Result<SingleUserView, MyErrorView>,
) {
    match parsed_id(id) {
        Ok(bytes) => {
            let after = updated(all, bytes, user_patch(body));
            (after, user_outcome(id, Ok(found_user(after, bytes))))
        },
        Err(e) => (all, Err(e)),
    }
}

/// A delete of the user with the identifier written `id`.
pub open spec fn delete_user_run(all: Collection, id: Seq<char>) -> (
    Collection,
    Result<(), MyErrorView>,
) {
    delete_run(all, id)
}

/// A listing of page `page` of the users, `limit` to the page.
pub open spec fn fetch_users_run(all: Collection, limit: int, page: int) -> Result<
    UserListView,
    MyErrorView,
> {
    users_outcome(Ok(list_run(all, limit, page).map_values(|doc: Stored| stored_user(doc)->0)))
}

/// The document that is made for a new user holds that user: the fields of the
/// schema as they were given, and both dates the instant of creation.
pub proof fn lemma_user_document(body: CreateUserView, now: i64, id: Seq<u8>)
    ensures
        field_value(user_document(body, now), user_key()) == Some(FieldValue::Text(body.name)),
        stored_user(Stored { id, fields: user_document(body, now) }) == Some(
            UserModelView { id, name: body.name, uid: body.uid, createdAt: now, updatedAt: now },
        ),
{
    lemma_user_fields_differ();
    let fields = user_document(body, now);
    let one = fields.drop_first();
    let two = one.drop_first();
    let three = two.drop_first();
    assert(one[0] == fields[1] && two[0] == fields[2] && three[0] == fields[3]);
    assert(three.drop_first().len() == 0);
    reveal_with_fuel(field_value, 5);
}

/// Setting the fields of an update in a user's document changes those fields
/// of the user and no others.
pub proof fn lemma_user_patch(doc: Stored, body: UpdateUserView)
    requires
        stored_user(doc) is Some,
    ensures
        stored_user(Stored { id: doc.id, fields: with_fields(doc.fields, user_patch(body)) })
            == Some(user_after(stored_user(doc)->0, body)),
{
    lemma_user_fields_differ();
    let name = maybe_text("name"@, body.name);
    let uid = maybe_text("uid"@, body.uid);
    lemma_with_fields_concat(doc.fields, name, uid);
    lemma_maybe_sets(doc.fields, "name"@, name);
    lemma_maybe_sets(with_fields(doc.fields, name), "uid"@, uid);
}

/// Creating a user whose name no stored document has succeeds. The response
/// carries the text of the new identifier, the name and the uid as they were
/// given, and two equal dates, the instant of creation. The collection gains
/// the user's document, last, and a lookup under the identifier of the response
/// then returns the same response.
pub proof fn lemma_create_user_unique(
    all: Collection,
    body: CreateUserView,
    now: i64,
    id: Seq<u8>,
    failure: StoreFailureView,
)
    requires
        id.len() == 12,
        !holds_id(all, id),
        !holds_key(all, user_key(), FieldValue::Text(body.name)),
    ensures
        ({
            let (after, end) = create_user_run(all, body, now, id, failure);
            let shown = SingleUserView {
                status: success(),
                user: UserResponseView {
                    id: hex_text(id),
                    name: body.name,
                    uid: body.uid,
                    createdAt: now,
                    updatedAt: now,
                },
            };
            &&& after == all.push(Stored { id, fields: user_document(body, now) })
            &&& end == Ok::<SingleUserView, MyErrorView>(shown)
            &&& get_user_run(after, shown.user.id) == end
            &&& all_users(all) ==> all_users(after)
            &&& distinct_ids(all) ==> distinct_ids(after)
        }),
{
    lemma_user_document(body, now, id);
    lemma_hex_text_round_trip(id);
    lemma_find_inserted(all, id, user_document(body, now));
}

/// Creating a user whose name a stored document has fails with a duplicate
/// error, and the collection stays as it was.
pub proof fn lemma_create_user_duplicate(
    all: Collection,
    body: CreateUserView,
    now: i64,
    id: Seq<u8>,
    failure: StoreFailureView,
)
    requires
        holds_key(all, user_key(), FieldValue::Text(body.name)),
        is_duplicate_key(failure),
    ensures
        create_user_run(all, body, now, id, failure) == (
            all,
            Err::<SingleUserView, MyErrorView>(MyErrorView::MongoDuplicateError(failure)),
        ),
{
    lemma_user_document(body, now, id);
}

/// With a malformed identifier, looking up, updating and deleting a user end
/// with an invalid-identifier error that carries the text, whatever the
/// collection holds, and leave the collection as it was.
pub proof fn lemma_user_malformed_id(all: Collection, id: Seq<char>, body: UpdateUserView)
    requires
        !well_formed_id(id),
    ensures
        get_user_run(all, id) == Err::<SingleUserView, MyErrorView>(
            MyErrorView::InvalidIDError(id),
        ),
        edit_user_run(all, id, body) == (
            all,
            Err::<SingleUserView, MyErrorView>(MyErrorView::InvalidIDError(id)),
        ),
        delete_user_run(all, id) == (
            all,
            Err::<(), MyErrorView>(MyErrorView::InvalidIDError(id)),
        ),
{
}

/// With a well-formed identifier that no document has, looking up, updating
/// and deleting a user end with a not-found error that carries the text, and
/// leave the collection as it was.
pub proof fn lemma_user_absent_id(all: Collection, id: Seq<char>, body: UpdateUserView)
    requires
        well_formed_id(id),
        !holds_id(all, id_bytes(id)),
    ensures
        get_user_run(all, id) == Err::<SingleUserView, MyErrorView>(
            MyErrorView::NotFoundError(id),
        ),
        edit_user_run(all, id, body) == (
            all,
            Err::<SingleUserView, MyErrorView>(MyErrorView::NotFoundError(id)),
        ),
        delete_user_run(all, id) == (all, Err::<(), MyErrorView>(MyErrorView::NotFoundError(id))),
{
}

/// Deleting a user that is there succeeds and removes one document; deleting
/// it again, or looking it up, then ends with a not-found error.
pub proof fn lemma_delete_user_twice(all: Collection, id: Seq<char>)
    requires
        distinct_ids(all),
        well_formed_id(id),
        holds_id(all, id_bytes(id)),
    ensures
        ({
            let (after, end) = delete_user_run(all, id);
            &&& end == Ok::<(), MyErrorView>(())
            &&& after.len() + 1 == all.len()
            &&& delete_user_run(after, id) == (
                after,
                Err::<(), MyErrorView>(MyErrorView::NotFoundError(id)),
            )
            &&& get_user_run(after, id) == Err::<SingleUserView, MyErrorView>(
                MyErrorView::NotFoundError(id),
            )
        }),
{
    lemma_deleted(all, id_bytes(id));
}

/// A listing succeeds. Page `page` shows the users at the positions from
/// `(page - 1) * limit` up to `page * limit`, as far as the collection goes, in
/// the collection's order, and counts them: pages of one size do not overlap
/// and leave no user out.
pub proof fn lemma_user_pages(all: Collection, limit: int, page: int)
    requires
        limit > 0,
        page >= 1,
    ensures
        ({
            let from = page_offset(limit, page);
            &&& from >= 0
            &&& page_offset(limit, page + 1) == from + limit
            &&& fetch_users_run(all, limit, page) matches Ok(list)
            &&& list.status == success()
            &&& list.results == list.users.len()
            &&& list.users.len() == if all.len() <= from {
                0
            } else if all.len() <= from + limit {
                all.len() - from
            } else {
                limit
            }
            &&& forall|i: int|
                0 <= i < list.users.len() ==> #[trigger] list.users[i] == user_response(
                    stored_user(all[from + i])->0,
                )
        }),
{
    lemma_pages_partition(all, limit, page);
}

/// Updating a stored user changes the fields that the update holds and no
/// others: the response shows the user as `user_after` gives it, a later lookup
/// returns the same response, and every other document is as it was.
pub proof fn lemma_update_user_partial(all: Collection, id: Seq<char>, body: UpdateUserView)
    requires
        distinct_ids(all),
        well_formed_id(id),
        holds_id(all, id_bytes(id)),
        found_user(all, id_bytes(id)) is Some,
    ensures
        ({
            let before = found_user(all, id_bytes(id))->0;
            let (after, end) = edit_user_run(all, id, body);
            &&& end == Ok::<SingleUserView, MyErrorView>(single_user(user_after(before, body)))
            &&& get_user_run(after, id) == end
            &&& after.len() == all.len()
            &&& forall|other: Seq<u8>|
                other != id_bytes(id) ==> find_one(after, other) == find_one(all, other)
        }),
{
    lemma_update_merges(all, id, user_patch(body));
    let before = find_one(all, id_bytes(id))->0;
    assert(before.id == id_bytes(id));
    lemma_user_patch(before, body);
}

} // verus!
