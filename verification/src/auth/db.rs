//! The decisions of the user repository.
//!
//! Each operation has a step that says what to ask of the store, named after
//! the operation, and a step that ends the operation with the store's reply.

use crate::auth::model::{UserModel, UserModelView};
use crate::auth::response::{
    SingleUserResponse, SingleUserView, UserData, UserListResponse, UserListView, UserResponse,
    UserResponseView,
};
use crate::auth::schema::{CreateUserSchema, CreateUserView, UpdateUserSchema, UpdateUserView};
use crate::clock::now_millis;
use crate::document::{
    document_fields, lemma_patch_grows, maybe_text, new_document, put_instant, put_maybe_text,
    put_text, FieldValue, Fields,
};
use crate::error::{MyError, MyErrorView, StoreFailure, StoreFailureView};
use crate::ident::{hex_text, lemma_hex_text_round_trip, DocumentId};
use crate::paging::{offset_fits, page_offset, page_query, PageQuery};
use crate::response::success;
use crate::store::{
    ascending_index, delete_outcome, delete_reply, filter_by_id, found_view, id_filter, index_on,
    insert_outcome, insert_reply, lookup_outcome, lookup_reply, outcome_view, page_view,
    parse_id, parsed_id, query_outcome, reply_view, set_update, update_setting,
    InsertRequest, UpdateRequest,
};
use vstd::prelude::*;

verus! {

/// The field by which users are unique.
pub open spec fn user_key() -> Seq<char> {
    "name"@
}

/// The document of a user created at `now`: the two dates, both `now`, then the
/// fields of the schema.
pub open spec fn user_document(body: CreateUserView, now: i64) -> Fields {
    seq![
        ("createdAt"@, FieldValue::Instant(now)),
        ("updatedAt"@, FieldValue::Instant(now)),
        ("name"@, FieldValue::Text(body.name)),
        ("uid"@, FieldValue::Text(body.uid)),
    ]
}

/// The fields that an update sets: those that the schema holds, `name` before
/// `uid`.
pub open spec fn user_patch(body: UpdateUserView) -> Fields {
    maybe_text("name"@, body.name) + maybe_text("uid"@, body.uid)
}

/// A stored user as callers see it.
pub open spec fn user_response(user: UserModelView) -> UserResponseView {
    UserResponseView {
        id: hex_text(user.id),
        name: user.name,
        uid: user.uid,
        createdAt: user.createdAt,
        updatedAt: user.updatedAt,
    }
}

/// The response that carries the stored user `user`.
pub open spec fn single_user(user: UserModelView) -> SingleUserView {
    SingleUserView { status: success(), user: user_response(user) }
}

/// The response that carries the stored users `users`.
pub open spec fn user_list(users: Seq<UserModelView>) -> UserListView {
    UserListView {
        status: success(),
        results: users.len(),
        users: users.map_values(|user: UserModelView| user_response(user)),
    }
}

/// How a listing ends.
pub open spec fn users_outcome(reply: Result<Seq<UserModelView>, StoreFailureView>) -> Result<
    UserListView,
    MyErrorView,
> {
    match query_outcome(reply) {
        Ok(users) => Ok(user_list(users)),
        Err(e) => Err(e),
    }
}

/// How an operation that looks for the user with the identifier written `id`
/// ends.
pub open spec fn user_outcome(
    id: Seq<char>,
    reply: Result<Option<UserModelView>, StoreFailureView>,
) -> Result<SingleUserView, MyErrorView> {
    match lookup_outcome(id, reply) {
        Ok(user) => Ok(single_user(user)),
        Err(e) => Err(e),
    }
}

/// The names of the fields of a user's document differ from one another.
pub proof fn lemma_user_fields_differ()
    ensures
        "createdAt"@ != "updatedAt"@,
        "createdAt"@ != "name"@,
        "createdAt"@ != "uid"@,
        "updatedAt"@ != "name"@,
        "updatedAt"@ != "uid"@,
        "name"@ != "uid"@,
{
    reveal_strlit("createdAt");
    reveal_strlit("updatedAt");
    reveal_strlit("name");
    reveal_strlit("uid");
    assert("createdAt"@[0] != "updatedAt"@[0]);
    assert("createdAt"@.len() == 9 && "updatedAt"@.len() == 9);
    assert("name"@.len() == 4 && "uid"@.len() == 3);
}

/// The user repository. It holds nothing: the collection is the caller's, and
/// every step is a function of its arguments.
#[derive(Clone, Copy, Debug)]
pub struct DB {}

impl DB {
    /// A user repository.
    pub fn new() -> DB {
        DB {  }
    }

    /// The query for page `page` of the users, `limit` to the page.
    pub fn fetch_users(&self, limit: i64, page: i64) -> (q: PageQuery)
        requires
            offset_fits(limit as int, page as int),
        ensures
            q.limit == limit,
            q.skip == page_offset(limit as int, page as int),
    {
        page_query(limit, page)
    }

    /// Ends a listing with the users that the store returned, in its order.
    pub fn fetch_users_reply(&self, reply: Result<Vec<UserModel>, StoreFailure>) -> (r: Result<
        UserListResponse,
        MyError,
    >)
        ensures
            outcome_view(r) == users_outcome(page_view(reply)),
    {
        let docs = match reply {
            Ok(docs) => docs,
            Err(f) => {
                return Err(MyError::MongoQueryError(f));
            },
        };
        let mut users: Vec<UserResponse> = Vec::new();
        let mut i: usize = 0;
        while i < docs.len()
            invariant
                i <= docs.len(),
                users@.len() == i,
                forall|j: int| 0 <= j < i ==> (#[trigger] users@[j])@ == user_response(docs@[j]@),
            decreases docs.len() - i,
        {
            match self.doc_to_user(&docs[i]) {
                Ok(user) => users.push(user),
                Err(e) => {
                    return Err(e);
                },
            }
            i = i + 1;
        }
        let response = UserListResponse { status: "success", results: users.len(), users };
        assert(response@.users =~= user_list(docs@.map_values(|t: UserModel| t@)).users);
        Ok(response)
    }

    /// The request that creates a user: a unique index on `name`, and the
    /// insert of the user's document, dated with the current time.
    pub fn create_user(&self, body: &CreateUserSchema) -> (r: Result<InsertRequest, MyError>)
        ensures
            r matches Ok(request) && document_fields(request.index_keys()) == ascending_index(
                user_key(),
            ) && exists|now: i64| document_fields(request.document()) == user_document(body@, now),
    {
        let document = match self.create_user_document(body) {
            Ok(document) => document,
            Err(e) => {
                return Err(e);
            },
        };
        Ok(InsertRequest::new(index_on("name"), document))
    }

    /// Ends the insert: the new identifier and the filter with which the new
    /// user is read back, or the error that the failure stands for.
    pub fn create_user_inserted(&self, reply: Result<DocumentId, StoreFailure>) -> (r: Result<
        (DocumentId, bson::Document),
        MyError,
    >)
        ensures
            match insert_outcome(reply_view(reply)) {
                Ok(id) => r matches Ok((new_id, filter)) && new_id@ == id && document_fields(
                    filter,
                ) == id_filter(id),
                Err(e) => r matches Err(err) && err@ == e,
            },
    {
        match insert_reply(reply) {
            Ok(id) => Ok((id, filter_by_id(&id))),
            Err(e) => Err(e),
        }
    }

    /// Ends the creation with what the store read back under the new
    /// identifier `id`.
    pub fn create_user_reply(
        &self,
        id: &DocumentId,
        reply: Result<Option<UserModel>, StoreFailure>,
    ) -> (r: Result<SingleUserResponse, MyError>)
        ensures
            outcome_view(r) == user_outcome(hex_text(id@), found_view(reply)),
    {
        let text = id.to_hex();
        proof {
            id.lemma_len();
            lemma_hex_text_round_trip(id@);
        }
        self.get_user_reply(text.as_str(), reply)
    }

    /// The filter with which the user with the identifier written `id` is
    /// looked for.
    pub fn get_user(&self, id: &str) -> (r: Result<bson::Document, MyError>)
        ensures
            match parsed_id(id@) {
                Ok(bytes) => r matches Ok(filter) && document_fields(filter) == id_filter(bytes),
                Err(e) => r matches Err(err) && err@ == e,
            },
    {
        match parse_id(id) {
            Ok(oid) => Ok(filter_by_id(&oid)),
            Err(e) => Err(e),
        }
    }

    /// Ends a lookup with what the store found.
    pub fn get_user_reply(&self, id: &str, reply: Result<Option<UserModel>, StoreFailure>) -> (r:
        Result<SingleUserResponse, MyError>)
        ensures
            outcome_view(r) == user_outcome(id@, found_view(reply)),
    {
        match lookup_reply(id, reply) {
            Ok(doc) => {
                match self.doc_to_user(&doc) {
                    Ok(user) => Ok(
                        SingleUserResponse { status: "success", data: UserData { user } },
                    ),
                    Err(e) => Err(e),
                }
            },
            Err(e) => Err(e),
        }
    }

    /// The request that changes the user with the identifier written `id`: the
    /// fields that `body` holds are set, the others stay. The two dates are among
    /// the others: an update does not touch `updatedAt`.
    pub fn edit_user(&self, id: &str, body: &UpdateUserSchema) -> (r: Result<
        UpdateRequest,
        MyError,
    >)
        ensures
            match parsed_id(id@) {
                Ok(bytes) => r matches Ok(request) && document_fields(request.filter) == id_filter(
                    bytes,
                ) && document_fields(request.update) == set_update(user_patch(body@)),
                Err(e) => r matches Err(err) && err@ == e,
            },
    {
        let oid = match parse_id(id) {
            Ok(oid) => oid,
            Err(e) => {
                return Err(e);
            },
        };
        let mut patch = new_document();
        put_maybe_text(&mut patch, "name", &body.name);
        put_maybe_text(&mut patch, "uid", &body.uid);
        proof {
            lemma_user_fields_differ();
            let name = maybe_text("name"@, body@.name);
            lemma_patch_grows(Seq::empty(), "name"@, name);
            lemma_patch_grows(Seq::empty() + name, "uid"@, maybe_text("uid"@, body@.uid));
            assert(Seq::<(Seq<char>, FieldValue)>::empty() + name =~= name);
        }
        Ok(UpdateRequest { filter: filter_by_id(&oid), update: update_setting(patch) })
    }

    /// Ends an update with the user as the store returned it after the update.
    pub fn edit_user_reply(&self, id: &str, reply: Result<Option<UserModel>, StoreFailure>) -> (r:
        Result<SingleUserResponse, MyError>)
        ensures
            outcome_view(r) == user_outcome(id@, found_view(reply)),
    {
        self.get_user_reply(id, reply)
    }

    /// The filter with which the user with the identifier written `id` is
    /// deleted.
    pub fn delete_user(&self, id: &str) -> (r: Result<bson::Document, MyError>)
        ensures
            match parsed_id(id@) {
                Ok(bytes) => r matches Ok(filter) && document_fields(filter) == id_filter(bytes),
                Err(e) => r matches Err(err) && err@ == e,
            },
    {
        self.get_user(id)
    }

    /// Ends a delete with the number of documents that the store deleted.
    pub fn delete_user_reply(&self, id: &str, reply: Result<u64, StoreFailure>) -> (r: Result<
        (),
        MyError,
    >)
        ensures
            outcome_view(r) == delete_outcome(id@, reply_view(reply)),
    {
        delete_reply(id, reply)
    }

    /// A stored user as callers see it.
    pub fn doc_to_user(&self, user: &UserModel) -> (r: Result<UserResponse, MyError>)
        ensures
            r matches Ok(response) && response@ == user_response(user@),
    {
        let user_response = UserResponse {
            id: user.id.to_hex(),
            name: user.name.clone(),
            uid: user.uid.clone(),
            createdAt: user.createdAt,
            updatedAt: user.updatedAt,
        };
        Ok(user_response)
    }

    /// The document of a user created now.
    pub fn create_user_document(&self, body: &CreateUserSchema) -> (r: Result<
        bson::Document,
        MyError,
    >)
        ensures
            r matches Ok(d) && exists|now: i64| document_fields(d) == user_document(body@, now),
    {
        let now = now_millis();
        Ok(self.user_document_at(body, now))
    }

    /// The document of a user created at `now`.
    pub fn user_document_at(&self, body: &CreateUserSchema, now: i64) -> (d: bson::Document)
        ensures
            document_fields(d) == user_document(body@, now),
    {
        let mut d = new_document();
        put_instant(&mut d, "createdAt", now);
        put_instant(&mut d, "updatedAt", now);
        put_text(&mut d, "name", body.name.as_str());
        put_text(&mut d, "uid", body.uid.as_str());
        proof {
            lemma_user_fields_differ();
            reveal_with_fuel(crate::document::with_field, 5);
            assert(document_fields(d) =~= user_document(body@, now));
        }
        d
    }
}

} // verus!
