//! The decisions of the blog post repository.
//!
//! Each operation has a step that says what to ask of the store, named after
//! the operation, and a step that ends the operation with the store's reply.

use crate::blog::model::{BlogModel, BlogModelView};
use crate::blog::response::{
    BlogData, BlogListResponse, BlogListView, BlogResponse, BlogResponseView, SingleBlogResponse,
    SingleBlogView,
};
use crate::blog::schema::{CreateBlogSchema, CreateBlogView, UpdateBlogSchema, UpdateBlogView};
use crate::clock::now_millis;
use crate::document::{
    document_fields, lemma_patch_grows, maybe_flag, maybe_text, new_document, put_flag,
    put_instant, put_maybe_flag, put_maybe_text, put_text, with_field, lemma_with_fields_maybe,
    FieldValue, Fields,
};
use crate::error::{MyError, MyErrorView, StoreFailure, StoreFailureView};
use crate::ident::{hex_text, lemma_hex_text_round_trip, DocumentId};
use crate::paging::{offset_fits, page_offset, page_query, PageQuery};
use crate::response::success;
use crate::store::{
    ascending_index, delete_outcome, delete_reply, filter_by_id, found_view, id_filter, index_on,
    insert_outcome, insert_reply, lookup_outcome, lookup_reply, outcome_view, page_view,
    parse_id, parsed_id, query_outcome, reply_view, set_update, update_setting, InsertRequest,
    UpdateRequest,
};
use vstd::prelude::*;

verus! {

/// The field by which blog posts are unique.
pub open spec fn blog_key() -> Seq<char> {
    "title"@
}

/// The category that a new post is stored with.
pub open spec fn stored_category(body: CreateBlogView, category: Seq<char>) -> Seq<char> {
    match body.category {
        Some(own) => own,
        None => category,
    }
}

/// The published flag that a new post is stored with.
pub open spec fn stored_published(body: CreateBlogView, published: bool) -> bool {
    match body.published {
        Some(own) => own,
        None => published,
    }
}

/// The document of a blog post created at `now`: the two dates, both `now`, the
/// published flag and the category, for which `published` and `category` stand
/// in where the schema has none, then the other fields of the schema.
pub open spec fn blog_document(
    body: CreateBlogView,
    published: bool,
    category: Seq<char>,
    now: i64,
) -> Fields {
    seq![
        ("createdAt"@, FieldValue::Instant(now)),
        ("updatedAt"@, FieldValue::Instant(now)),
        ("published"@, FieldValue::Flag(stored_published(body, published))),
        ("category"@, FieldValue::Text(stored_category(body, category))),
        ("title"@, FieldValue::Text(body.title)),
        ("summary"@, FieldValue::Text(body.summary)),
        ("content"@, FieldValue::Text(body.content)),
    ]
}

/// The document of a new blog post as `create_blog` makes it: unpublished and
/// with an empty category where the schema says nothing else.
pub open spec fn new_blog_document(body: CreateBlogView, now: i64) -> Fields {
    blog_document(body, false, Seq::empty(), now)
}

/// The fields that an update sets: those that the schema holds, in the
/// schema's order.
pub open spec fn blog_patch(body: UpdateBlogView) -> Fields {
    maybe_text("title"@, body.title) + maybe_text("summary"@, body.summary) + maybe_text(
        "content"@,
        body.content,
    ) + maybe_text("category"@, body.category) + maybe_flag("published"@, body.published)
}

/// A stored blog post as callers see it.
pub open spec fn blog_response(blog: BlogModelView) -> BlogResponseView
    recommends
        blog.complete(),
{
    BlogResponseView {
        id: hex_text(blog.id),
        title: blog.title,
        summary: blog.summary,
        content: blog.content,
        category: blog.category->0,
        published: blog.published->0,
        createdAt: blog.createdAt,
        updatedAt: blog.updatedAt,
    }
}

/// The response that carries the stored blog post `blog`.
pub open spec fn single_blog(blog: BlogModelView) -> SingleBlogView {
    SingleBlogView { status: success(), blog: blog_response(blog) }
}

/// The response that carries the stored blog posts `blogs`.
pub open spec fn blog_list(blogs: Seq<BlogModelView>) -> BlogListView {
    BlogListView {
        status: success(),
        results: blogs.len(),
        blogs: blogs.map_values(|blog: BlogModelView| blog_response(blog)),
    }
}

/// How a listing ends.
pub open spec fn blogs_outcome(reply: Result<Seq<BlogModelView>, StoreFailureView>) -> Result<
    BlogListView,
    MyErrorView,
> {
    match query_outcome(reply) {
        Ok(blogs) => Ok(blog_list(blogs)),
        Err(e) => Err(e),
    }
}

/// How an operation that looks for the blog post with the identifier written
/// `id` ends.
pub open spec fn blog_outcome(
    id: Seq<char>,
    reply: Result<Option<BlogModelView>, StoreFailureView>,
) -> Result<SingleBlogView, MyErrorView> {
    match lookup_outcome(id, reply) {
        Ok(blog) => Ok(single_blog(blog)),
        Err(e) => Err(e),
    }
}

/// Whether the blog post that a lookup found, if it found one, has a category
/// and a published flag.
pub open spec fn found_complete(reply: Result<Option<BlogModel>, StoreFailure>) -> bool {
    reply matches Ok(Some(blog)) ==> blog@.complete()
}

/// Whether every blog post that a listing returned has a category and a
/// published flag.
pub open spec fn page_complete(reply: Result<Vec<BlogModel>, StoreFailure>) -> bool {
    reply matches Ok(blogs) ==> forall|i: int|
        0 <= i < blogs@.len() ==> (#[trigger] blogs@[i])@.complete()
}

/// The names of the fields of a blog post's document differ from one another.
pub proof fn lemma_blog_fields_differ()
    ensures
        "createdAt"@ != "updatedAt"@,
        "createdAt"@ != "published"@,
        "createdAt"@ != "category"@,
        "createdAt"@ != "title"@,
        "createdAt"@ != "summary"@,
        "createdAt"@ != "content"@,
        "updatedAt"@ != "published"@,
        "updatedAt"@ != "category"@,
        "updatedAt"@ != "title"@,
        "updatedAt"@ != "summary"@,
        "updatedAt"@ != "content"@,
        "published"@ != "category"@,
        "published"@ != "title"@,
        "published"@ != "summary"@,
        "published"@ != "content"@,
        "category"@ != "title"@,
        "category"@ != "summary"@,
        "category"@ != "content"@,
        "title"@ != "summary"@,
        "title"@ != "content"@,
        "summary"@ != "content"@,
{
    reveal_strlit("createdAt");
    reveal_strlit("updatedAt");
    reveal_strlit("published");
    reveal_strlit("category");
    reveal_strlit("title");
    reveal_strlit("summary");
    reveal_strlit("content");
    assert("createdAt"@.len() == 9 && "updatedAt"@.len() == 9 && "published"@.len() == 9);
    assert("category"@.len() == 8 && "title"@.len() == 5);
    assert("summary"@.len() == 7 && "content"@.len() == 7);
    assert("createdAt"@[0] == 'c' && "updatedAt"@[0] == 'u' && "published"@[0] == 'p');
    assert("summary"@[0] == 's' && "content"@[0] == 'c');
}

/// The blog post repository. It holds nothing: the collection is the caller's,
/// and every step is a function of its arguments.
#[derive(Clone, Copy, Debug)]
pub struct DB {}

impl DB {
    /// A blog post repository.
    pub fn new() -> DB {
        DB {  }
    }

    /// The query for page `page` of the blog posts, `limit` to the page.
    pub fn fetch_blogs(&self, limit: i64, page: i64) -> (q: PageQuery)
        requires
            offset_fits(limit as int, page as int),
        ensures
            q.limit == limit,
            q.skip == page_offset(limit as int, page as int),
    {
        page_query(limit, page)
    }

    /// Ends a listing with the blog posts that the store returned, in its
    /// order.
    pub fn fetch_blogs_reply(&self, reply: Result<Vec<BlogModel>, StoreFailure>) -> (r: Result<
        BlogListResponse,
        MyError,
    >)
        requires
            page_complete(reply),
        ensures
            outcome_view(r) == blogs_outcome(page_view(reply)),
    {
        let docs = match reply {
            Ok(docs) => docs,
            Err(f) => {
                return Err(MyError::MongoQueryError(f));
            },
        };
        let mut blogs: Vec<BlogResponse> = Vec::new();
        let mut i: usize = 0;
        while i < docs.len()
            invariant
                i <= docs.len(),
                blogs@.len() == i,
                forall|j: int| 0 <= j < docs@.len() ==> (#[trigger] docs@[j])@.complete(),
                forall|j: int| 0 <= j < i ==> (#[trigger] blogs@[j])@ == blog_response(docs@[j]@),
            decreases docs.len() - i,
        {
            match self.doc_to_blog(&docs[i]) {
                Ok(blog) => blogs.push(blog),
                Err(e) => {
                    return Err(e);
                },
            }
            i = i + 1;
        }
        let response = BlogListResponse { status: "success", results: blogs.len(), blogs };
        assert(response@.blogs =~= blog_list(docs@.map_values(|t: BlogModel| t@)).blogs);
        Ok(response)
    }

    /// The request that creates a blog post: a unique index on `title`, and the
    /// insert of the post's document, dated with the current time.
    pub fn create_blog(&self, body: &CreateBlogSchema) -> (r: Result<InsertRequest, MyError>)
        ensures
            r matches Ok(request) && document_fields(request.index_keys()) == ascending_index(
                blog_key(),
            ) && exists|now: i64|
                document_fields(request.document()) == new_blog_document(body@, now),
    {
        let published = match body.published {
            Some(published) => published,
            None => false,
        };
        let category = match &body.category {
            Some(category) => category.clone(),
            None => String::new(),
        };
        let document = match self.create_blog_document(body, published, category) {
            Ok(document) => document,
            Err(e) => {
                return Err(e);
            },
        };
        proof {
            let now = choose|now: i64|
                document_fields(document) == blog_document(body@, published, category@, now);
            assert(blog_document(body@, published, category@, now) =~= new_blog_document(
                body@,
                now,
            ));
        }
        Ok(InsertRequest::new(index_on("title"), document))
    }

    /// Ends the insert: the new identifier and the filter with which the new
    /// blog post is read back, or the error that the failure stands for.
    pub fn create_blog_inserted(&self, reply: Result<DocumentId, StoreFailure>) -> (r: Result<
        (DocumentId, bson::Document),
        MyError,
    >)
        ensures
            match insert_outcome(reply_view(reply)) {
                Ok(id) => r matches Ok((new_id, filter)) && new_id@ == id && document_fields(
                    filter,
                ) == id_filter(id),
                Err(e) => r matches Err(err) && err@ == e,
            },
    {
        match insert_reply(reply) {
            Ok(id) => Ok((id, filter_by_id(&id))),
            Err(e) => Err(e),
        }
    }

    /// Ends the creation with what the store read back under the new
    /// identifier `id`.
    pub fn create_blog_reply(
        &self,
        id: &DocumentId,
        reply: Result<Option<BlogModel>, StoreFailure>,
    ) -> (r: Result<SingleBlogResponse, MyError>)
        requires
            found_complete(reply),
        ensures
            outcome_view(r) == blog_outcome(hex_text(id@), found_view(reply)),
    {
        let text = id.to_hex();
        proof {
            id.lemma_len();
            lemma_hex_text_round_trip(id@);
        }
        self.get_blog_reply(text.as_str(), reply)
    }

    /// The filter with which the blog post with the identifier written `id` is
    /// looked for.
    pub fn get_blog(&self, id: &str) -> (r: Result<bson::Document, MyError>)
        ensures
            match parsed_id(id@) {
                Ok(bytes) => r matches Ok(filter) && document_fields(filter) == id_filter(bytes),
                Err(e) => r matches Err(err) && err@ == e,
            },
    {
        match parse_id(id) {
            Ok(oid) => Ok(filter_by_id(&oid)),
            Err(e) => Err(e),
        }
    }

    /// Ends a lookup with what the store found.
    pub fn get_blog_reply(&self, id: &str, reply: Result<Option<BlogModel>, StoreFailure>) -> (r:
        Result<SingleBlogResponse, MyError>)
        requires
            found_complete(reply),
        ensures
            outcome_view(r) == blog_outcome(id@, found_view(reply)),
    {
        match lookup_reply(id, reply) {
            Ok(doc) => {
                match self.doc_to_blog(&doc) {
                    Ok(blog) => Ok(
                        SingleBlogResponse { status: "success", data: BlogData { blog } },
                    ),
                    Err(e) => Err(e),
                }
            },
            Err(e) => Err(e),
        }
    }

    /// The request that changes the blog post with the identifier written `id`:
    /// the fields that `body` holds are set, the others stay. The two dates are
    /// among the others: an update does not touch `updatedAt`.
    pub fn edit_blog(&self, id: &str, body: &UpdateBlogSchema) -> (r: Result<
        UpdateRequest,
        MyError,
    >)
        ensures
            match parsed_id(id@) {
                Ok(bytes) => r matches Ok(request) && document_fields(request.filter) == id_filter(
                    bytes,
                ) && document_fields(request.update) == set_update(blog_patch(body@)),
                Err(e) => r matches Err(err) && err@ == e,
            },
    {
        let oid = match parse_id(id) {
            Ok(oid) => oid,
            Err(e) => {
                return Err(e);
            },
        };
        let mut patch = new_document();
        put_maybe_text(&mut patch, "title", &body.title);
        put_maybe_text(&mut patch, "summary", &body.summary);
        put_maybe_text(&mut patch, "content", &body.content);
        put_maybe_text(&mut patch, "category", &body.category);
        put_maybe_flag(&mut patch, "published", body.published);
        proof {
            lemma_blog_fields_differ();
            let none: Fields = Seq::empty();
            let title = maybe_text("title"@, body@.title);
            let summary = maybe_text("summary"@, body@.summary);
            let content = maybe_text("content"@, body@.content);
            let category = maybe_text("category"@, body@.category);
            let published = maybe_flag("published"@, body@.published);
            lemma_patch_grows(none, "title"@, title);
            assert(none + title =~= title);
            lemma_patch_grows(title, "summary"@, summary);
            lemma_patch_grows(title + summary, "content"@, content);
            lemma_patch_grows(title + summary + content, "category"@, category);
            lemma_patch_grows(title + summary + content + category, "published"@, published);
        }
        Ok(UpdateRequest { filter: filter_by_id(&oid), update: update_setting(patch) })
    }

    /// Ends an update with the blog post as the store returned it after the
    /// update.
    pub fn edit_blog_reply(&self, id: &str, reply: Result<Option<BlogModel>, StoreFailure>) -> (r:
        Result<SingleBlogResponse, MyError>)
        requires
            found_complete(reply),
        ensures
            outcome_view(r) == blog_outcome(id@, found_view(reply)),
    {
        self.get_blog_reply(id, reply)
    }

    /// The filter with which the blog post with the identifier written `id` is
    /// deleted.
    pub fn delete_blog(&self, id: &str) -> (r: Result<bson::Document, MyError>)
        ensures
            match parsed_id(id@) {
                Ok(bytes) => r matches Ok(filter) && document_fields(filter) == id_filter(bytes),
                Err(e) => r matches Err(err) && err@ == e,
            },
    {
        self.get_blog(id)
    }

    /// Ends a delete with the number of documents that the store deleted.
    pub fn delete_blog_reply(&self, id: &str, reply: Result<u64, StoreFailure>) -> (r: Result<
        (),
        MyError,
    >)
        ensures
            outcome_view(r) == delete_outcome(id@, reply_view(reply)),
    {
        delete_reply(id, reply)
    }

    /// A stored blog post as callers see it.
    pub fn doc_to_blog(&self, blog: &BlogModel) -> (r: Result<BlogResponse, MyError>)
        requires
            blog@.complete(),
        ensures
            r matches Ok(response) && response@ == blog_response(blog@),
    {
        let category = match &blog.category {
            Some(category) => category.clone(),
            None => String::new(),
        };
        let published = match blog.published {
            Some(published) => published,
            None => false,
        };
        let blog_response = BlogResponse {
            id: blog.id.to_hex(),
            title: blog.title.clone(),
            summary: blog.summary.clone(),
            content: blog.content.clone(),
            category,
            published,
            createdAt: blog.createdAt,
            updatedAt: blog.updatedAt,
        };
        Ok(blog_response)
    }

    /// The document of a blog post created now.
    pub fn create_blog_document(
        &self,
        body: &CreateBlogSchema,
        published: bool,
        category: String,
    ) -> (r: Result<bson::Document, MyError>)
        ensures
            r matches Ok(d) && exists|now: i64|
                document_fields(d) == blog_document(body@, published, category@, now),
    {
        let now = now_millis();
        Ok(self.blog_document_at(body, published, category, now))
    }

    /// The document of a blog post created at `now`.
    pub fn blog_document_at(
        &self,
        body: &CreateBlogSchema,
        published: bool,
        category: String,
        now: i64,
    ) -> (d: bson::Document)
        ensures
            document_fields(d) == blog_document(body@, published, category@, now),
    {
        let mut d = new_document();
        put_instant(&mut d, "createdAt", now);
        put_instant(&mut d, "updatedAt", now);
        put_flag(&mut d, "published", published);
        put_text(&mut d, "category", category.as_str());
        put_text(&mut d, "title", body.title.as_str());
        put_text(&mut d, "summary", body.summary.as_str());
        put_text(&mut d, "content", body.content.as_str());
        let ghost base = document_fields(d);
        proof {
            lemma_blog_fields_differ();
            reveal_with_fuel(with_field, 8);
            assert(base =~= blog_document(
                crate::blog::schema::CreateBlogView {
                    title: body@.title,
                    summary: body@.summary,
                    content: body@.content,
                    category: None,
                    published: None,
                },
                published,
                category@,
                now,
            ));
        }
        put_maybe_text(&mut d, "category", &body.category);
        let ghost with_category = document_fields(d);
        put_maybe_flag(&mut d, "published", body.published);
        proof {
            lemma_with_fields_maybe(base, maybe_text("category"@, body@.category));
            lemma_with_fields_maybe(with_category, maybe_flag("published"@, body@.published));
            assert(document_fields(d) =~= blog_document(body@, published, category@, now));
        }
        d
    }
}

} // verus!
