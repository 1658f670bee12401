//! What the blog post repository's steps add up to when the store does its
//! part without failing and nothing else writes to the collection.
//!
//! A run joins the steps of one operation of `DB` with the store's replies, as
//! `crate::collection` describes them and as the store's client reads a blog
//! post out of a document.

use crate::blog::db::{
    blog_document, blog_key, blog_outcome, blog_patch, blog_response, blogs_outcome,
    lemma_blog_fields_differ, new_blog_document, single_blog, stored_category, stored_published,
};
use crate::blog::model::BlogModelView;
use crate::blog::response::{BlogListView, BlogResponseView, SingleBlogView};
use crate::blog::schema::{CreateBlogView, UpdateBlogView};
use crate::collection::{
    accepts, distinct_ids, find_one, holds_id, holds_key, inserted, updated, Collection, Stored,
};
use crate::document::{
    field_value, lemma_maybe_sets, lemma_with_fields_concat, maybe_flag, maybe_text, with_fields,
    FieldValue,
};
use crate::error::{is_duplicate_key, MyErrorView, StoreFailureView};
use crate::ident::{hex_text, id_bytes, lemma_hex_text_round_trip, well_formed_id};
use crate::laws::{
    delete_run, lemma_deleted, lemma_find_inserted, lemma_pages_partition, lemma_update_merges,
    list_run,
};
use crate::paging::page_offset;
use crate::response::success;
use crate::store::{insert_outcome, parsed_id};
use vstd::prelude::*;

verus! {

/// Whether a field that may be absent is absent or a string.
pub open spec fn absent_or_text(value: Option<FieldValue>) -> bool {
    value is None || value->0 is Text
}

/// Whether a field that may be absent is absent or a boolean.
pub open spec fn absent_or_flag(value: Option<FieldValue>) -> bool {
    value is None || value->0 is Flag
}

/// The string of a field that may be absent.
pub open spec fn text_in(value: Option<FieldValue>) -> Option<Seq<char>> {
    match value {
        Some(FieldValue::Text(text)) => Some(text),
        _ => None,
    }
}

/// The boolean of a field that may be absent.
pub open spec fn flag_in(value: Option<FieldValue>) -> Option<bool> {
    match value {
        Some(FieldValue::Flag(flag)) => Some(flag),
        _ => None,
    }
}

/// The blog post that a stored document holds, if it holds one: its `title`,
/// `summary` and `content` are strings, its two dates are dates, and its
/// `category` and `published`, where it has them, are a string and a boolean.
pub open spec fn stored_blog(doc: Stored) -> Option<BlogModelView> {
    match (
        field_value(doc.fields, "title"@),
        field_value(doc.fields, "summary"@),
        field_value(doc.fields, "content"@),
        field_value(doc.fields, "createdAt"@),
        field_value(doc.fields, "updatedAt"@),
    ) {
        (
            Some(FieldValue::Text(title)),
            Some(FieldValue::Text(summary)),
            Some(FieldValue::Text(content)),
            Some(FieldValue::Instant(created)),
            Some(FieldValue::Instant(updated)),
        ) => if absent_or_text(field_value(doc.fields, "category"@)) && absent_or_flag(
            field_value(doc.fields, "published"@),
        ) {
            Some(
                BlogModelView {
                    id: doc.id,
                    title,
                    summary,
                    content,
                    category: text_in(field_value(doc.fields, "category"@)),
                    published: flag_in(field_value(doc.fields, "published"@)),
                    createdAt: created,
                    updatedAt: updated,
                },
            )
        } else {
            None
        },
        _ => None,
    }
}

/// A blog post after an update: the fields that the update holds take its
/// values, the others and the two dates stay.
pub open spec fn blog_after(blog: BlogModelView, body: UpdateBlogView) -> BlogModelView {
    BlogModelView {
        id: blog.id,
        title: match body.title {
            Some(title) => title,
            None => blog.title,
        },
        summary: match body.summary {
            Some(summary) => summary,
            None => blog.summary,
        },
        content: match body.content {
            Some(content) => content,
            None => blog.content,
        },
        category: match body.category {
            Some(category) => Some(category),
            None => blog.category,
        },
        published: match body.published {
            Some(published) => Some(published),
            None => blog.published,
        },
        createdAt: blog.createdAt,
        updatedAt: blog.updatedAt,
    }
}

/// Whether every document of a collection holds a blog post with a category
/// and a published flag.
pub open spec fn all_blogs(all: Collection) -> bool {
    forall|i: int|
        0 <= i < all.len() ==> stored_blog(#[trigger] all[i]) is Some && stored_blog(
            all[i],
        )->0.complete()
}

/// The blog post that a lookup by identifier finds.
pub open spec fn found_blog(all: Collection, id: Seq<u8>) -> Option<BlogModelView> {
    match find_one(all, id) {
        Some(doc) => stored_blog(doc),
        None => None,
    }
}

/// A creation at the instant `now`. `id` is the identifier that the store gives
/// the post if it takes it, `failure` what it reports if it does not.
pub open spec fn create_blog_run(
    all: Collection,
    body: CreateBlogView,
    now: i64,
    id: Seq<u8>,
    failure: StoreFailureView,
) -> (Collection, Result<SingleBlogView, MyErrorView>) {
    let document = new_blog_document(body, now);
    let taken = accepts(all, blog_key(), document);
    let after = if taken {
        inserted(all, id, document)
    } else {
        all
    };
    let reply = if taken {
        Ok(id)
    } else {
        Err(failure)
    };
    match insert_outcome(reply) {
        Ok(id) => (after, blog_outcome(hex_text(id), Ok(found_blog(after, id)))),
        Err(e) => (after, Err(e)),
    }
}

/// A lookup of the blog post with the identifier written `id`.
pub open spec fn get_blog_run(all: Collection, id: Seq<char>) -> Result<
    SingleBlogView,
    MyErrorView,
> {
    match parsed_id(id) {
        Ok(bytes) => blog_outcome(id, Ok(found_blog(all, bytes))),
        Err(e) => Err(e),
    }
}

/// An update of the blog post with the identifier written `id`.
pub open spec fn edit_blog_run(all: Collection, id: Seq<char>, body: UpdateBlogView) -> (
    Collection,
    Result<SingleBlogView, MyErrorView>,
) {
    match parsed_id(id) {
        Ok(bytes) => {
            let after = updated(all, bytes, blog_patch(body));
            (after, blog_outcome(id, Ok(found_blog(after, bytes))))
        },
        Err(e) => (all, Err(e)),
    }
}

/// A delete of the blog post with the identifier written `id`.
pub open spec fn delete_blog_run(all: Collection, id: Seq<char>) -> (
    Collection,
    Result<(), MyErrorView>,
) {
    delete_run(all, id)
}

/// A listing of page `page` of the blog posts, `limit` to the page.
pub open spec fn fetch_blogs_run(all: Collection, limit: int, page: int) -> Result<
    BlogListView,
    MyErrorView,
> {
    blogs_outcome(Ok(list_run(all, limit, page).map_values(|doc: Stored| stored_blog(doc)->0)))
}

/// The document that is made for a new blog post holds that post: the fields
/// of the schema as they were given, the category and the published flag of the
/// schema or what stands in for them, and both dates the instant of creation.
pub proof fn lemma_blog_document(
    body: CreateBlogView,
    published: bool,
    category: Seq<char>,
    now: i64,
    id: Seq<u8>,
)
    ensures
        field_value(blog_document(body, published, category, now), blog_key()) == Some(
            FieldValue::Text(body.title),
        ),
        stored_blog(Stored { id, fields: blog_document(body, published, category, now) })
            == Some(
            BlogModelView {
                id,
                title: body.title,
                summary: body.summary,
                content: body.content,
                category: Some(stored_category(body, category)),
                published: Some(stored_published(body, published)),
                createdAt: now,
                updatedAt: now,
            },
        ),
{
    lemma_blog_fields_differ();
    let f0 = blog_document(body, published, category, now);
    let f1 = f0.drop_first();
    let f2 = f1.drop_first();
    let f3 = f2.drop_first();
    let f4 = f3.drop_first();
    let f5 = f4.drop_first();
    let f6 = f5.drop_first();
    assert(f1[0] == f0[1] && f2[0] == f0[2] && f3[0] == f0[3]);
    assert(f4[0] == f0[4] && f5[0] == f0[5] && f6[0] == f0[6]);
    assert(f6.drop_first().len() == 0);
    reveal_with_fuel(field_value, 8);
}

/// Setting the fields of an update in a blog post's document changes those
/// fields of the post and no others.
pub proof fn lemma_blog_patch(doc: Stored, body: UpdateBlogView)
    requires
        stored_blog(doc) is Some,
    ensures
        stored_blog(Stored { id: doc.id, fields: with_fields(doc.fields, blog_patch(body)) })
            == Some(blog_after(stored_blog(doc)->0, body)),
{
    lemma_blog_fields_differ();
    let title = maybe_text("title"@, body.title);
    let summary = maybe_text("summary"@, body.summary);
    let content = maybe_text("content"@, body.content);
    let category = maybe_text("category"@, body.category);
    let published = maybe_flag("published"@, body.published);
    let f0 = doc.fields;
    let f1 = with_fields(f0, title);
    let f2 = with_fields(f1, summary);
    let f3 = with_fields(f2, content);
    let f4 = with_fields(f3, category);
    let f5 = with_fields(f4, published);
    lemma_with_fields_concat(f0, title + summary + content + category, published);
    lemma_with_fields_concat(f0, title + summary + content, category);
    lemma_with_fields_concat(f0, title + summary, content);
    lemma_with_fields_concat(f0, title, summary);
    assert(with_fields(f0, blog_patch(body)) == f5);
    lemma_maybe_sets(f0, "title"@, title);
    lemma_maybe_sets(f1, "summary"@, summary);
    lemma_maybe_sets(f2, "content"@, content);
    lemma_maybe_sets(f3, "category"@, category);
    lemma_maybe_sets(f4, "published"@, published);
}

/// Creating a blog post whose title no stored document has succeeds. The
/// response carries the text of the new identifier, the fields of the schema
/// as they were given, an empty category and no publication where the schema
/// has none, and two equal dates, the instant of creation. The collection gains
/// the post's document, last, and a lookup under the identifier of the response
/// then returns the same response.
pub proof fn lemma_create_blog_unique(
    all: Collection,
    body: CreateBlogView,
    now: i64,
    id: Seq<u8>,
    failure: StoreFailureView,
)
    requires
        id.len() == 12,
        !holds_id(all, id),
        !holds_key(all, blog_key(), FieldValue::Text(body.title)),
    ensures
        ({
            let (after, end) = create_blog_run(all, body, now, id, failure);
            let shown = SingleBlogView {
                status: success(),
                blog: BlogResponseView {
                    id: hex_text(id),
                    title: body.title,
                    summary: body.summary,
                    content: body.content,
                    category: stored_category(body, Seq::empty()),
                    published: stored_published(body, false),
                    createdAt: now,
                    updatedAt: now,
                },
            };
            &&& after == all.push(Stored { id, fields: new_blog_document(body, now) })
            &&& end == Ok::<SingleBlogView, MyErrorView>(shown)
            &&& get_blog_run(after, shown.blog.id) == end
            &&& all_blogs(all) ==> all_blogs(after)
            &&& distinct_ids(all) ==> distinct_ids(after)
        }),
{
    lemma_blog_document(body, false, Seq::empty(), now, id);
    lemma_hex_text_round_trip(id);
    lemma_find_inserted(all, id, new_blog_document(body, now));
}

/// Creating a blog post whose title a stored document has fails with a
/// duplicate error, and the collection stays as it was.
pub proof fn lemma_create_blog_duplicate(
    all: Collection,
    body: CreateBlogView,
    now: i64,
    id: Seq<u8>,
    failure: StoreFailureView,
)
    requires
        holds_key(all, blog_key(), FieldValue::Text(body.title)),
        is_duplicate_key(failure),
    ensures
        create_blog_run(all, body, now, id, failure) == (
            all,
            Err::<SingleBlogView, MyErrorView>(MyErrorView::MongoDuplicateError(failure)),
        ),
{
    lemma_blog_document(body, false, Seq::empty(), now, id);
}

/// With a malformed identifier, looking up, updating and deleting a blog post
/// end with an invalid-identifier error that carries the text, whatever the
/// collection holds, and leave the collection as it was.
pub proof fn lemma_blog_malformed_id(all: Collection, id: Seq<char>, body: UpdateBlogView)
    requires
        !well_formed_id(id),
    ensures
        get_blog_run(all, id) == Err::<SingleBlogView, MyErrorView>(
            MyErrorView::InvalidIDError(id),
        ),
        edit_blog_run(all, id, body) == (
            all,
            Err::<SingleBlogView, MyErrorView>(MyErrorView::InvalidIDError(id)),
        ),
        delete_blog_run(all, id) == (
            all,
            Err::<(), MyErrorView>(MyErrorView::InvalidIDError(id)),
        ),
{
}

/// With a well-formed identifier that no document has, looking up, updating
/// and deleting a blog post end with a not-found error that carries the text,
/// and leave the collection as it was.
pub proof fn lemma_blog_absent_id(all: Collection, id: Seq<char>, body: UpdateBlogView)
    requires
        well_formed_id(id),
        !holds_id(all, id_bytes(id)),
    ensures
        get_blog_run(all, id) == Err::<SingleBlogView, MyErrorView>(
            MyErrorView::NotFoundError(id),
        ),
        edit_blog_run(all, id, body) == (
            all,
            Err::<SingleBlogView, MyErrorView>(MyErrorView::NotFoundError(id)),
        ),
        delete_blog_run(all, id) == (all, Err::<(), MyErrorView>(MyErrorView::NotFoundError(id))),
{
}

/// Deleting a blog post that is there succeeds and removes one document;
/// deleting it again, or looking it up, then ends with a not-found error.
pub proof fn lemma_delete_blog_twice(all: Collection, id: Seq<char>)
    requires
        distinct_ids(all),
        well_formed_id(id),
        holds_id(all, id_bytes(id)),
    ensures
        ({
            let (after, end) = delete_blog_run(all, id);
            &&& end == Ok::<(), MyErrorView>(())
            &&& after.len() + 1 == all.len()
            &&& delete_blog_run(after, id) == (
                after,
                Err::<(), MyErrorView>(MyErrorView::NotFoundError(id)),
            )
            &&& get_blog_run(after, id) == Err::<SingleBlogView, MyErrorView>(
                MyErrorView::NotFoundError(id),
            )
        }),
{
    lemma_deleted(all, id_bytes(id));
}

/// A listing succeeds. Page `page` shows the blog posts at the positions from
/// `(page - 1) * limit` up to `page * limit`, as far as the collection goes, in
/// the collection's order, and counts them: pages of one size do not overlap
/// and leave no post out.
pub proof fn lemma_blog_pages(all: Collection, limit: int, page: int)
    requires
        limit > 0,
        page >= 1,
    ensures
        ({
            let from = page_offset(limit, page);
            &&& from >= 0
            &&& page_offset(limit, page + 1) == from + limit
            &&& fetch_blogs_run(all, limit, page) matches Ok(list)
            &&& list.status == success()
            &&& list.results == list.blogs.len()
            &&& list.blogs.len() == if all.len() <= from {
                0
            } else if all.len() <= from + limit {
                all.len() - from
            } else {
                limit
            }
            &&& forall|i: int|
                0 <= i < list.blogs.len() ==> #[trigger] list.blogs[i] == blog_response(
                    stored_blog(all[from + i])->0,
                )
        }),
{
    lemma_pages_partition(all, limit, page);
}

/// Updating a stored blog post changes the fields that the update holds and no
/// others: the response shows the post as `blog_after` gives it, a later lookup
/// returns the same response, and every other document is as it was.
pub proof fn lemma_update_blog_partial(all: Collection, id: Seq<char>, body: UpdateBlogView)
    requires
        distinct_ids(all),
        well_formed_id(id),
        holds_id(all, id_bytes(id)),
        found_blog(all, id_bytes(id)) is Some,
    ensures
        ({
            let before = found_blog(all, id_bytes(id))->0;
            let (after, end) = edit_blog_run(all, id, body);
            &&& end == Ok::<SingleBlogView, MyErrorView>(single_blog(blog_after(before, body)))
            &&& get_blog_run(after, id) == end
            &&& after.len() == all.len()
            &&& forall|other: Seq<u8>|
                other != id_bytes(id) ==> find_one(after, other) == find_one(all, other)
        }),
{
    lemma_update_merges(all, id, blog_patch(body));
    let before = find_one(all, id_bytes(id))->0;
    assert(before.id == id_bytes(id));
    lemma_blog_patch(before, body);
}

} // verus!
