use bson::Document;
use org_sog::blog::db::DB;
use org_sog::blog::model::BlogModel;
use org_sog::blog::response::{BlogListResponse, BlogResponse, SingleBlogResponse};
use org_sog::blog::schema::{CreateBlogSchema, UpdateBlogSchema};
use org_sog::error::{MyError, StoreFailure};
use org_sog::ident::DocumentId;
use org_sog::paging::PageQuery;
use org_sog::store::UpdateRequest;

/// A collection in memory that answers the repository's requests as the store
/// would: documents in insertion order, one unique index.
struct Shelf {
    docs: Vec<(DocumentId, Document)>,
    unique: Option<String>,
    made: u8,
}

fn blog_of(entry: &(DocumentId, Document)) -> BlogModel {
    let (id, doc) = entry;
    BlogModel {
        id: *id,
        title: doc.get_str("title").unwrap().to_string(),
        summary: doc.get_str("summary").unwrap().to_string(),
        content: doc.get_str("content").unwrap().to_string(),
        category: doc.get_str("category").ok().map(|category| category.to_string()),
        published: doc.get_bool("published").ok(),
        createdAt: doc.get_datetime("createdAt").unwrap().timestamp_millis(),
        updatedAt: doc.get_datetime("updatedAt").unwrap().timestamp_millis(),
    }
}

impl Shelf {
    fn new() -> Shelf {
        Shelf { docs: Vec::new(), unique: None, made: 0 }
    }

    fn create_index(&mut self, keys: &Document) -> Result<(), StoreFailure> {
        assert_eq!(keys.len(), 1);
        let key = keys.keys().next().unwrap().clone();
        assert_eq!(keys.get_i32(&key).unwrap(), 1);
        self.unique = Some(key);
        Ok(())
    }

    fn insert_one(&mut self, document: Document) -> Result<DocumentId, StoreFailure> {
        if let Some(key) = &self.unique {
            if self.docs.iter().any(|(_, held)| held.get(key) == document.get(key)) {
                return Err(StoreFailure {
                    code: Some(11000),
                    message: format!("duplicate key in sog.blogs, index {}_1", key),
                });
            }
        }
        self.made += 1;
        let id = DocumentId::from_bytes([0x66, 0, 0, 0, 0, 0, 0, 0, 0, 0, 0xb1, self.made]);
        self.docs.push((id, document));
        Ok(id)
    }

    fn position(&self, filter: &Document) -> Option<usize> {
        assert_eq!(filter.len(), 1);
        let id = filter.get_object_id("_id").unwrap().bytes();
        self.docs.iter().position(|(held, _)| held.bytes() == id)
    }

    fn find_one(&self, filter: &Document) -> Result<Option<BlogModel>, StoreFailure> {
        Ok(self.position(filter).map(|at| blog_of(&self.docs[at])))
    }

    fn find(&self, query: PageQuery) -> Result<Vec<BlogModel>, StoreFailure> {
        Ok(self
            .docs
            .iter()
            .skip(query.skip as usize)
            .take(query.limit as usize)
            .map(blog_of)
            .collect())
    }

    fn find_one_and_update(
        &mut self,
        request: &UpdateRequest,
    ) -> Result<Option<BlogModel>, StoreFailure> {
        assert_eq!(request.update.len(), 1);
        let set = request.update.get_document("$set").unwrap();
        match self.position(&request.filter) {
            Some(at) => {
                for (key, value) in set {
                    self.docs[at].1.insert(key.clone(), value.clone());
                }
                Ok(Some(blog_of(&self.docs[at])))
            }
            None => Ok(None),
        }
    }

    fn delete_one(&mut self, filter: &Document) -> Result<u64, StoreFailure> {
        match self.position(filter) {
            Some(at) => {
                self.docs.remove(at);
                Ok(1)
            }
            None => Ok(0),
        }
    }
}

fn create(db: &DB, shelf: &mut Shelf, body: &CreateBlogSchema) -> Result<SingleBlogResponse, MyError> {
    let request = db.create_blog(body)?;
    let indexed = shelf.create_index(request.keys());
    let document = request.indexed(indexed)?;
    let (id, filter) = db.create_blog_inserted(shelf.insert_one(document))?;
    db.create_blog_reply(&id, shelf.find_one(&filter))
}

fn get(db: &DB, shelf: &Shelf, id: &str) -> Result<SingleBlogResponse, MyError> {
    let filter = db.get_blog(id)?;
    db.get_blog_reply(id, shelf.find_one(&filter))
}

fn edit(
    db: &DB,
    shelf: &mut Shelf,
    id: &str,
    body: &UpdateBlogSchema,
) -> Result<SingleBlogResponse, MyError> {
    let request = db.edit_blog(id, body)?;
    db.edit_blog_reply(id, shelf.find_one_and_update(&request))
}

fn delete(db: &DB, shelf: &mut Shelf, id: &str) -> Result<(), MyError> {
    let filter = db.delete_blog(id)?;
    db.delete_blog_reply(id, shelf.delete_one(&filter))
}

fn list(db: &DB, shelf: &Shelf, limit: i64, page: i64) -> Result<BlogListResponse, MyError> {
    db.fetch_blogs_reply(shelf.find(db.fetch_blogs(limit, page)))
}

fn post(title: &str) -> CreateBlogSchema {
    CreateBlogSchema {
        title: title.to_string(),
        summary: format!("about {}", title),
        content: format!("all of {}", title),
        category: None,
        published: None,
    }
}

fn no_change() -> UpdateBlogSchema {
    UpdateBlogSchema { title: None, summary: None, content: None, category: None, published: None }
}

fn keys(doc: &Document) -> Vec<String> {
    doc.keys().cloned().collect()
}

fn timeout() -> StoreFailure {
    StoreFailure { code: None, message: "server selection timeout".to_string() }
}

fn held(last: u8, title: &str) -> BlogModel {
    BlogModel {
        id: DocumentId::from_bytes([0, 0, 0, 0, 0, 0, 0, 0, 0, 0, 0, last]),
        title: title.to_string(),
        summary: "s".to_string(),
        content: "c".to_string(),
        category: Some("news".to_string()),
        published: Some(true),
        createdAt: 10,
        updatedAt: 20,
    }
}

#[test]
fn blog_document_holds_dates_flags_then_the_schema() {
    let doc = DB::new().blog_document_at(&post("hello"), false, String::new(), 42);
    assert_eq!(
        keys(&doc),
        vec!["createdAt", "updatedAt", "published", "category", "title", "summary", "content"]
    );
    assert_eq!(doc.get_datetime("createdAt").unwrap().timestamp_millis(), 42);
    assert_eq!(doc.get_datetime("updatedAt").unwrap().timestamp_millis(), 42);
    assert_eq!(doc.get_bool("published").unwrap(), false);
    assert_eq!(doc.get_str("category").unwrap(), "");
    assert_eq!(doc.get_str("title").unwrap(), "hello");
    assert_eq!(doc.get_str("summary").unwrap(), "about hello");
    assert_eq!(doc.get_str("content").unwrap(), "all of hello");
}

#[test]
fn blog_document_prefers_what_the_schema_says() {
    let mut body = post("hello");
    body.category = Some("rust".to_string());
    body.published = Some(true);
    let doc = DB::new().blog_document_at(&body, false, "other".to_string(), -7);
    assert_eq!(
        keys(&doc),
        vec!["createdAt", "updatedAt", "published", "category", "title", "summary", "content"]
    );
    assert_eq!(doc.get_bool("published").unwrap(), true);
    assert_eq!(doc.get_str("category").unwrap(), "rust");
    assert_eq!(doc.get_datetime("createdAt").unwrap().timestamp_millis(), -7);
}

#[test]
fn blog_document_takes_the_stand_ins_where_the_schema_is_silent() {
    let doc = DB::new().blog_document_at(&post("hello"), true, "misc".to_string(), 0);
    assert_eq!(doc.get_bool("published").unwrap(), true);
    assert_eq!(doc.get_str("category").unwrap(), "misc");
}

#[test]
fn blog_document_is_dated_now() {
    let before = chrono::Utc::now().timestamp_millis();
    let doc = DB::new().create_blog_document(&post("hello"), true, "x".to_string()).unwrap();
    let after = chrono::Utc::now().timestamp_millis();
    let created = doc.get_datetime("createdAt").unwrap().timestamp_millis();
    assert_eq!(created, doc.get_datetime("updatedAt").unwrap().timestamp_millis());
    assert!(before <= created && created <= after);
}

#[test]
fn create_blog_asks_for_a_unique_index_on_title() {
    let request = DB::new().create_blog(&post("hello")).unwrap();
    assert_eq!(keys(request.keys()), vec!["title"]);
    assert_eq!(request.keys().get_i32("title").unwrap(), 1);
    let document = request.indexed(Ok(())).unwrap();
    assert_eq!(document.get_bool("published").unwrap(), false);
    assert_eq!(document.get_str("category").unwrap(), "");
    assert_eq!(document.get_str("title").unwrap(), "hello");
}

#[test]
fn edit_blog_sets_only_the_fields_it_holds() {
    let db = DB::new();
    let id = "6600000000000000000000b1";
    let mut body = no_change();
    body.content = Some("new text".to_string());
    body.published = Some(true);
    let request = db.edit_blog(id, &body).unwrap();
    assert_eq!(keys(&request.update), vec!["$set"]);
    let set = request.update.get_document("$set").unwrap();
    assert_eq!(keys(set), vec!["content", "published"]);
    assert_eq!(set.get_str("content").unwrap(), "new text");
    assert_eq!(set.get_bool("published").unwrap(), true);
    assert_eq!(request.filter.get_object_id("_id").unwrap().to_hex(), id);

    let all = UpdateBlogSchema {
        title: Some("t".to_string()),
        summary: Some("s".to_string()),
        content: Some("c".to_string()),
        category: Some("k".to_string()),
        published: Some(false),
    };
    let request = db.edit_blog(id, &all).unwrap();
    let set = request.update.get_document("$set").unwrap();
    assert_eq!(keys(set), vec!["title", "summary", "content", "category", "published"]);
    assert_eq!(set.get_str("category").unwrap(), "k");

    let request = db.edit_blog(id, &no_change()).unwrap();
    assert!(request.update.get_document("$set").unwrap().is_empty());
}

#[test]
fn doc_to_blog_unwraps_category_and_flag() {
    let response = DB::new().doc_to_blog(&held(0x1f, "hello")).unwrap();
    assert_eq!(
        response,
        BlogResponse {
            id: "00000000000000000000001f".to_string(),
            title: "hello".to_string(),
            summary: "s".to_string(),
            content: "c".to_string(),
            category: "news".to_string(),
            published: true,
            createdAt: 10,
            updatedAt: 20,
        }
    );
}

#[test]
fn a_stored_post_is_complete_with_category_and_flag() {
    let mut blog = held(1, "hello");
    assert!(blog.is_complete());
    blog.category = None;
    assert!(!blog.is_complete());
    blog.category = Some(String::new());
    blog.published = None;
    assert!(!blog.is_complete());
}

#[test]
fn create_with_a_new_title_returns_what_was_stored() {
    let db = DB::new();
    let mut shelf = Shelf::new();
    let before = chrono::Utc::now().timestamp_millis();
    let mut body = post("hello");
    body.category = Some("rust".to_string());
    let blog = create(&db, &mut shelf, &body).unwrap().data.blog;
    assert_eq!(blog.title, "hello");
    assert_eq!(blog.summary, "about hello");
    assert_eq!(blog.content, "all of hello");
    assert_eq!(blog.category, "rust");
    assert_eq!(blog.published, false);
    assert_eq!(blog.createdAt, blog.updatedAt);
    assert!(blog.createdAt >= before);
    assert_eq!(blog.id, shelf.docs[0].0.to_hex());
}

#[test]
fn create_with_a_taken_title_is_a_duplicate() {
    let db = DB::new();
    let mut shelf = Shelf::new();
    create(&db, &mut shelf, &post("hello")).unwrap();
    let mut second = post("hello");
    second.content = "something else".to_string();
    assert!(matches!(create(&db, &mut shelf, &second), Err(MyError::MongoDuplicateError(_))));
    assert_eq!(shelf.docs.len(), 1);
    assert_eq!(shelf.docs[0].1.get_str("content").unwrap(), "all of hello");
}

#[test]
fn blog_steps_turn_failures_into_query_errors() {
    let db = DB::new();
    let id = "6600000000000000000000b1";
    let failed = Err(MyError::MongoQueryError(timeout()));
    let request = db.create_blog(&post("hello")).unwrap();
    assert!(matches!(request.indexed(Err(timeout())), Err(MyError::MongoQueryError(_))));
    assert!(matches!(db.create_blog_inserted(Err(timeout())), Err(MyError::MongoQueryError(_))));
    assert_eq!(db.get_blog_reply(id, Err(timeout())), failed);
    assert_eq!(db.edit_blog_reply(id, Err(timeout())), failed);
    assert_eq!(db.fetch_blogs_reply(Err(timeout())), Err(MyError::MongoQueryError(timeout())));
    assert_eq!(db.delete_blog_reply(id, Err(timeout())), Err(MyError::MongoQueryError(timeout())));
    assert_eq!(
        db.create_blog_reply(&DocumentId::from_bytes([1; 12]), Ok(None)),
        Err(MyError::NotFoundError("010101010101010101010101".to_string()))
    );
}

#[test]
fn malformed_blog_identifiers_never_reach_the_store() {
    let db = DB::new();
    for id in ["", "xyz", "6600000000000000000000b", "6600000000000000000000bz"] {
        let invalid = MyError::InvalidIDError(id.to_string());
        assert!(matches!(db.get_blog(id), Err(e) if e == invalid));
        assert!(matches!(db.edit_blog(id, &no_change()), Err(e) if e == invalid));
        assert!(matches!(db.delete_blog(id), Err(e) if e == invalid));
    }
}

#[test]
fn no_reply_makes_a_malformed_blog_identifier_good() {
    let db = DB::new();
    let id = "6600000000000000000000b";
    let invalid = Err(MyError::InvalidIDError(id.to_string()));
    assert_eq!(db.get_blog_reply(id, Ok(Some(held(1, "hello")))), invalid);
    assert_eq!(db.edit_blog_reply(id, Ok(None)), invalid);
    assert_eq!(db.delete_blog_reply(id, Ok(1)), Err(MyError::InvalidIDError(id.to_string())));
}

#[test]
fn absent_blog_identifiers_are_not_found() {
    let db = DB::new();
    let mut shelf = Shelf::new();
    create(&db, &mut shelf, &post("hello")).unwrap();
    let id = "0123456789abcdef01234567";
    let missing = MyError::NotFoundError(id.to_string());
    assert_eq!(get(&db, &shelf, id), Err(missing.clone()));
    assert_eq!(edit(&db, &mut shelf, id, &no_change()), Err(missing.clone()));
    assert_eq!(delete(&db, &mut shelf, id), Err(missing));
    assert_eq!(shelf.docs.len(), 1);
}

#[test]
fn the_second_blog_delete_finds_nothing() {
    let db = DB::new();
    let mut shelf = Shelf::new();
    let id = create(&db, &mut shelf, &post("hello")).unwrap().data.blog.id;
    assert_eq!(delete(&db, &mut shelf, &id), Ok(()));
    assert_eq!(delete(&db, &mut shelf, &id), Err(MyError::NotFoundError(id.clone())));
}

#[test]
fn blog_pages_are_disjoint_and_cover_the_collection() {
    let db = DB::new();
    let mut shelf = Shelf::new();
    for title in ["one", "two", "three"] {
        create(&db, &mut shelf, &post(title)).unwrap();
    }
    let titles = |page: &BlogListResponse| -> Vec<String> {
        page.blogs.iter().map(|blog| blog.title.clone()).collect()
    };
    let first = list(&db, &shelf, 2, 1).unwrap();
    let second = list(&db, &shelf, 2, 2).unwrap();
    assert_eq!(first.results, 2);
    assert_eq!(second.results, 1);
    assert_eq!(titles(&first), vec!["one", "two"]);
    assert_eq!(titles(&second), vec!["three"]);
    let whole = list(&db, &shelf, 5, 1).unwrap();
    assert_eq!(whole.results, 3);
    assert_eq!(whole.status, "success");
}

#[test]
fn a_blog_update_changes_only_its_fields() {
    let db = DB::new();
    let mut shelf = Shelf::new();
    let made = create(&db, &mut shelf, &post("hello")).unwrap().data.blog;
    let mut body = no_change();
    body.published = Some(true);
    body.summary = Some("short".to_string());
    let changed = edit(&db, &mut shelf, &made.id, &body).unwrap().data.blog;
    assert_eq!(
        changed,
        BlogResponse { summary: "short".to_string(), published: true, ..made.clone() }
    );
    assert_eq!(get(&db, &shelf, &made.id).unwrap().data.blog, changed);
    assert_eq!(
        keys(&shelf.docs[0].1),
        vec!["createdAt", "updatedAt", "published", "category", "title", "summary", "content"]
    );
}

#[test]
fn a_post_from_creation_to_deletion() {
    let db = DB::new();
    let mut shelf = Shelf::new();
    let created = create(&db, &mut shelf, &post("hello")).unwrap();
    let id = created.data.blog.id.clone();
    assert_eq!(created.status, "success");
    assert!(matches!(create(&db, &mut shelf, &post("hello")), Err(MyError::MongoDuplicateError(_))));
    assert_eq!(get(&db, &shelf, &id), Ok(created));
    assert_eq!(delete(&db, &mut shelf, &id), Ok(()));
    assert_eq!(get(&db, &shelf, &id), Err(MyError::NotFoundError(id.clone())));
}
