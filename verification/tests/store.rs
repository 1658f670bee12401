use org_sog::error::{MyError, StoreFailure};
use org_sog::ident::DocumentId;
use org_sog::store::{
    delete_reply, filter_by_id, index_on, insert_reply, lookup_reply, parse_id, update_setting,
    InsertRequest,
};

const ID: &str = "650a1b2c3d4e5f6071829304";

fn refused() -> StoreFailure {
    StoreFailure { code: Some(13), message: "not authorized".to_string() }
}

#[test]
fn parse_id_reads_or_rejects() {
    let id = parse_id(ID).unwrap();
    assert_eq!(id.bytes(), [0x65, 0x0a, 0x1b, 0x2c, 0x3d, 0x4e, 0x5f, 0x60, 0x71, 0x82, 0x93, 0x04]);
    assert_eq!(parse_id("650a"), Err(MyError::InvalidIDError("650a".to_string())));
    assert_eq!(parse_id(""), Err(MyError::InvalidIDError(String::new())));
}

#[test]
fn filter_by_id_holds_the_identifier_alone() {
    let filter = filter_by_id(&DocumentId::from_bytes([7; 12]));
    assert_eq!(filter.len(), 1);
    assert_eq!(filter.get_object_id("_id").unwrap().bytes(), [7; 12]);
}

#[test]
fn index_on_is_ascending() {
    let keys = index_on("title");
    assert_eq!(keys.len(), 1);
    assert_eq!(keys.get_i32("title").unwrap(), 1);
}

#[test]
fn update_setting_wraps_the_patch() {
    let mut patch = bson::Document::new();
    patch.insert("name", "bob");
    patch.insert("uid", "u2");
    let update = update_setting(patch.clone());
    assert_eq!(update.len(), 1);
    assert_eq!(update.get_document("$set").unwrap(), &patch);
}

#[test]
fn an_insert_request_keeps_its_document_until_the_index_is_there() {
    let mut document = bson::Document::new();
    document.insert("name", "alice");
    let request = InsertRequest::new(index_on("name"), document.clone());
    assert_eq!(request.keys().get_i32("name").unwrap(), 1);
    assert_eq!(request.indexed(Ok(())).unwrap(), document);
    let request = InsertRequest::new(index_on("name"), document);
    assert!(matches!(request.indexed(Err(refused())), Err(MyError::MongoQueryError(f)) if f == refused()));
}

#[test]
fn insert_reply_keeps_the_identifier() {
    let id = DocumentId::from_bytes([3; 12]);
    assert_eq!(insert_reply(Ok(id)), Ok(id));
    assert_eq!(insert_reply(Err(refused())), Err(MyError::MongoQueryError(refused())));
    let taken = StoreFailure { code: Some(11000), message: String::new() };
    assert_eq!(insert_reply(Err(taken.clone())), Err(MyError::MongoDuplicateError(taken)));
}

#[test]
fn lookup_reply_sorts_the_three_replies() {
    assert_eq!(lookup_reply(ID, Ok(Some(5u8))), Ok(5u8));
    assert_eq!(lookup_reply::<u8>(ID, Ok(None)), Err(MyError::NotFoundError(ID.to_string())));
    assert_eq!(lookup_reply::<u8>(ID, Err(refused())), Err(MyError::MongoQueryError(refused())));
    assert_eq!(lookup_reply("x", Ok(Some(5u8))), Err(MyError::InvalidIDError("x".to_string())));
}

#[test]
fn delete_reply_sorts_the_replies() {
    assert_eq!(delete_reply(ID, Ok(1)), Ok(()));
    assert_eq!(delete_reply(ID, Ok(0)), Err(MyError::NotFoundError(ID.to_string())));
    assert_eq!(delete_reply(ID, Err(refused())), Err(MyError::MongoQueryError(refused())));
    assert_eq!(delete_reply("x", Ok(1)), Err(MyError::InvalidIDError("x".to_string())));
}
