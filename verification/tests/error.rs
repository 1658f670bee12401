use org_sog::error::{MyError, StoreFailure, DUPLICATE_KEY_CODE};

fn failure(code: Option<i32>, message: &str) -> StoreFailure {
    StoreFailure { code, message: message.to_string() }
}

#[test]
fn the_duplicate_key_code_is_the_servers() {
    assert_eq!(DUPLICATE_KEY_CODE, 11000);
}

#[test]
fn the_code_marks_a_duplicate() {
    assert!(failure(Some(11000), "write failed").is_duplicate_key());
    assert!(failure(Some(11000), "").is_duplicate_key());
}

#[test]
fn the_message_marks_nothing() {
    let message = "Kind: An error occurred when trying to execute a write operation: \
                   WriteError(WriteError { code: 11000, code_name: None, message: \
                   \"E11000 duplicate key error collection: sog.users index: name_1 dup key: \
                   { name: \\\"alice\\\" }\", details: None })";
    assert!(!failure(None, message).is_duplicate_key());
    assert!(!failure(Some(1), "E11000 duplicate key error collection").is_duplicate_key());
    assert!(failure(Some(11000), message).is_duplicate_key());
}

#[test]
fn other_failures_are_no_duplicates() {
    assert!(!failure(None, "connection refused").is_duplicate_key());
    assert!(!failure(Some(11001), "E11001 something else").is_duplicate_key());
    assert!(!failure(Some(121), "document failed validation").is_duplicate_key());
    assert!(!failure(Some(-11000), "").is_duplicate_key());
    assert!(!failure(Some(0), "").is_duplicate_key());
    assert!(!failure(None, "").is_duplicate_key());
}

#[test]
fn a_failed_insert_becomes_a_duplicate_or_a_query_error() {
    let duplicate = failure(Some(11000), "dup");
    assert_eq!(
        MyError::from_insert_failure(duplicate.clone()),
        MyError::MongoDuplicateError(duplicate)
    );
    let timeout = failure(None, "timed out");
    assert_eq!(
        MyError::from_insert_failure(timeout.clone()),
        MyError::MongoQueryError(timeout)
    );
    let worded = failure(None, "E11000 duplicate key error collection: sog.users");
    assert_eq!(
        MyError::from_insert_failure(worded.clone()),
        MyError::MongoQueryError(worded)
    );
}
