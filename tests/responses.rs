use cloud_storage::response::decode_body;
use cloud_storage::{
    BucketAccessControl, DefaultObjectAccessControl, Entity, Error, HmacKey, HmacMeta, HmacState,
    Json, ObjectAccessControl, Role, Timestamp,
};

const NOT_FOUND: &str = r#"{"error":{"errors":[{"domain":"global","reason":"notFound","message":"Not Found"}],"code":404,"message":"Not Found"}}"#;

const BUCKET_ACL: &str = r#"{
  "kind": "storage#bucketAccessControl",
  "id": "doctest-bucket/allUsers",
  "selfLink": "https://www.googleapis.com/storage/v1/b/doctest-bucket/acl/allUsers",
  "bucket": "doctest-bucket",
  "entity": "allUsers",
  "role": "READER",
  "etag": "CAE="
}"#;

const DEFAULT_ACL: &str = r#"{
  "kind": "storage#objectAccessControl",
  "entity": "project-owners-123",
  "role": "OWNER",
  "projectTeam": {"projectNumber": "123", "team": "owners"},
  "etag": "CAE="
}"#;

const HMAC_META: &str = r#"{
  "kind": "storage#hmacKeyMetadata",
  "id": "my-project/GOOG1EXAMPLE",
  "selfLink": "https://www.googleapis.com/storage/v1/projects/my-project/hmacKeys/GOOG1EXAMPLE",
  "accessId": "GOOG1EXAMPLE",
  "projectId": "my-project",
  "serviceAccountEmail": "sa@my-project.iam.gserviceaccount.com",
  "state": "ACTIVE",
  "timeCreated": "2021-03-04T05:06:07.123Z",
  "updated": "2020-01-01T00:00:00+01:00",
  "etag": "abc"
}"#;

#[test]
fn parses_json_documents() {
    match Json::parse(r#"{"a": [1, "x", null, true]}"#) {
        Some(Json::Object(fields)) => {
            assert_eq!(fields.len(), 1);
            assert_eq!(fields[0].0, "a");
            match &fields[0].1 {
                Json::Array(v) => {
                    assert!(matches!(&v[0], Json::Number(n) if n == "1"));
                    assert!(matches!(&v[1], Json::Str(s) if s == "x"));
                    assert!(matches!(v[2], Json::Null));
                    assert!(matches!(v[3], Json::Bool(true)));
                }
                other => panic!("not an array: {:?}", other),
            }
        }
        other => panic!("not an object: {:?}", other),
    }
    assert!(Json::parse("{").is_none());
}

#[test]
fn error_envelope_gives_remote_error() {
    match decode_body(NOT_FOUND) {
        Err(Error::Remote(e)) => {
            assert_eq!(e.code, 404);
            assert_eq!(e.message, "Not Found");
            assert_eq!(e.field_errors.len(), 1);
            assert_eq!(e.field_errors[0].reason, "notFound");
            assert_eq!(e.field_errors[0].location, None);
        }
        other => panic!("unexpected: {:?}", other),
    }
}

#[test]
fn missing_entry_is_a_not_found_error_and_no_decode_failure() {
    match ObjectAccessControl::from_response(NOT_FOUND) {
        Err(Error::Remote(e)) => assert_eq!(e.code, 404),
        other => panic!("unexpected: {:?}", other),
    }
}

#[test]
fn malformed_error_object_is_a_decode_failure_and_no_success() {
    assert!(matches!(decode_body(r#"{"error": {"message": "no code"}}"#), Err(Error::Decode(_))));
    assert!(matches!(decode_body(r#"{"error": {"code": "70000", "message": "x"}}"#), Err(Error::Decode(_))));
    assert!(matches!(BucketAccessControl::from_response(r#"{"error": 5}"#), Err(Error::Decode(_))));
}

#[test]
fn error_code_may_be_written_as_a_string() {
    match decode_body(r#"{"error": {"code": "409", "message": "Conflict"}}"#) {
        Err(Error::Remote(e)) => {
            assert_eq!(e.code, 409);
            assert!(e.field_errors.is_empty());
        }
        other => panic!("unexpected: {:?}", other),
    }
}

#[test]
fn body_that_is_no_json_is_a_decode_failure() {
    assert!(matches!(decode_body("<html>"), Err(Error::Decode(_))));
    assert!(matches!(decode_body(""), Err(Error::Decode(_))));
}

#[test]
fn success_body_reads_as_record() {
    let acl = BucketAccessControl::from_response(BUCKET_ACL).unwrap();
    assert_eq!(acl.bucket, "doctest-bucket");
    assert!(matches!(acl.entity, Entity::AllUsers));
    assert_eq!(acl.role, Role::Reader);
    assert_eq!(acl.email, None);
    assert!(acl.project_team.is_none());
    assert_eq!(acl.etag, "CAE=");
}

#[test]
fn record_missing_a_member_is_a_decode_failure() {
    let body = BUCKET_ACL.replace("\"etag\": \"CAE=\"", "\"etag\": 7");
    assert!(matches!(BucketAccessControl::from_response(&body), Err(Error::Decode(_))));
    let body = BUCKET_ACL.replace("READER", "reader");
    assert!(matches!(BucketAccessControl::from_response(&body), Err(Error::Decode(_))));
}

#[test]
fn list_without_items_is_empty() {
    let v = BucketAccessControl::list_from_response(r#"{"kind": "storage#bucketAccessControls"}"#).unwrap();
    assert!(v.is_empty());
    let v = HmacKey::list_from_response(r#"{"kind": "storage#hmacKeysMetadata"}"#).unwrap();
    assert!(v.is_empty());
}

#[test]
fn list_reads_every_item_in_order() {
    let body = format!(r#"{{"kind": "storage#bucketAccessControls", "items": [{}, {}]}}"#, BUCKET_ACL, BUCKET_ACL.replace("allUsers", "allAuthenticatedUsers"));
    let v = BucketAccessControl::list_from_response(&body).unwrap();
    assert_eq!(v.len(), 2);
    assert!(matches!(v[0].entity, Entity::AllUsers));
    assert!(matches!(v[1].entity, Entity::AllAuthenticatedUsers));
}

#[test]
fn list_with_a_bad_item_fails() {
    let body = format!(r#"{{"items": [{}, {{"kind": 1}}]}}"#, BUCKET_ACL);
    assert!(matches!(BucketAccessControl::list_from_response(&body), Err(Error::Decode(_))));
    assert!(matches!(BucketAccessControl::list_from_response(r#"{"items": 3}"#), Err(Error::Decode(_))));
}

#[test]
fn list_error_envelope_is_remote_error() {
    assert!(matches!(ObjectAccessControl::list_from_response(NOT_FOUND), Err(Error::Remote(_))));
}

#[test]
fn default_acl_carries_the_callers_bucket() {
    let acl = DefaultObjectAccessControl::from_response("my-bucket", DEFAULT_ACL).unwrap();
    assert_eq!(acl.bucket, "my-bucket");
    let team = acl.project_team.unwrap();
    assert_eq!(team.project_number, "123");
    let body = format!(r#"{{"items": [{}, {}]}}"#, DEFAULT_ACL, DEFAULT_ACL);
    let v = DefaultObjectAccessControl::list_from_response("other", &body).unwrap();
    assert_eq!(v.len(), 2);
    assert!(v.iter().all(|a| a.bucket == "other"));
}

#[test]
fn hmac_metadata_reads_timestamps() {
    let m = HmacMeta::from_response(HMAC_META).unwrap();
    assert_eq!(m.access_id, "GOOG1EXAMPLE");
    assert_eq!(m.state, HmacState::Active);
    assert_eq!(m.time_created, Timestamp { seconds: 1614834367, nanos: 123_000_000 });
    assert_eq!(m.updated, Timestamp { seconds: 1577833200, nanos: 0 });
    let body = HMAC_META.replace("2021-03-04T05:06:07.123Z", "yesterday");
    assert!(matches!(HmacMeta::from_response(&body), Err(Error::Decode(_))));
}

#[test]
fn timestamps_parse() {
    assert_eq!(Timestamp::parse("1970-01-01T00:00:10Z"), Some(Timestamp { seconds: 10, nanos: 0 }));
    assert_eq!(Timestamp::parse("not a time"), None);
}

#[test]
fn new_hmac_key_reads_secret() {
    let body = format!(r#"{{"kind": "storage#hmacKey", "secret": "c2VjcmV0", "metadata": {}}}"#, HMAC_META);
    let k = HmacKey::from_response(&body).unwrap();
    assert_eq!(k.secret, "c2VjcmV0");
    assert_eq!(k.metadata.project_id, "my-project");
    assert!(matches!(HmacKey::from_response(r#"{"kind": "storage#hmacKey", "secret": "x"}"#), Err(Error::Decode(_))));
}

#[test]
fn largest_status_code_reads_and_one_more_does_not() {
    assert!(matches!(decode_body(r#"{"error": {"code": 65535, "message": "x"}}"#), Err(Error::Remote(e)) if e.code == 65535));
    assert!(matches!(decode_body(r#"{"error": {"code": 65536, "message": "x"}}"#), Err(Error::Decode(_))));
    assert!(matches!(decode_body(r#"{"error": {"code": 404.5, "message": "x"}}"#), Err(Error::Decode(_))));
}
