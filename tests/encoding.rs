use cloud_storage::path::{decode_segment, encode_segment};
use cloud_storage::{BucketAccessControl, Client, Entity, ObjectAccessControl, Team};

fn client() -> Client {
    Client::new("my-project".to_string(), None)
}

#[test]
fn unreserved_characters_stand_for_themselves() {
    assert_eq!(encode_segment("AZaz09-._~"), "AZaz09-._~");
}

#[test]
fn reserved_characters_are_escaped() {
    assert_eq!(encode_segment("a b/c?d#e%f"), "a%20b%2Fc%3Fd%23e%25f");
    assert_eq!(encode_segment("user-liz@example.com"), "user-liz%40example.com");
}

#[test]
fn non_ascii_is_escaped_by_its_utf8_bytes() {
    assert_eq!(encode_segment("é"), "%C3%A9");
}

#[test]
fn empty_identifier_encodes_to_nothing() {
    assert_eq!(encode_segment(""), "");
    assert_eq!(decode_segment(""), Some(vec![]));
}

#[test]
fn encoding_round_trips() {
    for s in ["folder/file name.txt", "100% sure?", "ünïcødé#1", "a+b=c&d"] {
        let e = encode_segment(s);
        assert!(!e.contains('/') && !e.contains('?') && !e.contains('#'));
        assert_eq!(decode_segment(&e), Some(s.as_bytes().to_vec()));
    }
}

#[test]
fn decoding_accepts_lower_case_hex() {
    assert_eq!(decode_segment("%2f%2F"), Some(vec![0x2f, 0x2f]));
}

#[test]
fn decoding_rejects_broken_escapes() {
    assert_eq!(decode_segment("%2"), None);
    assert_eq!(decode_segment("%zz"), None);
    assert_eq!(decode_segment("é"), None);
}

#[test]
fn bucket_acl_paths_encode_identifiers() {
    let c = client();
    let r = BucketAccessControl::read_request(&c, "my bucket", &Entity::AllUsers);
    assert_eq!(r.url, "https://www.googleapis.com/storage/v1/b/my%20bucket/acl/allUsers");
    let r = BucketAccessControl::list_request(&c, "doctest-bucket");
    assert_eq!(r.url, "https://www.googleapis.com/storage/v1/b/doctest-bucket/acl");
    assert!(r.body.is_none());
}

#[test]
fn object_acl_paths_encode_object_names() {
    let c = Client::with_base_url("p".to_string(), None, "http://localhost:8080".to_string());
    let e = Entity::Project(Team::Owners, "123".to_string());
    let r = ObjectAccessControl::read_request(&c, "b", "dir/file.txt", &e);
    assert_eq!(r.url, "http://localhost:8080/b/b/o/dir%2Ffile.txt/acl/project-owners-123");
}
