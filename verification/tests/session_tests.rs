use bsky_archiver::session::{frame_session_request, session_body};

#[test]
fn body_holds_identifier_and_password() {
    assert_eq!(
        session_body("alice.bsky.social", "hunter2"),
        "{\"identifier\":\"alice.bsky.social\",\"password\":\"hunter2\"}"
    );
}

#[test]
fn body_escapes_what_json_escapes() {
    assert_eq!(
        session_body("a\"b", "back\\slash\nline"),
        "{\"identifier\":\"a\\\"b\",\"password\":\"back\\\\slash\\nline\"}"
    );
}

#[test]
fn body_of_empty_texts() {
    assert_eq!(session_body("", ""), "{\"identifier\":\"\",\"password\":\"\"}");
}

#[test]
fn body_is_read_back_by_a_json_reader() {
    let body = session_body("al\u{e9}\tice", "p\u{0}w");
    let value: serde_json::Value = serde_json::from_str(&body).unwrap();
    assert_eq!(value["identifier"], serde_json::Value::String("al\u{e9}\tice".to_string()));
    assert_eq!(value["password"], serde_json::Value::String("p\u{0}w".to_string()));
}

#[test]
fn frame_takes_the_strings_as_they_are() {
    assert_eq!(frame_session_request("1", "[]"), "{\"identifier\":1,\"password\":[]}");
}
