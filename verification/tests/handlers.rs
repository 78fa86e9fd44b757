use serde_json::Value;
use user_api::handlers::{create_user, root, Status};

fn body_of(text: &str) -> Value {
    serde_json::from_str(text).unwrap()
}

#[test]
fn post_users_with_username_is_created() {
    let payload = body_of(r#"{"username":"alice"}"#);
    let reply = create_user(&payload);
    assert_eq!(reply.status, Status::Created);
    assert_eq!(reply.status.code(), 201);
    assert_eq!(serde_json::to_string(&reply.body).unwrap(), r#""alice""#);
}

#[test]
fn post_users_with_other_key_is_bad_request() {
    let payload = body_of(r#"{"name":"alice"}"#);
    let reply = create_user(&payload);
    assert_eq!(reply.status, Status::BadRequest);
    assert_eq!(reply.status.code(), 400);
    assert_eq!(serde_json::to_string(&reply.body).unwrap(), "null");
}

#[test]
fn post_users_with_number_username_is_bad_request() {
    let payload = body_of(r#"{"username":42}"#);
    let reply = create_user(&payload);
    assert_eq!(reply.status.code(), 400);
    assert_eq!(serde_json::to_string(&reply.body).unwrap(), "null");
}

#[test]
fn post_users_with_array_is_bad_request() {
    let payload = body_of("[]");
    let reply = create_user(&payload);
    assert_eq!(reply.status.code(), 400);
    assert_eq!(serde_json::to_string(&reply.body).unwrap(), "null");
}

#[test]
fn get_root_says_hello() {
    assert_eq!(root(), "Hello, World!");
}

#[test]
fn status_codes() {
    assert_eq!(Status::Created.code(), 201);
    assert_eq!(Status::BadRequest.code(), 400);
    assert_ne!(Status::Created, Status::BadRequest);
}

#[test]
fn created_body_is_the_username_as_json_string() {
    let payload = body_of(r#"{"username":"bob","admin":true}"#);
    let reply = create_user(&payload);
    assert_eq!(reply.body, Value::String("bob".to_string()));
    assert_ne!(reply.body, payload);
}

#[test]
fn created_body_is_escaped_when_encoded() {
    let payload = body_of(r#"{"username":"a\"b\\c\n"}"#);
    let reply = create_user(&payload);
    assert_eq!(reply.status, Status::Created);
    assert_eq!(reply.body.as_str(), Some("a\"b\\c\n"));
    assert_eq!(serde_json::to_string(&reply.body).unwrap(), r#""a\"b\\c\n""#);
}

#[test]
fn created_with_empty_username() {
    let payload = body_of(r#"{"username":""}"#);
    let reply = create_user(&payload);
    assert_eq!(reply.status.code(), 201);
    assert_eq!(serde_json::to_string(&reply.body).unwrap(), r#""""#);
    assert_eq!(reply.log_line, Some(""));
}

#[test]
fn rejected_body_is_json_null() {
    let payload = body_of(r#"{"username":null}"#);
    let reply = create_user(&payload);
    assert_eq!(reply.status, Status::BadRequest);
    assert_eq!(reply.body, Value::Null);
    assert!(reply.body.is_null());
}

#[test]
fn logs_username_on_success_only() {
    let accepted = body_of(r#"{"username":"alice"}"#);
    assert_eq!(create_user(&accepted).log_line, Some("alice"));
    for text in ["null", "true", "7", r#""alice""#, "[]", "{}", r#"{"name":"alice"}"#, r#"{"username":42}"#] {
        let rejected = body_of(text);
        let reply = create_user(&rejected);
        assert_eq!(reply.status.code(), 400);
        assert_eq!(reply.body, Value::Null);
        assert_eq!(reply.log_line, None);
    }
}

#[test]
fn reply_is_repeatable() {
    let payload = body_of(r#"{"username":"alice"}"#);
    let first = create_user(&payload);
    let second = create_user(&payload);
    assert_eq!(first.status, second.status);
    assert_eq!(first.body, second.body);
    assert_eq!(first.log_line, second.log_line);
}
