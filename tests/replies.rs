use learn_redis_with_rust::reply::{
    string_or_empty, string_reply, strings_or_placeholder, strings_reply, u8_or_zero, u8_reply,
};
use redis::{ErrorKind, RedisError, Value};

fn failure() -> RedisError {
    RedisError::from((ErrorKind::IoError, "connection refused"))
}

fn data(s: &str) -> Value {
    Value::Data(s.as_bytes().to_vec())
}

#[test]
fn string_or_empty_keeps_a_decoded_string() {
    assert_eq!(string_or_empty(Ok("my-value".to_string())), "my-value");
}

#[test]
fn string_or_empty_gives_empty_on_failure() {
    assert_eq!(string_or_empty(Err(failure())), "");
}

#[test]
fn string_reply_decodes_bulk_data() {
    assert_eq!(string_reply(Ok(data("my-value"))), "my-value");
}

#[test]
fn string_reply_decodes_status_and_ok() {
    assert_eq!(string_reply(Ok(Value::Status("PONG".to_string()))), "PONG");
    assert_eq!(string_reply(Ok(Value::Okay)), "OK");
}

#[test]
fn string_reply_of_missing_key_is_empty() {
    assert_eq!(string_reply(Ok(Value::Nil)), "");
}

#[test]
fn string_reply_of_integer_is_empty() {
    assert_eq!(string_reply(Ok(Value::Int(1))), "");
}

#[test]
fn string_reply_of_invalid_utf8_is_empty() {
    assert_eq!(string_reply(Ok(Value::Data(vec![0xff, 0xfe]))), "");
}

#[test]
fn string_reply_on_failure_is_empty() {
    assert_eq!(string_reply(Err(failure())), "");
}

#[test]
fn u8_or_zero_keeps_a_decoded_integer() {
    assert_eq!(u8_or_zero(Ok(7)), 7);
    assert_eq!(u8_or_zero(Err(failure())), 0);
}

#[test]
fn u8_reply_decodes_integer_and_text() {
    assert_eq!(u8_reply(Ok(Value::Int(1))), 1);
    assert_eq!(u8_reply(Ok(data("42"))), 42);
}

#[test]
fn u8_reply_of_ok_status_is_zero() {
    assert_eq!(u8_reply(Ok(Value::Okay)), 0);
}

#[test]
fn u8_reply_on_failure_is_zero() {
    assert_eq!(u8_reply(Err(failure())), 0);
}

#[test]
fn strings_or_placeholder_keeps_a_decoded_list() {
    let v = vec!["value1".to_string(), "value2".to_string()];
    assert_eq!(strings_or_placeholder(Ok(v)), ["value1", "value2"]);
}

#[test]
fn strings_or_placeholder_on_failure_is_one_empty_string() {
    assert_eq!(strings_or_placeholder(Err(failure())), [""]);
}

#[test]
fn strings_reply_decodes_a_bulk_reply() {
    let r = strings_reply(Ok(Value::Bulk(vec![data("value1"), data("value2")])));
    assert_eq!(r, ["value1", "value2"]);
}

#[test]
fn strings_reply_of_nil_is_empty_list() {
    assert_eq!(strings_reply(Ok(Value::Nil)), Vec::<String>::new());
}

#[test]
fn strings_reply_with_a_missing_key_is_the_placeholder() {
    let r = strings_reply(Ok(Value::Bulk(vec![data("value1"), Value::Nil])));
    assert_eq!(r, [""]);
}

#[test]
fn strings_reply_on_failure_is_the_placeholder() {
    assert_eq!(strings_reply(Err(failure())), [""]);
}
