//! Decoding replies, with failures turned into default values.
//!
//! Every failure, whether the connection, the server or the decoding failed,
//! gives the same default. A caller therefore cannot tell a missing key from an
//! error: the empty string, zero and a list of one empty string each stand for
//! both.

use vstd::prelude::*;

verus! {

#[verifier::external_type_specification]
#[verifier::external_body]
pub struct ExValue(redis::Value);

#[verifier::external_type_specification]
#[verifier::external_body]
pub struct ExRedisError(redis::RedisError);

/// What `redis::from_redis_value` decodes from `v` as a `String`; `None` where
/// it fails.
pub uninterp spec fn decoded_string(v: redis::Value) -> Option<Seq<char>>;

/// What `redis::from_redis_value` decodes from `v` as a `u8`; `None` where it
/// fails.
pub uninterp spec fn decoded_u8(v: redis::Value) -> Option<u8>;

/// What `redis::from_redis_value` decodes from `v` as a `Vec<String>`; `None`
/// where it fails.
pub uninterp spec fn decoded_strings(v: redis::Value) -> Option<Seq<Seq<char>>>;

/// Relies on `redis::from_redis_value::<String>`: the outcome depends on the
/// reply alone.
#[verifier::external_body]
fn decode_string(v: &redis::Value) -> (r: Result<String, redis::RedisError>)
    ensures
        match r {
            Ok(s) => decoded_string(*v) == Some(s@),
            Err(_) => decoded_string(*v) is None,
        },
{
    redis::from_redis_value::<String>(v)
}

/// Relies on `redis::from_redis_value::<u8>`: the outcome depends on the reply
/// alone.
#[verifier::external_body]
fn decode_u8(v: &redis::Value) -> (r: Result<u8, redis::RedisError>)
    ensures
        match r {
            Ok(n) => decoded_u8(*v) == Some(n),
            Err(_) => decoded_u8(*v) is None,
        },
{
    redis::from_redis_value::<u8>(v)
}

/// Relies on `redis::from_redis_value::<Vec<String>>`: the outcome depends on
/// the reply alone.
#[verifier::external_body]
fn decode_strings(v: &redis::Value) -> (r: Result<Vec<String>, redis::RedisError>)
    ensures
        match r {
            Ok(s) => decoded_strings(*v) == Some(s@.map_values(|x: String| x@)),
            Err(_) => decoded_strings(*v) is None,
        },
{
    redis::from_redis_value::<Vec<String>>(v)
}

/// The decoded string, or the empty string where there is none.
pub fn string_or_empty(r: Result<String, redis::RedisError>) -> (s: String)
    ensures
        match r {
            Ok(v) => s@ == v@,
            Err(_) => s@ == Seq::<char>::empty(),
        },
{
    match r {
        Ok(v) => v,
        Err(_) => String::new(),
    }
}

/// A reply decoded as a string; the empty string where the request failed or
/// the reply is not one.
pub fn string_reply(r: Result<redis::Value, redis::RedisError>) -> (s: String)
    ensures
        match r {
            Ok(v) => s@ == match decoded_string(v) {
                Some(t) => t,
                None => Seq::<char>::empty(),
            },
            Err(_) => s@ == Seq::<char>::empty(),
        },
{
    match r {
        Ok(v) => string_or_empty(decode_string(&v)),
        Err(_) => String::new(),
    }
}

/// The decoded integer, or zero where there is none.
pub fn u8_or_zero(r: Result<u8, redis::RedisError>) -> (n: u8)
    ensures
        match r {
            Ok(v) => n == v,
            Err(_) => n == 0,
        },
{
    match r {
        Ok(v) => v,
        Err(_) => 0,
    }
}

/// A reply decoded as a `u8`; zero where the request failed or the reply is not
/// one.
pub fn u8_reply(r: Result<redis::Value, redis::RedisError>) -> (n: u8)
    ensures
        match r {
            Ok(v) => n == match decoded_u8(v) {
                Some(b) => b,
                None => 0,
            },
            Err(_) => n == 0,
        },
{
    match r {
        Ok(v) => u8_or_zero(decode_u8(&v)),
        Err(_) => 0,
    }
}

/// The list that stands for a failure: one empty string.
pub open spec fn is_placeholder(s: Seq<String>) -> bool {
    s.len() == 1 && s[0]@ == Seq::<char>::empty()
}

/// The decoded list of strings, or the placeholder list where there is none.
pub fn strings_or_placeholder(r: Result<Vec<String>, redis::RedisError>) -> (s: Vec<String>)
    ensures
        match r {
            Ok(v) => s@ == v@,
            Err(_) => is_placeholder(s@),
        },
{
    match r {
        Ok(v) => v,
        Err(_) => placeholder(),
    }
}

/// A reply decoded as a list of strings; the placeholder list where the request
/// failed or the reply is not one.
pub fn strings_reply(r: Result<redis::Value, redis::RedisError>) -> (s: Vec<String>)
    ensures
        match r {
            Ok(v) => match decoded_strings(v) {
                Some(t) => s@.map_values(|x: String| x@) == t,
                None => is_placeholder(s@),
            },
            Err(_) => is_placeholder(s@),
        },
{
    match r {
        Ok(v) => strings_or_placeholder(decode_strings(&v)),
        Err(_) => placeholder(),
    }
}

fn placeholder() -> (s: Vec<String>)
    ensures
        is_placeholder(s@),
{
    let mut s: Vec<String> = Vec::new();
    s.push(String::new());
    s
}

} // verus!
