//! Commands on Redis string values.

use vstd::prelude::*;
use vstd::utf8::encode_utf8;

use crate::command::{arg_strs, cmd_args, decimal, push_int, push_str, str_args};

verus! {

/// `SET key value`: stores `value` under `key`.
pub fn set_command(key: &str, value: &str) -> (c: redis::Cmd)
    ensures
        cmd_args(c) == seq![encode_utf8("SET"@), encode_utf8(key@), encode_utf8(value@)],
{
    let mut c = redis::cmd("SET");
    push_str(&mut c, key);
    push_str(&mut c, value);
    c
}

/// `GET key`: reads the value stored under `key`.
pub fn get_command(key: &str) -> (c: redis::Cmd)
    ensures
        cmd_args(c) == seq![encode_utf8("GET"@), encode_utf8(key@)],
{
    let mut c = redis::cmd("GET");
    push_str(&mut c, key);
    c
}

/// `DEL key`: removes `key`.
pub fn del_command(key: &str) -> (c: redis::Cmd)
    ensures
        cmd_args(c) == seq![encode_utf8("DEL"@), encode_utf8(key@)],
{
    let mut c = redis::cmd("DEL");
    push_str(&mut c, key);
    c
}

/// `GETRANGE key start end`: the substring between two inclusive offsets; a
/// negative `end` counts from the end of the value.
pub fn get_range_command(key: &str, start: u8, end: i8) -> (c: redis::Cmd)
    ensures
        cmd_args(c) == seq![
            encode_utf8("GETRANGE"@),
            encode_utf8(key@),
            decimal(start as int),
            decimal(end as int),
        ],
{
    let mut c = redis::cmd("GETRANGE");
    push_str(&mut c, key);
    push_int(&mut c, start as i64);
    push_int(&mut c, end as i64);
    c
}

/// `GETSET key value`: stores `value` under `key` and answers the old value.
pub fn get_set_command(key: &str, value: &str) -> (c: redis::Cmd)
    ensures
        cmd_args(c) == seq![encode_utf8("GETSET"@), encode_utf8(key@), encode_utf8(value@)],
{
    let mut c = redis::cmd("GETSET");
    push_str(&mut c, key);
    push_str(&mut c, value);
    c
}

/// `GETBIT key offset`: the bit at `offset` of the value under `key`.
pub fn get_bit_command(key: &str, offset: u16) -> (c: redis::Cmd)
    ensures
        cmd_args(c) == seq![encode_utf8("GETBIT"@), encode_utf8(key@), decimal(offset as int)],
{
    let mut c = redis::cmd("GETBIT");
    push_str(&mut c, key);
    push_int(&mut c, offset as i64);
    c
}

/// `SETBIT key offset value`: sets the bit at `offset` of the value under `key`
/// and answers its old value.
pub fn set_bit_command(key: &str, offset: u16, value: u8) -> (c: redis::Cmd)
    ensures
        cmd_args(c) == seq![
            encode_utf8("SETBIT"@),
            encode_utf8(key@),
            decimal(offset as int),
            decimal(value as int),
        ],
{
    let mut c = redis::cmd("SETBIT");
    push_str(&mut c, key);
    push_int(&mut c, offset as i64);
    push_int(&mut c, value as i64);
    c
}

/// `MGET key...`: the values stored under each of `keys`, in order.
pub fn mget_command(keys: &Vec<&str>) -> (c: redis::Cmd)
    ensures
        cmd_args(c) == seq![encode_utf8("MGET"@)] + str_args(keys@),
{
    let mut c = redis::cmd("MGET");
    arg_strs(&mut c, keys);
    c
}

} // verus!
