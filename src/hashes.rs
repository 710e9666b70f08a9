//! Commands on Redis hashes, maps from string fields to string values.

use vstd::prelude::*;
use vstd::utf8::encode_utf8;

use crate::command::{arg_strs, cmd_args, push_str, str_args};

verus! {

/// `HSET key field value ...`: sets fields of the hash under `key`. `values`
/// alternates fields and values, and is sent as it stands.
pub fn hset_command(key: &str, values: &Vec<&str>) -> (c: redis::Cmd)
    ensures
        cmd_args(c) == seq![encode_utf8("HSET"@), encode_utf8(key@)] + str_args(values@),
{
    let mut c = redis::cmd("HSET");
    push_str(&mut c, key);
    arg_strs(&mut c, values);
    c
}

/// `HGET key field`: the value of `field` in the hash under `key`.
pub fn hget_command(key: &str, field: &str) -> (c: redis::Cmd)
    ensures
        cmd_args(c) == seq![encode_utf8("HGET"@), encode_utf8(key@), encode_utf8(field@)],
{
    let mut c = redis::cmd("HGET");
    push_str(&mut c, key);
    push_str(&mut c, field);
    c
}

} // verus!
