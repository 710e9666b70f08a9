//! Commands as lists of byte-string arguments.

use vstd::prelude::*;
use vstd::utf8::encode_utf8;

verus! {

#[verifier::external_type_specification]
#[verifier::external_body]
pub struct ExCmd(redis::Cmd);

/// The arguments that a command holds, in order. The command's name is the first.
pub uninterp spec fn cmd_args(c: redis::Cmd) -> Seq<Seq<u8>>;

/// The decimal digits of `n`, most significant first, without leading zeros.
pub open spec fn digits(n: nat) -> Seq<u8>
    decreases n,
{
    if n < 10 {
        // 48 is the code of the digit zero.
        seq![(n + 48) as u8]
    } else {
        digits(n / 10).push((n % 10 + 48) as u8)
    }
}

/// The decimal text of `n`, with a leading `-` when it is negative.
pub open spec fn decimal(n: int) -> Seq<u8> {
    if n < 0 {
        // 45 is the code of the minus sign.
        seq![45u8] + digits((-n) as nat)
    } else {
        digits(n as nat)
    }
}

/// Relies on `redis::cmd`: the new command holds one argument, the UTF-8 bytes
/// of `name`.
pub assume_specification[ redis::cmd ](name: &str) -> (c: redis::Cmd)
    ensures
        cmd_args(c) == seq![encode_utf8(name@)],
;

/// Relies on `redis::Cmd::arg` with a `&str`: it appends the UTF-8 bytes of the
/// string as one argument.
#[verifier::external_body]
pub(crate) fn push_str(c: &mut redis::Cmd, a: &str)
    ensures
        cmd_args(*final(c)) == cmd_args(*old(c)).push(encode_utf8(a@)),
{
    c.arg(a);
}

/// Relies on `redis::Cmd::arg` with an `i64`: it appends the integer's decimal
/// text (written by itoa) as one argument.
#[verifier::external_body]
pub(crate) fn push_int(c: &mut redis::Cmd, n: i64)
    ensures
        cmd_args(*final(c)) == cmd_args(*old(c)).push(decimal(n as int)),
{
    c.arg(n);
}

/// The arguments that a list of strings adds to a command: the UTF-8 bytes of
/// each, in order.
pub open spec fn str_args(items: Seq<&str>) -> Seq<Seq<u8>> {
    items.map_values(|s: &str| encode_utf8(s@))
}

/// Appends one argument to `c` for each item, in order.
pub fn arg_strs(c: &mut redis::Cmd, items: &Vec<&str>)
    ensures
        cmd_args(*final(c)) == cmd_args(*old(c)) + str_args(items@),
{
    let ghost start = cmd_args(*c);
    let mut i: usize = 0;
    while i < items.len()
        invariant
            i <= items@.len(),
            cmd_args(*c) == start + str_args(items@.subrange(0, i as int)),
        decreases items@.len() - i,
    {
        push_str(c, items[i]);
        assert(items@.subrange(0, i + 1) == items@.subrange(0, i as int).push(items@[i as int]));
        i = i + 1;
    }
    assert(items@.subrange(0, i as int) == items@);
}

} // verus!
