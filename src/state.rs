use vstd::prelude::*;

use crate::error::{key_value_result, DatabaseError};

verus! {

/// A command of the key-value store's client.
#[verifier::external_type_specification]
#[verifier::external_body]
pub struct ExCmd(redis::Cmd);

/// Height of a block, as stored in the key-value snapshots.
pub type BlockHeight = u64;

/// The key under which the hash map of `account` in namespace `prefix` is stored.
pub open spec fn state_key_of(prefix: Seq<char>, account: Seq<char>) -> Seq<char> {
    prefix + seq![':'] + account
}

pub open spec fn is_digit(c: char) -> bool {
    '0' <= c <= '9'
}

pub open spec fn digit_value(c: char) -> nat {
    ((c as u32) - ('0' as u32)) as nat
}

pub open spec fn all_digits(s: Seq<char>) -> bool {
    forall|i: int| 0 <= i < s.len() ==> is_digit(#[trigger] s[i])
}

/// The number written by the decimal digits `s`.
pub open spec fn digits_value(s: Seq<char>) -> nat
    decreases s.len(),
{
    if s.len() == 0 {
        0
    } else {
        digits_value(s.drop_last()) * 10 + digit_value(s.last())
    }
}

/// `s` without one leading plus sign.
pub open spec fn unsigned_part(s: Seq<char>) -> Seq<char> {
    if s.len() > 0 && s[0] == '+' {
        s.drop_first()
    } else {
        s
    }
}

/// The height that `s` writes: an optional `+` followed by at least one
/// decimal digit, of a value that fits in 64 bits; otherwise none.
pub open spec fn height_of(s: Seq<char>) -> Option<BlockHeight> {
    let d = unsigned_part(s);
    if d.len() > 0 && all_digits(d) && digits_value(d) <= u64::MAX {
        Some(digits_value(d) as u64)
    } else {
        None
    }
}

proof fn lemma_digits_value_prefix(s: Seq<char>, k: int)
    requires
        0 <= k <= s.len(),
    ensures
        digits_value(s.subrange(0, k)) <= digits_value(s),
    decreases s.len(),
{
    if k < s.len() {
        lemma_digits_value_prefix(s.drop_last(), k);
        assert(s.drop_last().subrange(0, k) =~= s.subrange(0, k));
    } else {
        assert(s.subrange(0, k) =~= s);
    }
}

/// A value holding anything but decimal digits after an optional plus sign
/// has no height.
pub proof fn lemma_non_numeric_has_no_height(s: Seq<char>, i: int)
    requires
        0 <= i < unsigned_part(s).len(),
        !is_digit(unsigned_part(s)[i]),
    ensures
        height_of(s) is None,
{
}

/// The key-value key of `account_id` in namespace `prefix`.
pub fn state_key(prefix: &str, account_id: &str) -> (r: String)
    ensures
        r@ == state_key_of(prefix@, account_id@),
{
    let mut key = String::from_str(prefix);
    key.append(":");
    key.append(account_id);
    proof {
        reveal_strlit(":");
    }
    key
}

/// Reads `s` as a block height, leniently: a value that is not one gives none.
pub fn parse_height(s: &str) -> (r: Option<BlockHeight>)
    ensures
        r == height_of(s@),
{
    let n = s.unicode_len();
    let mut start: usize = 0;
    if n > 0 && s.get_char(0) == '+' {
        start = 1;
    }
    let ghost d = s@.subrange(start as int, n as int);
    assert(d =~= unsigned_part(s@));
    if start >= n {
        return None;
    }
    let mut i: usize = start;
    let mut acc: u64 = 0;
    while i < n
        invariant
            start <= i <= n,
            n == s@.len(),
            d == s@.subrange(start as int, n as int),
            d == unsigned_part(s@),
            all_digits(s@.subrange(start as int, i as int)),
            acc as nat == digits_value(s@.subrange(start as int, i as int)),
        decreases n - i,
    {
        let c = s.get_char(i);
        let ghost pre = s@.subrange(start as int, i as int);
        let ghost next = s@.subrange(start as int, i + 1);
        assert(pre =~= next.drop_last());
        assert(next.last() == c);
        assert(next =~= d.subrange(0, i + 1 - start));
        if !('0' <= c && c <= '9') {
            assert(d[i - start] == c);
            assert(!is_digit(d[i - start]));
            assert(!all_digits(unsigned_part(s@)));
            return None;
        }
        let v: u64 = ((c as u32) - ('0' as u32)) as u64;
        if acc > (u64::MAX - v) / 10 {
            assert(acc * 10 + v > u64::MAX) by (nonlinear_arith)
                requires
                    acc > (u64::MAX - v) / 10,
                    v <= 9,
            ;
            assert(digit_value(c) == v);
            assert(digits_value(next) == acc * 10 + v);
            proof {
                lemma_digits_value_prefix(d, i + 1 - start);
            }
            assert(digits_value(unsigned_part(s@)) > u64::MAX);
            return None;
        }
        assert(acc * 10 + v <= u64::MAX) by (nonlinear_arith)
            requires
                acc <= (u64::MAX - v) / 10,
                v <= 9,
        ;
        assert(digit_value(c) == v);
        acc = acc * 10 + v;
        i = i + 1;
        assert(all_digits(s@.subrange(start as int, i as int))) by {
            assert(s@.subrange(start as int, i as int) =~= next);
        }
    }
    assert(s@.subrange(start as int, n as int) =~= d);
    Some(acc)
}

/// Decodes a hash map read from the key-value store: one entry per field, in
/// the order read, with the field's height where its value reads as one.
pub fn decode_entries(entries: &Vec<(String, String)>) -> (r: Vec<(String, Option<BlockHeight>)>)
    ensures
        r.len() == entries.len(),
        forall|i: int|
            0 <= i < r.len() ==> {
                &&& (#[trigger] r[i]).0@ == entries[i].0@
                &&& r[i].1 == height_of(entries[i].1@)
            },
{
    let mut out: Vec<(String, Option<BlockHeight>)> = Vec::new();
    let mut i: usize = 0;
    while i < entries.len()
        invariant
            i <= entries.len(),
            out.len() == i,
            forall|j: int|
                0 <= j < i ==> {
                    &&& (#[trigger] out[j]).0@ == entries[j].0@
                    &&& out[j].1 == height_of(entries[j].1@)
                },
        decreases entries.len() - i,
    {
        let field = entries[i].0.clone();
        let height = parse_height(entries[i].1.as_str());
        out.push((field, height));
        i = i + 1;
    }
    out
}

/// The account state from a reply of the key-value store: the decoded
/// entries, or the store's failure tagged as a key-value error.
pub fn account_state(reply: Result<Vec<(String, String)>, redis::RedisError>) -> (r: Result<
    Vec<(String, Option<BlockHeight>)>,
    DatabaseError,
>)
    ensures
        reply matches Err(e) ==> r == Err::<Vec<(String, Option<BlockHeight>)>, DatabaseError>(
            DatabaseError::RedisError(e),
        ),
        reply matches Ok(entries) ==> r matches Ok(out) && out.len() == entries.len() && (
        forall|i: int|
            0 <= i < out.len() ==> {
                &&& (#[trigger] out[i]).0@ == entries[i].0@
                &&& out[i].1 == height_of(entries[i].1@)
            }),
{
    match key_value_result(reply) {
        Ok(entries) => Ok(decode_entries(&entries)),
        Err(e) => Err(e),
    }
}

/// A command for the key-value store, with its name and arguments in order.
pub struct KvCommand {
    pub cmd: redis::Cmd,
    pub args: Ghost<Seq<Seq<char>>>,
}

impl KvCommand {
    /// The command of the store's client, to be sent.
    pub fn into_cmd(self) -> redis::Cmd {
        self.cmd
    }
}

/// Relies on redis::cmd: a command whose only word so far is its name.
#[verifier::external_body]
fn new_command(name: &str) -> (r: KvCommand)
    ensures
        r.args@ == seq![name@],
{
    KvCommand { cmd: redis::cmd(name), args: Ghost(seq![name@]) }
}

/// Relies on redis::Cmd::arg: appends the text `arg` to the command's words.
#[verifier::external_body]
fn push_arg(cmd: &mut KvCommand, arg: &str)
    ensures
        final(cmd).args@ == old(cmd).args@.push(arg@),
{
    cmd.cmd.arg(arg);
    cmd.args = Ghost(cmd.args@.push(arg@));
}

/// The command that reads the whole hash map of `account_id` in namespace
/// `prefix`: `HGETALL` with the one key given by `state_key`.
pub fn account_state_command(prefix: &str, account_id: &str) -> (r: KvCommand)
    ensures
        r.args@ == seq!["HGETALL"@, state_key_of(prefix@, account_id@)],
{
    let key = state_key(prefix, account_id);
    let mut cmd = new_command("HGETALL");
    push_arg(&mut cmd, key.as_str());
    assert(cmd.args@ =~= seq!["HGETALL"@, state_key_of(prefix@, account_id@)]);
    cmd
}

} // verus!
