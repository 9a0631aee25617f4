//! Where the operating system shows a process, and how the name of a
//! process is taken from its command-line record.

use vstd::prelude::*;
use vstd::std_specs::iter::IteratorSpec;
use vstd::string::*;
use vstd::utf8::encode_utf8;
use crate::decimal::{decimal, push_decimal};
use crate::failure::{Failure, FailureModel};

verus! {

/// Path of the directory that exists exactly while process `pid` does.
pub open spec fn dir_path(pid: u32) -> Seq<char> {
    "/proc/"@ + decimal(pid as nat)
}

/// Path of the command-line record of process `pid`.
pub open spec fn record_path(pid: u32) -> Seq<char> {
    dir_path(pid) + "/cmdline"@
}

/// Number of characters of `s` in front of its first NUL, or the length of
/// `s` where it holds none.
pub open spec fn token_end(s: Seq<char>) -> int
    decreases s.len(),
{
    if s.len() == 0 || s[0] == '\0' {
        0
    } else {
        1 + token_end(s.drop_first())
    }
}

/// The pieces of `s` between its NULs, in order. There is one piece more
/// than there are NULs, so at least one.
pub open spec fn split_at_nul(s: Seq<char>) -> Seq<Seq<char>>
    decreases s.len(),
{
    let end = token_end(s);
    if 0 <= end < s.len() {
        seq![s.take(end)] + split_at_nul(s.skip(end + 1))
    } else {
        seq![s]
    }
}

/// The tokens of a command-line record: none for the empty record, else the
/// pieces between its NULs.
pub open spec fn record_tokens(record: Seq<char>) -> Seq<Seq<char>> {
    if record.len() == 0 {
        Seq::empty()
    } else {
        split_at_nul(record)
    }
}

/// The name of process `pid` as its command-line `record` gives it: the
/// first token, or a data-format failure where there is none.
pub open spec fn resolve_name(pid: u32, record: Seq<char>) -> Result<Seq<char>, FailureModel> {
    if record_tokens(record).len() > 0 {
        Ok(record_tokens(record)[0])
    } else {
        Err(FailureModel::MalformedRecord { pid, path: record_path(pid) })
    }
}

/// `token_end` is the position of the first NUL: no NUL stands in front of
/// it, and one stands at it unless it is the end of `s`.
pub proof fn lemma_token_end(s: Seq<char>)
    ensures
        0 <= token_end(s) <= s.len(),
        forall|i: int| 0 <= i < token_end(s) ==> s[i] != '\0',
        token_end(s) < s.len() ==> s[token_end(s)] == '\0',
    decreases s.len(),
{
    if s.len() == 0 || s[0] == '\0' {
    } else {
        let rest = s.drop_first();
        lemma_token_end(rest);
        assert forall|i: int| 0 <= i < token_end(s) implies s[i] != '\0' by {
            if i > 0 {
                assert(s[i] == rest[i - 1]);
            }
        }
        if token_end(s) < s.len() {
            assert(s[token_end(s)] == rest[token_end(rest)]);
        }
    }
}

/// A position that holds a NUL, with none in front of it, is `token_end`;
/// so is the length of a sequence without NUL.
pub proof fn lemma_token_end_is(s: Seq<char>, end: int)
    requires
        0 <= end <= s.len(),
        forall|i: int| 0 <= i < end ==> s[i] != '\0',
        end < s.len() ==> s[end] == '\0',
    ensures
        token_end(s) == end,
{
    lemma_token_end(s);
    let found = token_end(s);
    if found < end {
        assert(s[found] == '\0');
    } else if end < found {
        assert(s[end] == '\0');
    }
}

/// The first token of a record that is not empty is what stands in front of
/// its first NUL.
pub proof fn lemma_first_token(record: Seq<char>)
    requires
        record.len() > 0,
    ensures
        record_tokens(record).len() > 0,
        record_tokens(record)[0] == record.take(token_end(record)),
{
    lemma_token_end(record);
    let end = token_end(record);
    if end == record.len() {
        assert(record.take(end) =~= record);
    }
}

/// A string has at most as many characters as its encoding has bytes.
proof fn lemma_encoding_length(chars: Seq<char>)
    ensures
        chars.len() <= encode_utf8(chars).len(),
    decreases chars.len(),
{
    if chars.len() > 0 {
        lemma_encoding_length(chars.drop_first());
    }
}

/// Path of the directory that exists exactly while process `pid` does.
pub fn process_dir(pid: u32) -> (path: String)
    ensures
        path@ == dir_path(pid),
{
    let mut path = String::from_str("/proc/");
    push_decimal(&mut path, pid);
    path
}

/// Path of the command-line record of process `pid`.
pub fn record_file(pid: u32) -> (path: String)
    ensures
        path@ == record_path(pid),
{
    process_dir(pid).concat("/cmdline")
}

/// Number of characters of `record` in front of its first NUL.
fn scan_token(record: &str) -> (end: usize)
    ensures
        end == token_end(record@),
{
    let size = record.as_bytes().len();
    proof {
        lemma_encoding_length(record@);
    }
    let mut chars = record.chars();
    let mut end: usize = 0;
    loop
        invariant
            0 <= end <= record@.len() <= size,
            chars.remaining() == record@.skip(end as int),
            forall|i: int| 0 <= i < end ==> record@[i] != '\0',
        decreases record@.len() - end,
    {
        match chars.next() {
            Some(c) => {
                if c == '\0' {
                    proof {
                        lemma_token_end_is(record@, end as int);
                    }
                    return end;
                }
                end = end + 1;
            },
            None => {
                proof {
                    lemma_token_end_is(record@, end as int);
                }
                return end;
            },
        }
    }
}

/// The name of process `pid`, taken from the contents of its command-line
/// record: the first of the NUL-separated tokens. A record without a token
/// is a data-format failure that names the record's path.
pub fn get_process_name(pid: u32, record: &str) -> (name: Result<String, Failure>)
    ensures
        match name {
            Ok(token) => resolve_name(pid, record@) == Ok::<Seq<char>, FailureModel>(token@),
            Err(failure) => resolve_name(pid, record@) == Err::<Seq<char>, FailureModel>(failure@),
        },
{
    if record.is_empty() {
        return Err(Failure::MalformedRecord { pid, path: record_file(pid) });
    }
    let end = scan_token(record);
    proof {
        lemma_token_end(record@);
        lemma_first_token(record@);
    }
    Ok(String::from_str(record.substring_char(0, end)))
}

} // verus!
