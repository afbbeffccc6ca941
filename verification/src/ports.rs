//! Port selection: the server port read from the `PORT` environment value,
//! and the frontend port per build mode.

use vstd::prelude::*;
use vstd::string::StrSliceExecFns;
use crate::environment::Environment;

verus! {

/// The server port used when `PORT` is absent or unusable.
pub const DEFAULT_SERVER_PORT: u16 = 3030;

/// The fixed loopback port of the development frontend.
pub const DEV_FRONTEND_PORT: u16 = 5173;

/// Whether a character is a decimal digit.
pub open spec fn is_digit(c: char) -> bool {
    48 <= c as u32 && c as u32 <= 57
}

/// The value of a decimal digit character.
pub open spec fn digit_val(c: char) -> nat {
    (c as u32 - 48) as nat
}

/// The number that a run of decimal digits denotes.
pub open spec fn digits_val(s: Seq<char>) -> nat
    decreases s.len(),
{
    if s.len() == 0 {
        0
    } else {
        digits_val(s.drop_last()) * 10 + digit_val(s.last())
    }
}

/// Whether every character of `s` is a decimal digit.
pub open spec fn all_digits(s: Seq<char>) -> bool {
    forall|i: int| 0 <= i < s.len() ==> is_digit(s[i])
}

/// A decimal integer may carry one leading `'+'`; the digits follow.
pub open spec fn numeric_body(s: Seq<char>) -> Seq<char> {
    if s.len() > 0 && s[0] == '+' {
        s.skip(1)
    } else {
        s
    }
}

/// The port a `PORT` value denotes: defined exactly on decimal integers
/// within `1..=65535`.
pub open spec fn parse_port_spec(s: Seq<char>) -> Option<u16> {
    let b = numeric_body(s);
    if b.len() > 0 && all_digits(b) && 1 <= digits_val(b) && digits_val(b) <= 65535 {
        Some(digits_val(b) as u16)
    } else {
        None
    }
}

/// The server port for a present `PORT` value: its parsed value, or the
/// default when it is non-numeric or out of range.
pub open spec fn port_or_default(s: Seq<char>) -> u16 {
    match parse_port_spec(s) {
        Some(p) => p,
        None => DEFAULT_SERVER_PORT,
    }
}

proof fn lemma_digits_val_prefix(b: Seq<char>, i: int)
    requires
        0 <= i <= b.len(),
    ensures
        digits_val(b) >= digits_val(b.subrange(0, i)),
    decreases b.len(),
{
    if i == b.len() {
        assert(b.subrange(0, i) =~= b);
    } else {
        let q = b.drop_last();
        lemma_digits_val_prefix(q, i);
        assert(q.subrange(0, i) =~= b.subrange(0, i));
    }
}

/// Parses a `PORT` value: a decimal integer in `1..=65535`, with one
/// optional leading `'+'`; anything else yields `None`.
pub fn parse_port(s: &str) -> (r: Option<u16>)
    ensures
        r == parse_port_spec(s@),
{
    let len = s.unicode_len();
    let start: usize = if len > 0 && s.get_char(0) == '+' {
        1
    } else {
        0
    };
    let ghost body = numeric_body(s@);
    proof {
        assert(body =~= s@.subrange(start as int, len as int));
    }
    if start == len {
        return None;
    }
    let mut acc: u32 = 0;
    let mut i: usize = start;
    while i < len
        invariant
            len == s@.len(),
            start <= i <= len,
            start < len,
            body == numeric_body(s@),
            body == s@.subrange(start as int, len as int),
            forall|j: int| start <= j < i ==> is_digit(s@[j]),
            acc == digits_val(s@.subrange(start as int, i as int)),
            acc <= 65535,
        decreases len - i,
    {
        let c = s.get_char(i);
        let u = c as u32;
        if !(48 <= u && u <= 57) {
            proof {
                assert(body[i - start] == s@[i as int]);
                assert(!is_digit(body[i - start]));
                assert(!all_digits(body));
                assert(parse_port_spec(s@) is None);
            }
            return None;
        }
        let d = u - 48;
        let next = acc * 10 + d;
        proof {
            assert(s@.subrange(start as int, i + 1).drop_last() =~= s@.subrange(
                start as int,
                i as int,
            ));
            assert(s@.subrange(start as int, i + 1).last() == s@[i as int]);
        }
        if next > 65535 {
            proof {
                assert(digit_val(s@[i as int]) == d);
                assert(digits_val(s@.subrange(start as int, i + 1)) == acc * 10 + d);
                if all_digits(body) {
                    lemma_digits_val_prefix(body, i + 1 - start);
                    assert(body.subrange(0, i + 1 - start) =~= s@.subrange(start as int, i + 1));
                    assert(digits_val(body) > 65535);
                }
                assert(parse_port_spec(s@) is None);
            }
            return None;
        }
        acc = next;
        i = i + 1;
    }
    proof {
        assert(s@.subrange(start as int, len as int) =~= body);
        assert(acc == digits_val(body));
        assert(all_digits(body));
    }
    if acc == 0 {
        None
    } else {
        Some(acc as u16)
    }
}

/// The server listening port: the `PORT` environment value when it is a
/// decimal integer in `1..=65535`, the default 3030 otherwise (absent,
/// non-numeric, or out of range).
pub fn server_port(value: Option<&str>) -> (p: u16)
    ensures
        match value {
            Some(s) => p == port_or_default(s@),
            None => p == DEFAULT_SERVER_PORT,
        },
{
    match value {
        Some(s) => match parse_port(s) {
            Some(p) => p,
            None => DEFAULT_SERVER_PORT,
        },
        None => DEFAULT_SERVER_PORT,
    }
}

/// The frontend's loopback port: the fixed development port in
/// Development, the freshly allocated ephemeral port in Production.
pub fn frontend_port(env: &Environment, allocated: u16) -> (p: u16)
    ensures
        match env {
            Environment::Development => p == DEV_FRONTEND_PORT,
            Environment::Production => p == allocated,
        },
{
    match env {
        Environment::Development => DEV_FRONTEND_PORT,
        Environment::Production => allocated,
    }
}

} // verus!
