//! Building and reading the JSON payloads of broker messages.
//!
//! Outbound payloads are tiny objects of fixed shape, so they are rendered by
//! verified formatting with an exact character-level specification.  Inbound
//! list payloads (scene and priority lists) are read with `serde_json` behind
//! trusted wrappers whose results carry names that the controller contracts
//! speak of.

use vstd::prelude::*;
use crate::strutil::push_char;

verus! {

/// The decimal digit character for `d`.
pub open spec fn digit_char(d: int) -> char {
    if d == 0 {
        '0'
    } else if d == 1 {
        '1'
    } else if d == 2 {
        '2'
    } else if d == 3 {
        '3'
    } else if d == 4 {
        '4'
    } else if d == 5 {
        '5'
    } else if d == 6 {
        '6'
    } else if d == 7 {
        '7'
    } else if d == 8 {
        '8'
    } else {
        '9'
    }
}

/// Decimal rendering of a natural number, most significant digit first.
pub open spec fn spec_dec_nat(n: nat) -> Seq<char>
    decreases n,
{
    if n < 10 {
        seq![digit_char(n as int)]
    } else {
        spec_dec_nat(n / 10).push(digit_char((n % 10) as int))
    }
}

/// Decimal rendering of an integer, with a leading minus sign if negative.
pub open spec fn spec_dec_int(n: int) -> Seq<char> {
    if n < 0 {
        seq!['-'] + spec_dec_nat((-n) as nat)
    } else {
        spec_dec_nat(n as nat)
    }
}

fn digit_to_char(d: u32) -> (c: char)
    requires
        d < 10,
    ensures
        c == digit_char(d as int),
{
    match d {
        0 => '0',
        1 => '1',
        2 => '2',
        3 => '3',
        4 => '4',
        5 => '5',
        6 => '6',
        7 => '7',
        8 => '8',
        _ => '9',
    }
}

/// Appends the decimal rendering of `n` to `out`.
pub fn push_dec_u32(out: &mut String, n: u32)
    ensures
        final(out)@ == old(out)@ + spec_dec_nat(n as nat),
    decreases n,
{
    if n < 10 {
        push_char(out, digit_to_char(n));
        assert(out@ =~= old(out)@ + spec_dec_nat(n as nat));
    } else {
        push_dec_u32(out, n / 10);
        push_char(out, digit_to_char(n % 10));
        assert(out@ =~= old(out)@ + spec_dec_nat(n as nat));
    }
}

/// Appends the decimal rendering of `n` to `out`, minus sign included.
pub fn push_dec_i32(out: &mut String, n: i32)
    ensures
        final(out)@ == old(out)@ + spec_dec_int(n as int),
{
    if n < 0 {
        push_char(out, '-');
        let mag: u32 = if n == i32::MIN {
            2147483648
        } else {
            (0 - n) as u32
        };
        assert(mag as nat == (-(n as int)) as nat);
        push_dec_u32(out, mag);
        assert(out@ =~= old(out)@ + spec_dec_int(n as int));
    } else {
        push_dec_u32(out, n as u32);
    }
}

/// JSON string-escape of one character: quote and backslash get a backslash,
/// anything else stands for itself.
pub open spec fn json_escape_char(c: char) -> Seq<char> {
    if c == '"' {
        seq!['\\', '"']
    } else if c == '\\' {
        seq!['\\', '\\']
    } else {
        seq![c]
    }
}

/// JSON string-escape of a character sequence.
pub open spec fn json_escape(s: Seq<char>) -> Seq<char>
    decreases s.len(),
{
    if s.len() == 0 {
        Seq::empty()
    } else {
        json_escape(s.drop_last()) + json_escape_char(s.last())
    }
}

/// Appends the JSON string-escape of `s` to `out`.
pub fn push_escaped(out: &mut String, s: &str)
    ensures
        final(out)@ == old(out)@ + json_escape(s@),
{
    let len = s.unicode_len();
    let mut i: usize = 0;
    while i < len
        invariant
            len == s@.len(),
            i <= len,
            out@ == old(out)@ + json_escape(s@.take(i as int)),
        decreases len - i,
    {
        let c = s.get_char(i);
        if c == '"' {
            push_char(out, '\\');
            push_char(out, '"');
        } else if c == '\\' {
            push_char(out, '\\');
            push_char(out, '\\');
        } else {
            push_char(out, c);
        }
        proof {
            let t = s@.take(i + 1);
            assert(t.drop_last() =~= s@.take(i as int));
            assert(t.last() == s@[i as int]);
            assert(out@ =~= old(out)@ + json_escape(s@.take(i + 1)));
        }
        i += 1;
    }
    assert(s@.take(len as int) =~= s@);
}

/// What `serde_json` reads out of `s` as a JSON array of strings, if it
/// accepts `s`; the parse depends on the characters of `s` alone.
pub uninterp spec fn json_string_list(s: Seq<char>) -> Option<Seq<Seq<char>>>;

/// What `serde_json` reads out of `s` as a JSON array of integers, if it
/// accepts `s`; the parse depends on the characters of `s` alone.
pub uninterp spec fn json_priority_list(s: Seq<char>) -> Option<Seq<i32>>;

/// Relies on `serde_json::from_str::<Vec<String>>`: parses a JSON array of
/// strings, deterministically in the input text.
#[verifier::external_body]
pub fn parse_string_list(data: &str) -> (r: Option<Vec<String>>)
    ensures
        r is Some <==> json_string_list(data@) is Some,
        r matches Some(v) ==> json_string_list(data@) == Some(v.deep_view()),
{
    serde_json::from_str::<Vec<String>>(data).ok()
}

/// Relies on `serde_json::from_str::<Vec<i32>>`: parses a JSON array of
/// integers, deterministically in the input text.
#[verifier::external_body]
pub fn parse_priority_list(data: &str) -> (r: Option<Vec<i32>>)
    ensures
        r is Some <==> json_priority_list(data@) is Some,
        r matches Some(v) ==> json_priority_list(data@) == Some(v@),
{
    serde_json::from_str::<Vec<i32>>(data).ok()
}

} // verus!
