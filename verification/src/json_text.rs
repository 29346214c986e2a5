//! JSON text for answers whose bodies hold lists: strings quoted and escaped,
//! numbers in decimal, objects and arrays written out member by member.
use vstd::prelude::*;

use crate::text::{hex_char, push_char, push_decimal, spec_decimal, spec_hex_char};

verus! {

/// How one character stands inside a JSON string: a quote and a backslash are
/// escaped, a control character is written as `\u00` and two hexadecimal digits.
pub open spec fn spec_json_char(c: char) -> Seq<char> {
    if c == '"' {
        seq!['\\', '"']
    } else if c == '\\' {
        seq!['\\', '\\']
    } else if (c as u32) < 32 {
        seq![
            '\\',
            'u',
            '0',
            '0',
            spec_hex_char(((c as u32) / 16) as int, false),
            spec_hex_char(((c as u32) % 16) as int, false),
        ]
    } else {
        seq![c]
    }
}

/// The characters of a text as they stand inside a JSON string.
pub open spec fn spec_json_escaped(s: Seq<char>) -> Seq<char>
    decreases s.len(),
{
    if s.len() == 0 {
        Seq::empty()
    } else {
        spec_json_escaped(s.drop_last()) + spec_json_char(s.last())
    }
}

/// A text as a JSON string.
pub open spec fn spec_json_str(s: Seq<char>) -> Seq<char> {
    seq!['"'] + spec_json_escaped(s) + seq!['"']
}

/// A member of a JSON object: the quoted key, a colon, the value's text.
pub open spec fn spec_member(key: Seq<char>, value: Seq<char>) -> Seq<char> {
    spec_json_str(key) + seq![':'] + value
}

/// Appends one character as it stands inside a JSON string.
fn push_json_char(out: &mut String, c: char)
    ensures
        final(out)@ == old(out)@ + spec_json_char(c),
{
    let ghost start = out@;
    if c == '"' {
        push_char(out, '\\');
        push_char(out, '"');
    } else if c == '\\' {
        push_char(out, '\\');
        push_char(out, '\\');
    } else if (c as u32) < 32 {
        let v = c as u32;
        push_char(out, '\\');
        push_char(out, 'u');
        push_char(out, '0');
        push_char(out, '0');
        push_char(out, hex_char((v / 16) as u8, false));
        push_char(out, hex_char((v % 16) as u8, false));
    } else {
        push_char(out, c);
    }
    assert(out@ =~= start + spec_json_char(c));
}

/// Appends a text as a JSON string.
pub fn push_json_str(out: &mut String, s: &str)
    ensures
        final(out)@ == old(out)@ + spec_json_str(s@),
{
    let ghost start = out@;
    push_char(out, '"');
    let n = s.unicode_len();
    let mut i: usize = 0;
    while i < n
        invariant
            n == s@.len(),
            i <= n,
            out@ == start + seq!['"'] + spec_json_escaped(s@.take(i as int)),
        decreases n - i,
    {
        let c = s.get_char(i);
        push_json_char(out, c);
        proof {
            assert(s@.take(i + 1).drop_last() =~= s@.take(i as int));
            assert(s@.take(i + 1).last() == c);
        }
        i = i + 1;
    }
    assert(s@.take(n as int) =~= s@);
    push_char(out, '"');
    assert(out@ =~= start + spec_json_str(s@));
}

/// Appends a member whose value is a string.
pub fn push_str_member(out: &mut String, key: &str, value: &str)
    ensures
        final(out)@ == old(out)@ + spec_member(key@, spec_json_str(value@)),
{
    let ghost start = out@;
    push_json_str(out, key);
    push_char(out, ':');
    push_json_str(out, value);
    assert(out@ =~= start + spec_member(key@, spec_json_str(value@)));
}

/// Appends a member whose value is a number.
pub fn push_number_member(out: &mut String, key: &str, value: u64)
    ensures
        final(out)@ == old(out)@ + spec_member(key@, spec_decimal(value as nat)),
{
    let ghost start = out@;
    push_json_str(out, key);
    push_char(out, ':');
    push_decimal(out, value);
    assert(out@ =~= start + spec_member(key@, spec_decimal(value as nat)));
}

} // verus!
