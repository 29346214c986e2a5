//! Character-level text helpers: lowercase/uppercase hexadecimal and decimal
//! renderings of bytes and integers, as used by the protocol's textual forms.
use vstd::prelude::*;

verus! {

/// Appends one character to a `String` (std's `String::push`).
/// Trusted: the string afterwards holds the old characters followed by `c`.
#[verifier::external_body]
pub fn push_char(s: &mut String, c: char)
    ensures
        final(s)@ == old(s)@.push(c),
{
    s.push(c);
}

/// The character for a digit value below sixteen; letters are upper case when `upper`.
pub open spec fn spec_hex_char(d: int, upper: bool) -> char {
    if d < 10 {
        (48 + d) as char
    } else if upper {
        (55 + d) as char
    } else {
        (87 + d) as char
    }
}

/// Two hexadecimal characters per byte, high nibble first.
pub open spec fn spec_hex(bytes: Seq<u8>, upper: bool) -> Seq<char>
    decreases bytes.len(),
{
    if bytes.len() == 0 {
        Seq::empty()
    } else {
        let b = bytes.last();
        spec_hex(bytes.drop_last(), upper) + seq![
            spec_hex_char((b / 16) as int, upper),
            spec_hex_char((b % 16) as int, upper),
        ]
    }
}

/// Decimal digits of `n`, most significant first, without leading zeros.
pub open spec fn spec_decimal(n: nat) -> Seq<char>
    decreases n,
{
    if n < 10 {
        seq![spec_hex_char(n as int, false)]
    } else {
        spec_decimal(n / 10).push(spec_hex_char((n % 10) as int, false))
    }
}

pub fn hex_char(d: u8, upper: bool) -> (c: char)
    requires
        d < 16,
    ensures
        c == spec_hex_char(d as int, upper),
{
    if d < 10 {
        (48 + d) as char
    } else if upper {
        (55 + d) as char
    } else {
        (87 + d) as char
    }
}

/// Appends the hexadecimal form of `bytes` to `s`.
pub fn push_hex(s: &mut String, bytes: &[u8], upper: bool)
    ensures
        final(s)@ == old(s)@ + spec_hex(bytes@, upper),
{
    let ghost start = s@;
    let mut i: usize = 0;
    while i < bytes.len()
        invariant
            i <= bytes.len(),
            s@ == start + spec_hex(bytes@.take(i as int), upper),
        decreases bytes.len() - i,
    {
        let b = bytes[i];
        push_char(s, hex_char(b / 16, upper));
        push_char(s, hex_char(b % 16, upper));
        proof {
            assert(bytes@.take(i + 1).drop_last() =~= bytes@.take(i as int));
            assert(bytes@.take(i + 1).last() == b);
        }
        i = i + 1;
    }
    proof {
        assert(bytes@.take(i as int) =~= bytes@);
    }
}

/// Lowercase hexadecimal encoding of `bytes`, two characters per byte.
pub fn hex_encode(bytes: &[u8]) -> (s: String)
    ensures
        s@ == spec_hex(bytes@, false),
{
    let mut s = String::new();
    push_hex(&mut s, bytes, false);
    s
}

/// Appends the decimal form of `n` to `s`.
pub fn push_decimal(s: &mut String, n: u64)
    ensures
        final(s)@ == old(s)@ + spec_decimal(n as nat),
    decreases n,
{
    if n >= 10 {
        push_decimal(s, n / 10);
    }
    push_char(s, hex_char((n % 10) as u8, false));
}

/// Appends every character of `t` to `s`.
pub fn push_str(s: &mut String, t: &str)
    ensures
        final(s)@ == old(s)@ + t@,
{
    s.append(t);
}

/// The value of a hexadecimal digit character, either case.
pub open spec fn spec_hex_value(c: char) -> Option<u8> {
    if '0' <= c && c <= '9' {
        Some((c as int - 48) as u8)
    } else if 'a' <= c && c <= 'f' {
        Some((c as int - 87) as u8)
    } else if 'A' <= c && c <= 'F' {
        Some((c as int - 55) as u8)
    } else {
        None
    }
}

pub fn hex_value(c: char) -> (r: Option<u8>)
    ensures
        r == spec_hex_value(c),
{
    if '0' <= c && c <= '9' {
        Some((c as u32 - 48) as u8)
    } else if 'a' <= c && c <= 'f' {
        Some((c as u32 - 87) as u8)
    } else if 'A' <= c && c <= 'F' {
        Some((c as u32 - 55) as u8)
    } else {
        None
    }
}

/// Whether every character of `s` is a hexadecimal digit and their number is even.
pub open spec fn spec_is_hex(s: Seq<char>) -> bool {
    &&& s.len() % 2 == 0
    &&& forall|i: int| 0 <= i < s.len() ==> (#[trigger] spec_hex_value(s[i])) is Some
}

/// The bytes that a hexadecimal text denotes, two characters per byte.
pub open spec fn spec_hex_decode(s: Seq<char>) -> Seq<u8>
    decreases s.len(),
{
    if s.len() < 2 {
        Seq::empty()
    } else {
        let n = s.len();
        spec_hex_decode(s.subrange(0, n - 2)).push(
            (spec_hex_value(s[n - 2])->0 * 16 + spec_hex_value(s[n - 1])->0) as u8,
        )
    }
}

/// Whether two strings hold the same characters.
pub fn str_eq(a: &str, b: &str) -> (r: bool)
    ensures
        r == (a@ == b@),
{
    let n = a.unicode_len();
    if n != b.unicode_len() {
        return false;
    }
    let mut i: usize = 0;
    while i < n
        invariant
            n == a@.len(),
            n == b@.len(),
            i <= n,
            forall|j: int| 0 <= j < i ==> a@[j] == b@[j],
        decreases n - i,
    {
        if a.get_char(i) != b.get_char(i) {
            return false;
        }
        i = i + 1;
    }
    assert(a@ =~= b@);
    true
}

/// A copy of a string slice.
pub fn owned(s: &str) -> (r: String)
    ensures
        r@ == s@,
{
    s.to_owned()
}

/// Decoding hexadecimal never lengthens a text.
pub proof fn lemma_hex_decode_len(s: Seq<char>)
    ensures
        spec_hex_decode(s).len() <= s.len(),
    decreases s.len(),
{
    if s.len() >= 2 {
        lemma_hex_decode_len(s.subrange(0, s.len() - 2));
    }
}

/// The bytes that a hexadecimal text denotes, two characters per byte.
pub fn hex_decode(s: &str) -> (v: Vec<u8>)
    requires
        spec_is_hex(s@),
    ensures
        v@ == spec_hex_decode(s@),
{
    let n = s.unicode_len();
    let mut v: Vec<u8> = Vec::new();
    let mut i: usize = 0;
    while i < n / 2
        invariant
            n == s@.len(),
            spec_is_hex(s@),
            i <= n / 2,
            v@ == spec_hex_decode(s@.subrange(0, 2 * i as int)),
        decreases n / 2 - i,
    {
        let hi = hex_value(s.get_char(2 * i));
        let lo = hex_value(s.get_char(2 * i + 1));
        proof {
            assert(spec_hex_value(s@[2 * i as int]) is Some);
            assert(spec_hex_value(s@[2 * i + 1]) is Some);
        }
        let hi = hi.unwrap();
        let lo = lo.unwrap();
        proof {
            let c = s@[2 * i as int];
            let d = s@[2 * i + 1];
            assert(spec_hex_value(c) == Some(hi));
            assert(spec_hex_value(d) == Some(lo));
            assert(hi < 16 && lo < 16);
            let t = s@.subrange(0, 2 * i + 2);
            assert(t.subrange(0, t.len() - 2) =~= s@.subrange(0, 2 * i as int));
            assert(t[t.len() - 2] == c);
            assert(t[t.len() - 1] == d);
        }
        v.push(hi * 16 + lo);
        i = i + 1;
    }
    assert(s@.subrange(0, 2 * i as int) =~= s@);
    v
}

/// A labelled decimal line: the label, the number, a line break.
pub open spec fn spec_line(label: Seq<char>, n: nat) -> Seq<char> {
    label + spec_decimal(n) + seq!['\n']
}

/// Appends a labelled decimal line.
pub fn push_line(s: &mut String, label: &str, n: u64)
    ensures
        final(s)@ == old(s)@ + spec_line(label@, n as nat),
{
    push_str(s, label);
    push_decimal(s, n);
    push_char(s, '\n');
    assert(final(s)@ =~= old(s)@ + spec_line(label@, n as nat));
}

} // verus!

verus! {

/// Decodes bytes as UTF-8 (std's `String::from_utf8`).
/// Trusted: it succeeds exactly when the bytes are valid UTF-8, and then the text
/// holds the characters they encode.
#[verifier::external_body]
pub fn string_from_utf8(bytes: Vec<u8>) -> (r: Option<String>)
    ensures
        r is Some <==> vstd::utf8::valid_utf8(bytes@),
        r matches Some(s) ==> s@ == vstd::utf8::decode_utf8(bytes@),
{
    String::from_utf8(bytes).ok()
}

/// The text of two bytes taken high byte first (a two-character code such as a
/// factory code, which travels low byte first).
pub open spec fn spec_code_bytes(lo: u8, hi: u8) -> Seq<u8> {
    seq![hi, lo]
}

/// Whether two bytes, high byte first, are valid UTF-8.
pub open spec fn spec_code_valid(lo: u8, hi: u8) -> bool {
    vstd::utf8::valid_utf8(spec_code_bytes(lo, hi))
}

/// Whether two bytes, high byte first, are valid UTF-8.
pub fn code_valid(lo: u8, hi: u8) -> (b: bool)
    ensures
        b == spec_code_valid(lo, hi),
{
    let mut v = Vec::new();
    v.push(hi);
    v.push(lo);
    assert(v@ =~= spec_code_bytes(lo, hi));
    string_from_utf8(v).is_some()
}

/// The two-byte code whose bytes travel low byte first, as text.
pub fn code_string(lo: u8, hi: u8) -> (s: String)
    requires
        spec_code_valid(lo, hi),
    ensures
        s@ == vstd::utf8::decode_utf8(spec_code_bytes(lo, hi)),
{
    let mut v = Vec::new();
    v.push(hi);
    v.push(lo);
    assert(v@ =~= spec_code_bytes(lo, hi));
    match string_from_utf8(v) {
        Some(s) => s,
        None => {
            assert(false);
            String::new()
        },
    }
}

} // verus!

verus! {

/// Whether every character is ASCII.
pub open spec fn spec_is_ascii(s: Seq<char>) -> bool {
    forall|i: int| 0 <= i < s.len() ==> (#[trigger] s[i] as u32) < 128
}

/// Whether every character is ASCII.
pub fn is_ascii(s: &str) -> (b: bool)
    ensures
        b == spec_is_ascii(s@),
{
    let n = s.unicode_len();
    let mut i: usize = 0;
    while i < n
        invariant
            n == s@.len(),
            i <= n,
            forall|j: int| 0 <= j < i ==> (#[trigger] s@[j] as u32) < 128,
        decreases n - i,
    {
        if s.get_char(i) as u32 >= 128 {
            return false;
        }
        i = i + 1;
    }
    true
}

/// Whether a text is hexadecimal: an even number of hexadecimal digits.
pub fn is_hex(s: &str) -> (b: bool)
    ensures
        b == spec_is_hex(s@),
{
    let n = s.unicode_len();
    if n % 2 != 0 {
        return false;
    }
    let mut i: usize = 0;
    while i < n
        invariant
            n == s@.len(),
            n % 2 == 0,
            i <= n,
            forall|j: int| 0 <= j < i ==> (#[trigger] spec_hex_value(s@[j])) is Some,
        decreases n - i,
    {
        if hex_value(s.get_char(i)).is_none() {
            return false;
        }
        i = i + 1;
    }
    true
}

/// A character that is no hexadecimal digit.
pub open spec fn not_hex_digit() -> spec_fn(char) -> bool {
    |c: char| spec_hex_value(c) is None
}

/// What decoding a hexadecimal text gives, as the `hex` crate decodes: an odd
/// length is refused first; then the first character that is no hexadecimal
/// digit is named with its position.
pub open spec fn spec_hex_decode_checked(s: Seq<char>) -> Result<Seq<u8>, crate::error::HexError> {
    if s.len() % 2 != 0 {
        Err(crate::error::HexError::OddLength)
    } else {
        match crate::service::node_config::spec_first(s, not_hex_digit()) {
            Some(i) => Err(crate::error::HexError::InvalidHexCharacter(s[i], i as usize)),
            None => Ok(spec_hex_decode(s)),
        }
    }
}

/// Decodes a hexadecimal text (see `spec_hex_decode_checked`).
pub fn hex_decode_checked(s: &str) -> (r: Result<Vec<u8>, crate::error::HexError>)
    ensures
        match spec_hex_decode_checked(s@) {
            Ok(b) => r matches Ok(v) && v@ == b,
            Err(e) => r == Err::<Vec<u8>, crate::error::HexError>(e),
        },
{
    let n = s.unicode_len();
    if n % 2 != 0 {
        return Err(crate::error::HexError::OddLength);
    }
    let ghost p = not_hex_digit();
    let mut i: usize = 0;
    while i < n
        invariant
            n == s@.len(),
            n % 2 == 0,
            i <= n,
            p == not_hex_digit(),
            forall|j: int| 0 <= j < i ==> !p(#[trigger] s@[j]),
        decreases n - i,
    {
        let c = s.get_char(i);
        if hex_value(c).is_none() {
            proof {
                assert(p(s@[i as int]));
                crate::service::node_config::lemma_first_found(s@, p, i as int);
            }
            return Err(crate::error::HexError::InvalidHexCharacter(c, i));
        }
        proof {
            assert(!p(s@[i as int]));
        }
        i = i + 1;
    }
    proof {
        crate::service::node_config::lemma_first_none(s@, p);
        assert forall|j: int| 0 <= j < s@.len() implies (#[trigger] spec_hex_value(s@[j])) is Some by {
            assert(!p(s@[j]));
        }
    }
    Ok(hex_decode(s))
}


/// A digit's character reads back as the digit.
proof fn lemma_hex_char_value(d: int, upper: bool)
    requires
        0 <= d < 16,
    ensures
        spec_hex_value(spec_hex_char(d, upper)) == Some(d as u8),
{
    let c = spec_hex_char(d, upper);
    if d < 10 {
        assert(c as int == 48 + d);
    } else if upper {
        assert(c as int == 55 + d);
    } else {
        assert(c as int == 87 + d);
    }
}

/// Two characters per byte.
proof fn lemma_hex_len(bytes: Seq<u8>, upper: bool)
    ensures
        spec_hex(bytes, upper).len() == 2 * bytes.len(),
    decreases bytes.len(),
{
    if bytes.len() > 0 {
        lemma_hex_len(bytes.drop_last(), upper);
    }
}

/// Decoding what encoding wrote gives the bytes back: the text is hexadecimal, of
/// even length, and denotes the bytes encoded.
pub proof fn law_hex_roundtrip(bytes: Seq<u8>, upper: bool)
    ensures
        spec_is_hex(spec_hex(bytes, upper)),
        spec_hex_decode(spec_hex(bytes, upper)) == bytes,
        spec_hex_decode_checked(spec_hex(bytes, upper)) == Ok::<Seq<u8>, crate::error::HexError>(bytes),
    decreases bytes.len(),
{
    let s = spec_hex(bytes, upper);
    lemma_hex_len(bytes, upper);
    if bytes.len() > 0 {
        let init = bytes.drop_last();
        let b = bytes.last();
        law_hex_roundtrip(init, upper);
        lemma_hex_len(init, upper);
        let t = spec_hex(init, upper);
        let hi = (b / 16) as int;
        let lo = (b % 16) as int;
        lemma_hex_char_value(hi, upper);
        lemma_hex_char_value(lo, upper);
        assert(s =~= t + seq![spec_hex_char(hi, upper), spec_hex_char(lo, upper)]);
        assert(s.subrange(0, s.len() - 2) =~= t);
        assert(s[s.len() - 2] == spec_hex_char(hi, upper));
        assert(s[s.len() - 1] == spec_hex_char(lo, upper));
        assert((hi * 16 + lo) as u8 == b);
        assert(spec_hex_decode(s) =~= bytes);
        assert forall|i: int| 0 <= i < s.len() implies (#[trigger] spec_hex_value(s[i])) is Some by {
            if i < t.len() {
                assert(s[i] == t[i]);
            }
        }
    } else {
        assert(spec_hex_decode(s) =~= bytes);
    }
    assert forall|j: int| 0 <= j < s.len() implies !(#[trigger] not_hex_digit()(s[j])) by {
        assert(spec_hex_value(s[j]) is Some);
    }
    crate::service::node_config::lemma_first_none(s, not_hex_digit());
}

} // verus!
