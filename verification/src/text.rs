//! Text primitives shared by the encoders and decoders: decimal numbers,
//! hexadecimal digits, percent-escapes and byte-wise string comparison.
//!
//! Strings are read through their UTF-8 bytes and written one character at a
//! time; every function here states its result over `Seq<char>` and `Seq<u8>`.

use vstd::prelude::*;
use vstd::string::*;
use vstd::utf8::*;

verus! {

/// Appends one character to a string.
///
/// Trusted: `String::push` of the standard library, which appends the given
/// character to the end of the string and changes nothing else.
#[verifier::external_body]
pub(crate) fn push_char(out: &mut String, c: char)
    ensures
        final(out)@ == old(out)@.push(c),
{
    out.push(c)
}

/// The character of a decimal digit.
pub open spec fn digit_char(d: int) -> char
    recommends
        0 <= d < 10,
{
    ((48 + d) as u8) as char
}

/// The decimal text of a natural number, without sign or leading zeros.
pub open spec fn decimal_text(n: nat) -> Seq<char>
    decreases n,
{
    if n < 10 {
        seq![digit_char(n as int)]
    } else {
        decimal_text(n / 10).push(digit_char((n % 10) as int))
    }
}

/// The decimal text of an integer: a minus sign before a negative one.
pub open spec fn signed_decimal_text(n: int) -> Seq<char> {
    if n < 0 {
        seq!['-'] + decimal_text((-n) as nat)
    } else {
        decimal_text(n as nat)
    }
}

/// Appends the decimal text of `n`.
pub fn push_u64(out: &mut String, n: u64)
    ensures
        final(out)@ == old(out)@ + decimal_text(n as nat),
    decreases n,
{
    if n >= 10 {
        push_u64(out, n / 10);
    }
    let d: u8 = (n % 10) as u8;
    push_char(out, (48 + d) as char);
    assert(out@ =~= old(out)@ + decimal_text(n as nat));
}

/// Appends the decimal text of a signed integer.
pub fn push_i64(out: &mut String, n: i64)
    ensures
        final(out)@ == old(out)@ + signed_decimal_text(n as int),
{
    if n < 0 {
        push_char(out, '-');
        let magnitude: u64 = ((-(n + 1)) as u64) + 1;
        push_u64(out, magnitude);
        assert(out@ =~= old(out)@ + signed_decimal_text(n as int));
    } else {
        push_u64(out, n as u64);
    }
}

/// The decimal text of `n` as a string of its own.
pub fn u64_to_string(n: u64) -> (s: String)
    ensures
        s@ == decimal_text(n as nat),
{
    let mut s = String::new();
    push_u64(&mut s, n);
    assert(s@ =~= decimal_text(n as nat));
    s
}

/// The decimal text of a signed integer as a string of its own.
pub fn i64_to_string(n: i64) -> (s: String)
    ensures
        s@ == signed_decimal_text(n as int),
{
    let mut s = String::new();
    push_i64(&mut s, n);
    assert(s@ =~= signed_decimal_text(n as int));
    s
}

/// `true` or `false`, spelled out.
pub open spec fn bool_text(b: bool) -> Seq<char> {
    if b {
        "true"@
    } else {
        "false"@
    }
}

/// The text of a boolean as a string of its own.
pub fn bool_to_string(b: bool) -> (s: String)
    ensures
        s@ == bool_text(b),
{
    if b {
        String::from_str("true")
    } else {
        String::from_str("false")
    }
}

/// The lower-case hexadecimal digit of a value below sixteen.
pub open spec fn lower_hex_digit(n: int) -> char
    recommends
        0 <= n < 16,
{
    if n < 10 {
        ((48 + n) as u8) as char
    } else {
        ((87 + n) as u8) as char
    }
}

/// The upper-case hexadecimal digit of a value below sixteen.
pub open spec fn upper_hex_digit(n: int) -> char
    recommends
        0 <= n < 16,
{
    if n < 10 {
        ((48 + n) as u8) as char
    } else {
        ((55 + n) as u8) as char
    }
}

/// Lower-case hexadecimal text of a byte string: two digits per byte, the
/// high half first.
pub open spec fn lower_hex_text(bytes: Seq<u8>) -> Seq<char>
    decreases bytes.len(),
{
    if bytes.len() == 0 {
        Seq::empty()
    } else {
        lower_hex_text(bytes.drop_last()).push(lower_hex_digit(bytes.last() as int / 16)).push(
            lower_hex_digit(bytes.last() as int % 16),
        )
    }
}

/// The hexadecimal text of `n` bytes is `2 * n` characters long.
pub proof fn lemma_lower_hex_len(bytes: Seq<u8>)
    ensures
        lower_hex_text(bytes).len() == 2 * bytes.len(),
    decreases bytes.len(),
{
    if bytes.len() > 0 {
        lemma_lower_hex_len(bytes.drop_last());
    }
}

/// Whether a byte of a name or a value is written as a percent-escape in a
/// query string: control bytes, bytes outside ASCII, and the characters that
/// a query string gives a meaning of its own.
pub open spec fn is_escaped_byte(b: u8) -> bool {
    b < 0x20 || b >= 0x7f || b == 0x22 || b == 0x23 || b == 0x3c || b == 0x3e || b == 0x25 || b
        == 0x2b || b == 0x5b || b == 0x5d || b == 0x3d || b == 0x26
}

/// What one byte of a name or a value becomes in a query string: `+` for a
/// space, `%` and two upper-case hexadecimal digits for an escaped byte, and
/// the byte itself otherwise.
pub open spec fn query_byte_text(b: u8) -> Seq<char> {
    if b == 0x20 {
        seq!['+']
    } else if is_escaped_byte(b) {
        seq!['%', upper_hex_digit(b as int / 16), upper_hex_digit(b as int % 16)]
    } else {
        seq![b as char]
    }
}

/// A byte string as it stands in a query string, byte by byte.
pub open spec fn query_escaped(bytes: Seq<u8>) -> Seq<char>
    decreases bytes.len(),
{
    if bytes.len() == 0 {
        Seq::empty()
    } else {
        query_escaped(bytes.drop_last()) + query_byte_text(bytes.last())
    }
}

/// A text as it stands in a query string: its UTF-8 bytes, escaped.
pub open spec fn query_escaped_text(text: Seq<char>) -> Seq<char> {
    query_escaped(encode_utf8(text))
}

fn is_escaped(b: u8) -> (r: bool)
    ensures
        r == is_escaped_byte(b),
{
    b < 0x20 || b >= 0x7f || b == 0x22 || b == 0x23 || b == 0x3c || b == 0x3e || b == 0x25 || b
        == 0x2b || b == 0x5b || b == 0x5d || b == 0x3d || b == 0x26
}

fn upper_hex(n: u8) -> (c: char)
    requires
        n < 16,
    ensures
        c == upper_hex_digit(n as int),
{
    if n < 10 {
        (48 + n) as char
    } else {
        (55 + n) as char
    }
}

/// Appends `text` as it stands in a query string.
pub fn push_query_escaped(out: &mut String, text: &str)
    ensures
        final(out)@ == old(out)@ + query_escaped_text(text@),
{
    let bytes = text.as_bytes();
    let n: usize = bytes.len();
    let mut i: usize = 0;
    assert(bytes@.subrange(0, 0) =~= Seq::<u8>::empty());
    assert(out@ =~= old(out)@ + query_escaped(bytes@.subrange(0, 0)));
    while i < n
        invariant
            n == bytes@.len(),
            i <= n,
            out@ == old(out)@ + query_escaped(bytes@.subrange(0, i as int)),
        decreases n - i,
    {
        let b: u8 = bytes[i];
        let ghost before = out@;
        if b == 0x20 {
            push_char(out, '+');
        } else if is_escaped(b) {
            push_char(out, '%');
            push_char(out, upper_hex(b / 16));
            push_char(out, upper_hex(b % 16));
        } else {
            push_char(out, b as char);
        }
        proof {
            let prefix = bytes@.subrange(0, i as int + 1);
            assert(prefix.drop_last() =~= bytes@.subrange(0, i as int));
            assert(prefix.last() == b);
            assert(out@ =~= before + query_byte_text(b));
            assert(out@ =~= old(out)@ + query_escaped(prefix));
        }
        i = i + 1;
    }
    assert(bytes@.subrange(0, n as int) =~= bytes@);
}

/// A query string with one more parameter: `name=value`, the value escaped,
/// behind `&` where the query already holds something.
pub open spec fn with_pair(query: Seq<char>, name: Seq<char>, value: Seq<char>) -> Seq<char> {
    if query.len() == 0 {
        name + seq!['='] + query_escaped_text(value)
    } else {
        query + seq!['&'] + name + seq!['='] + query_escaped_text(value)
    }
}

/// A query string with one more parameter where there is a value, and
/// unchanged where there is none: a parameter without a value is left out.
pub open spec fn with_optional_pair(
    query: Seq<char>,
    name: Seq<char>,
    value: Option<Seq<char>>,
) -> Seq<char> {
    match value {
        Some(v) => with_pair(query, name, v),
        None => query,
    }
}

/// Appends the parameter `name=value` to a query string.
pub fn push_pair(out: &mut String, name: &str, value: &str)
    ensures
        final(out)@ == with_pair(old(out)@, name@, value@),
{
    if !out.as_str().is_empty() {
        push_char(out, '&');
    }
    out.append(name);
    push_char(out, '=');
    push_query_escaped(out, value);
    assert(out@ =~= with_pair(old(out)@, name@, value@));
}

/// Appends the parameter `name=value` where there is a value.
pub fn push_optional_pair(out: &mut String, name: &str, value: &Option<String>)
    ensures
        final(out)@ == with_optional_pair(
            old(out)@,
            name@,
            match *value {
                Some(v) => Some(v@),
                None => None,
            },
        ),
{
    match value {
        Some(v) => push_pair(out, name, v.as_str()),
        None => {},
    }
}

/// Appends a parameter whose value is an unsigned number.
pub fn push_u64_pair(out: &mut String, name: &str, value: u64)
    ensures
        final(out)@ == with_pair(old(out)@, name@, decimal_text(value as nat)),
{
    let text = u64_to_string(value);
    push_pair(out, name, text.as_str());
}

/// Appends a parameter whose value is a signed number.
pub fn push_i64_pair(out: &mut String, name: &str, value: i64)
    ensures
        final(out)@ == with_pair(old(out)@, name@, signed_decimal_text(value as int)),
{
    let text = i64_to_string(value);
    push_pair(out, name, text.as_str());
}

/// The decimal text of an optional unsigned number.
pub open spec fn optional_decimal(value: Option<u64>) -> Option<Seq<char>> {
    match value {
        Some(n) => Some(decimal_text(n as nat)),
        None => None,
    }
}

/// The decimal text of an optional signed number.
pub open spec fn optional_signed_decimal(value: Option<i64>) -> Option<Seq<char>> {
    match value {
        Some(n) => Some(signed_decimal_text(n as int)),
        None => None,
    }
}

/// The text of an optional boolean.
pub open spec fn optional_bool_text(value: Option<bool>) -> Option<Seq<char>> {
    match value {
        Some(b) => Some(bool_text(b)),
        None => None,
    }
}

/// Appends a parameter whose value is an unsigned number, where there is one.
pub fn push_optional_u64_pair(out: &mut String, name: &str, value: Option<u64>)
    ensures
        final(out)@ == with_optional_pair(old(out)@, name@, optional_decimal(value)),
{
    match value {
        Some(n) => push_u64_pair(out, name, n),
        None => {},
    }
}

/// Appends a parameter whose value is a signed number, where there is one.
pub fn push_optional_i64_pair(out: &mut String, name: &str, value: Option<i64>)
    ensures
        final(out)@ == with_optional_pair(old(out)@, name@, optional_signed_decimal(value)),
{
    match value {
        Some(n) => push_i64_pair(out, name, n),
        None => {},
    }
}

/// Appends a parameter whose value is a boolean, where there is one.
pub fn push_optional_bool_pair(out: &mut String, name: &str, value: Option<bool>)
    ensures
        final(out)@ == with_optional_pair(old(out)@, name@, optional_bool_text(value)),
{
    match value {
        Some(b) => {
            let text = bool_to_string(b);
            push_pair(out, name, text.as_str());
        },
        None => {},
    }
}

/// The decimal text of an optional 32-bit signed number.
pub open spec fn optional_small_signed_decimal(value: Option<i32>) -> Option<Seq<char>> {
    match value {
        Some(n) => Some(signed_decimal_text(n as int)),
        None => None,
    }
}

/// The decimal text of an optional 16-bit unsigned number.
pub open spec fn optional_u16_decimal(value: Option<u16>) -> Option<Seq<char>> {
    match value {
        Some(n) => Some(decimal_text(n as nat)),
        None => None,
    }
}

/// The decimal text of an optional 32-bit unsigned number.
pub open spec fn optional_u32_decimal(value: Option<u32>) -> Option<Seq<char>> {
    match value {
        Some(n) => Some(decimal_text(n as nat)),
        None => None,
    }
}

/// Appends a parameter whose value is a 32-bit signed number, where there
/// is one.
pub fn push_optional_i32_pair(out: &mut String, name: &str, value: Option<i32>)
    ensures
        final(out)@ == with_optional_pair(old(out)@, name@, optional_small_signed_decimal(value)),
{
    match value {
        Some(n) => push_i64_pair(out, name, n as i64),
        None => {},
    }
}

/// Appends a parameter whose value is a 16-bit unsigned number, where there
/// is one.
pub fn push_optional_u16_pair(out: &mut String, name: &str, value: Option<u16>)
    ensures
        final(out)@ == with_optional_pair(old(out)@, name@, optional_u16_decimal(value)),
{
    match value {
        Some(n) => push_u64_pair(out, name, n as u64),
        None => {},
    }
}

/// Appends a parameter whose value is a 32-bit unsigned number, where there
/// is one.
pub fn push_optional_u32_pair(out: &mut String, name: &str, value: Option<u32>)
    ensures
        final(out)@ == with_optional_pair(old(out)@, name@, optional_u32_decimal(value)),
{
    match value {
        Some(n) => push_u64_pair(out, name, n as u64),
        None => {},
    }
}

/// Whether two strings hold the same characters.
pub fn str_eq(a: &str, b: &str) -> (r: bool)
    ensures
        r == (a@ == b@),
{
    let x = a.as_bytes();
    let y = b.as_bytes();
    proof {
        encode_utf8_decode_utf8(a@);
        encode_utf8_decode_utf8(b@);
    }
    if x.len() != y.len() {
        return false;
    }
    let n: usize = x.len();
    let mut i: usize = 0;
    while i < n
        invariant
            n == x@.len(),
            n == y@.len(),
            x@ == encode_utf8(a@),
            y@ == encode_utf8(b@),
            i <= n,
            forall|k: int| 0 <= k < i ==> x@[k] == y@[k],
        decreases n - i,
    {
        if x[i] != y[i] {
            return false;
        }
        i = i + 1;
    }
    assert(x@ =~= y@);
    true
}

} // verus!
