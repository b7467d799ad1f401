//! Character-level building blocks for the display strings: hexadecimal
//! and decimal digit sequences, the fixed-width padding used by the
//! block-identifier layouts, and byte/string comparison helpers.

use vstd::prelude::*;

verus! {

use vstd::string::StringSliceAdditionalSpecFns;

/// The lowercase hexadecimal digit for a value in `0..16`; digits in
/// `0..10` double as the decimal digits.
pub open spec fn hex_digit(n: int) -> char {
    if n == 0 {
        '0'
    } else if n == 1 {
        '1'
    } else if n == 2 {
        '2'
    } else if n == 3 {
        '3'
    } else if n == 4 {
        '4'
    } else if n == 5 {
        '5'
    } else if n == 6 {
        '6'
    } else if n == 7 {
        '7'
    } else if n == 8 {
        '8'
    } else if n == 9 {
        '9'
    } else if n == 10 {
        'a'
    } else if n == 11 {
        'b'
    } else if n == 12 {
        'c'
    } else if n == 13 {
        'd'
    } else if n == 14 {
        'e'
    } else {
        'f'
    }
}

/// Lowercase hexadecimal rendering of a byte sequence: two digits per
/// byte, high nibble first, no prefix.
pub open spec fn hex_seq(v: Seq<u8>) -> Seq<char> {
    Seq::new(2 * v.len(), |i: int| if i % 2 == 0 {
        hex_digit(v[i / 2] as int / 16)
    } else {
        hex_digit(v[i / 2] as int % 16)
    })
}

/// Decimal rendering of a natural number, most significant digit first,
/// no leading zeros (`0` renders as `"0"`).
pub open spec fn dec_seq(n: nat) -> Seq<char>
    decreases n,
{
    if n < 10 {
        seq![hex_digit(n as int)]
    } else {
        dec_seq(n / 10).push(hex_digit(n as int % 10))
    }
}

/// Decimal rendering of a signed integer: a leading `'-'` before the
/// digits of the magnitude when negative.
pub open spec fn signed_dec_seq(n: int) -> Seq<char> {
    if n < 0 {
        seq!['-'] + dec_seq((-n) as nat)
    } else {
        dec_seq(n as nat)
    }
}

/// Right-align into a field of width two by prepending one space when
/// the rendering is a single character.
pub open spec fn pad_width2(s: Seq<char>) -> Seq<char> {
    if s.len() < 2 {
        seq![' '] + s
    } else {
        s
    }
}

pub fn hex_digit_char(n: u8) -> (c: char)
    requires
        n < 16,
    ensures
        c == hex_digit(n as int),
{
    match n {
        0 => '0',
        1 => '1',
        2 => '2',
        3 => '3',
        4 => '4',
        5 => '5',
        6 => '6',
        7 => '7',
        8 => '8',
        9 => '9',
        10 => 'a',
        11 => 'b',
        12 => 'c',
        13 => 'd',
        14 => 'e',
        _ => 'f',
    }
}

/// Relies on `String: FromIterator<&char>`: collecting characters yields
/// the string made of exactly those characters, in order.
#[verifier::external_body]
pub(crate) fn chars_to_string(cs: &Vec<char>) -> (r: String)
    ensures
        r@ == cs@,
{
    cs.iter().collect()
}

/// Relies on `hex::encode`: two lowercase hexadecimal digits per byte,
/// high nibble first, no prefix.
#[verifier::external_body]
pub(crate) fn hex_lower(v: &[u8]) -> (r: String)
    ensures
        r@ == hex_seq(v@),
{
    hex::encode(v)
}

/// The decimal digits of `n`, as `dec_seq` describes them.
pub fn u64_decimal_chars(n: u64) -> (r: Vec<char>)
    ensures
        r@ == dec_seq(n as nat),
    decreases n,
{
    if n < 10 {
        let mut r: Vec<char> = Vec::new();
        r.push(hex_digit_char(n as u8));
        r
    } else {
        let mut r = u64_decimal_chars(n / 10);
        r.push(hex_digit_char((n % 10) as u8));
        r
    }
}

/// The decimal rendering of `n` as a string.
pub fn u64_decimal(n: u64) -> (r: String)
    ensures
        r@ == dec_seq(n as nat),
{
    let cs = u64_decimal_chars(n);
    chars_to_string(&cs)
}

/// A signed decimal rendering from an explicit sign and magnitude.
pub fn signed_decimal_chars(neg: bool, mag: u64) -> (r: Vec<char>)
    requires
        neg ==> mag > 0,
    ensures
        r@ == signed_dec_seq(if neg { -(mag as int) } else { mag as int }),
{
    let mut r: Vec<char> = Vec::new();
    if neg {
        r.push('-');
    }
    let mut digits = u64_decimal_chars(mag);
    r.append(&mut digits);
    proof {
        if neg {
            assert(r@ =~= seq!['-'] + dec_seq(mag as nat));
        } else {
            assert(r@ =~= dec_seq(mag as nat));
        }
    }
    r
}

/// The numeric value of a decimal or lowercase hexadecimal digit, or
/// `-1` for any other character.
pub open spec fn hex_char_val(c: char) -> int {
    if c == '0' {
        0
    } else if c == '1' {
        1
    } else if c == '2' {
        2
    } else if c == '3' {
        3
    } else if c == '4' {
        4
    } else if c == '5' {
        5
    } else if c == '6' {
        6
    } else if c == '7' {
        7
    } else if c == '8' {
        8
    } else if c == '9' {
        9
    } else if c == 'a' {
        10
    } else if c == 'b' {
        11
    } else if c == 'c' {
        12
    } else if c == 'd' {
        13
    } else if c == 'e' {
        14
    } else if c == 'f' {
        15
    } else {
        -1
    }
}

/// Every character is a digit `hex_char_val` accepts.
pub open spec fn all_hex_chars(s: Seq<char>) -> bool {
    forall|i: int| 0 <= i < s.len() ==> hex_char_val(s[i]) >= 0
}

/// The bytes spelled by an even-length sequence of hexadecimal digits.
pub open spec fn hex_bytes(s: Seq<char>) -> Seq<u8>
    recommends
        s.len() % 2 == 0,
        all_hex_chars(s),
{
    Seq::new(s.len() / 2, |i: int| (hex_char_val(s[2 * i]) * 16 + hex_char_val(s[2 * i + 1])) as u8)
}

/// Parsing a character sequence as lowercase hex: defined exactly on
/// even-length sequences of hexadecimal digits.
pub open spec fn hex_parse_seq(s: Seq<char>) -> Option<Seq<u8>> {
    if s.len() % 2 == 0 && all_hex_chars(s) {
        Some(hex_bytes(s))
    } else {
        None
    }
}

/// `hex_digit` and `hex_char_val` are inverse on `0..16`.
pub proof fn lemma_hex_digit_val(n: int)
    requires
        0 <= n < 16,
    ensures
        hex_char_val(hex_digit(n)) == n,
{
}

/// Hex encoding round-trips: parsing the rendering of any byte sequence
/// gives back exactly that sequence. With `hex_seq` a function of the
/// bytes alone, this pins the encoding down on both sides.
pub proof fn lemma_hex_round_trip(v: Seq<u8>)
    ensures
        hex_parse_seq(hex_seq(v)) == Some(v),
{
    let s = hex_seq(v);
    assert forall|i: int| 0 <= i < s.len() implies hex_char_val(s[i]) >= 0 by {
        if i % 2 == 0 {
            lemma_hex_digit_val(v[i / 2] as int / 16);
        } else {
            lemma_hex_digit_val(v[i / 2] as int % 16);
        }
    }
    assert forall|i: int| 0 <= i < v.len() implies hex_bytes(s)[i] == v[i] by {
        assert(s[2 * i] == hex_digit(v[i] as int / 16));
        assert(s[2 * i + 1] == hex_digit(v[i] as int % 16));
        lemma_hex_digit_val(v[i] as int / 16);
        lemma_hex_digit_val(v[i] as int % 16);
    }
    assert(hex_bytes(s) =~= v);
}

/// The digit value of one character, when it has one.
pub fn hex_char_value(c: char) -> (r: Option<u8>)
    ensures
        match r {
            Some(n) => n < 16 && hex_char_val(c) == n as int,
            None => hex_char_val(c) < 0,
        },
{
    match c {
        '0' => Some(0),
        '1' => Some(1),
        '2' => Some(2),
        '3' => Some(3),
        '4' => Some(4),
        '5' => Some(5),
        '6' => Some(6),
        '7' => Some(7),
        '8' => Some(8),
        '9' => Some(9),
        'a' => Some(10),
        'b' => Some(11),
        'c' => Some(12),
        'd' => Some(13),
        'e' => Some(14),
        'f' => Some(15),
        _ => None,
    }
}

/// Parse lowercase hex characters back into bytes, exactly as
/// `hex_parse_seq` describes.
pub fn hex_parse(s: &Vec<char>) -> (r: Option<Vec<u8>>)
    ensures
        match r {
            Some(out) => hex_parse_seq(s@) == Some(out@),
            None => hex_parse_seq(s@) is None,
        },
{
    let n: usize = s.len();
    if n % 2 != 0 {
        return None;
    }
    let mut out: Vec<u8> = Vec::new();
    let mut i: usize = 0;
    while i < n
        invariant
            n == s@.len(),
            n % 2 == 0,
            i <= n,
            i % 2 == 0,
            out@.len() == i / 2,
            forall|j: int| 0 <= j < i ==> hex_char_val(s@[j]) >= 0,
            forall|j: int|
                0 <= j < i / 2 ==> out@[j] == (hex_char_val(s@[2 * j]) * 16 + hex_char_val(
                    s@[2 * j + 1],
                )) as u8,
        decreases n - i,
    {
        let c0 = hex_char_value(s[i]);
        let c1 = hex_char_value(s[i + 1]);
        match (c0, c1) {
            (Some(a), Some(b)) => {
                out.push(a * 16 + b);
                i += 2;
            },
            (None, _) => {
                proof {
                    assert(hex_char_val(s@[i as int]) < 0);
                }
                return None;
            },
            (_, None) => {
                proof {
                    assert(hex_char_val(s@[i + 1]) < 0);
                }
                return None;
            },
        }
    }
    proof {
        assert(all_hex_chars(s@));
        assert(out@ =~= hex_bytes(s@));
    }
    Some(out)
}

/// Element-wise equality of two byte slices.
pub fn bytes_eq(a: &[u8], b: &[u8]) -> (r: bool)
    ensures
        r == (a@ == b@),
{
    if a.len() != b.len() {
        proof {
            assert(a@.len() != b@.len());
        }
        return false;
    }
    let n: usize = a.len();
    let mut i: usize = 0;
    while i < n
        invariant
            n == a@.len() && n == b@.len(),
            i <= n,
            forall|j: int| 0 <= j < i ==> a@[j] == b@[j],
        decreases n - i,
    {
        if a[i] != b[i] {
            return false;
        }
        i += 1;
    }
    proof {
        assert(a@ =~= b@);
    }
    true
}

/// Equality of two string slices, stated over their character views.
pub fn str_eq(a: &str, b: &str) -> (r: bool)
    ensures
        r == (a@ == b@),
{
    let r = bytes_eq(a.as_bytes(), b.as_bytes());
    proof {
        if a.spec_bytes() == b.spec_bytes() {
            vstd::utf8::encode_utf8_decode_utf8(a@);
            vstd::utf8::encode_utf8_decode_utf8(b@);
        }
    }
    r
}

} // verus!
