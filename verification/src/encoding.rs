//! Verified text encodings the read API relies on: lowercase hex for
//! hashes, commitments and proofs, and decimal parsing for heights.
use vstd::prelude::*;
use vstd::string::StringSliceAdditionalSpecFns;

verus! {

/// Is `c` a decimal digit?
pub open spec fn is_dec_digit(c: char) -> bool {
    '0' <= c && c <= '9'
}

/// Is `c` a hexadecimal digit, either case?
pub open spec fn is_hex_digit(c: char) -> bool {
    ('0' <= c && c <= '9') || ('a' <= c && c <= 'f') || ('A' <= c && c <= 'F')
}

/// The numeric value of one hexadecimal digit.
pub open spec fn hex_digit_val(c: char) -> int {
    if '0' <= c && c <= '9' {
        c as int - '0' as int
    } else if 'a' <= c && c <= 'f' {
        c as int - 'a' as int + 10
    } else {
        c as int - 'A' as int + 10
    }
}

/// The lowercase hexadecimal digit for a value below sixteen.
pub open spec fn hex_lower_char(v: int) -> char {
    if v == 0 {
        '0'
    } else if v == 1 {
        '1'
    } else if v == 2 {
        '2'
    } else if v == 3 {
        '3'
    } else if v == 4 {
        '4'
    } else if v == 5 {
        '5'
    } else if v == 6 {
        '6'
    } else if v == 7 {
        '7'
    } else if v == 8 {
        '8'
    } else if v == 9 {
        '9'
    } else if v == 10 {
        'a'
    } else if v == 11 {
        'b'
    } else if v == 12 {
        'c'
    } else if v == 13 {
        'd'
    } else if v == 14 {
        'e'
    } else {
        'f'
    }
}

/// The lowercase hexadecimal rendering of a byte string: two digits per
/// byte, high nibble first.
pub open spec fn hex_of(bytes: Seq<u8>) -> Seq<char> {
    Seq::new(
        bytes.len() * 2,
        |i: int|
            if i % 2 == 0 {
                hex_lower_char(bytes[i / 2] as int / 16)
            } else {
                hex_lower_char(bytes[i / 2] as int % 16)
            },
    )
}

/// Whether `s` is a well-formed hexadecimal string: an even number of
/// hex digits.
pub open spec fn is_hex_string(s: Seq<char>) -> bool {
    &&& s.len() % 2 == 0
    &&& forall|i: int| 0 <= i < s.len() ==> is_hex_digit(#[trigger] s[i])
}

/// The bytes a well-formed hexadecimal string denotes.
pub open spec fn bytes_of_hex(s: Seq<char>) -> Seq<u8> {
    Seq::new(s.len() / 2, |i: int| (hex_digit_val(s[2 * i]) * 16 + hex_digit_val(s[2 * i + 1])) as u8)
}

fn hex_nibble_str(v: u8) -> (r: &'static str)
    requires
        v < 16,
    ensures
        r@ =~= seq![hex_lower_char(v as int)],
{
    proof {
        reveal_strlit("0");
        reveal_strlit("1");
        reveal_strlit("2");
        reveal_strlit("3");
        reveal_strlit("4");
        reveal_strlit("5");
        reveal_strlit("6");
        reveal_strlit("7");
        reveal_strlit("8");
        reveal_strlit("9");
        reveal_strlit("a");
        reveal_strlit("b");
        reveal_strlit("c");
        reveal_strlit("d");
        reveal_strlit("e");
        reveal_strlit("f");
    }
    match v {
        0 => "0",
        1 => "1",
        2 => "2",
        3 => "3",
        4 => "4",
        5 => "5",
        6 => "6",
        7 => "7",
        8 => "8",
        9 => "9",
        10 => "a",
        11 => "b",
        12 => "c",
        13 => "d",
        14 => "e",
        _ => "f",
    }
}

/// Encode a byte string as lowercase hexadecimal, two digits per byte.
pub fn to_hex(bytes: &[u8]) -> (r: String)
    ensures
        r@ == hex_of(bytes@),
{
    let mut out = String::new();
    let mut i: usize = 0;
    while i < bytes.len()
        invariant
            i <= bytes@.len(),
            out@ =~= hex_of(bytes@.take(i as int)),
        decreases bytes@.len() - i,
    {
        let b: u8 = bytes[i];
        out.append(hex_nibble_str(b / 16));
        out.append(hex_nibble_str(b % 16));
        i = i + 1;
        proof {
            assert(out@ =~= hex_of(bytes@.take(i as int)));
        }
    }
    proof {
        assert(bytes@.take(bytes@.len() as int) =~= bytes@);
    }
    out
}

/// Decode a hexadecimal string, either case, into its bytes. Returns
/// `None` exactly when the string has odd length or holds a character
/// that is no hex digit.
pub fn from_hex(s: &str) -> (r: Option<Vec<u8>>)
    ensures
        r is Some <==> is_hex_string(s@),
        r is Some ==> r->Some_0@ == bytes_of_hex(s@),
{
    if !s.is_ascii() {
        proof {
            let i = choose|i: int|
                0 <= i < s@.len() && !('\0' <= #[trigger] s@[i] <= '\u{7f}');
            assert(!is_hex_digit(s@[i]));
        }
        return None;
    }
    let len: usize = s.as_bytes().len();
    proof {
        vstd::string::is_ascii_spec_bytes(s);
    }
    if len % 2 != 0 {
        return None;
    }
    let mut out: Vec<u8> = Vec::new();
    let mut k: usize = 0;
    while k < len / 2
        invariant
            s.is_ascii(),
            len == s@.len(),
            len % 2 == 0,
            k <= len / 2,
            forall|i: int| 0 <= i < 2 * k ==> is_hex_digit(#[trigger] s@[i]),
            out@ =~= bytes_of_hex(s@.take(2 * k as int)),
        decreases len / 2 - k,
    {
        let bh: u8 = s.get_ascii(2 * k);
        let bl: u8 = s.get_ascii(2 * k + 1);
        let hi: u8 = match hex_val_of_byte(bh) {
            Some(v) => v,
            None => {
                proof {
                    assert(s@[2 * k as int] as u8 == bh);
                    assert(!is_hex_digit(s@[2 * k as int]));
                }
                return None;
            },
        };
        let lo: u8 = match hex_val_of_byte(bl) {
            Some(v) => v,
            None => {
                proof {
                    assert(s@[2 * k as int + 1] as u8 == bl);
                    assert(!is_hex_digit(s@[2 * k as int + 1]));
                }
                return None;
            },
        };
        out.push(hi * 16 + lo);
        k = k + 1;
        proof {
            assert(out@ =~= bytes_of_hex(s@.take(2 * k as int)));
        }
    }
    proof {
        assert(s@.take(s@.len() as int) =~= s@);
    }
    Some(out)
}

/// The hex value of one ASCII byte, `None` when the byte is no hex
/// digit. The contract speaks of the character the byte stands for.
fn hex_val_of_byte(b: u8) -> (r: Option<u8>)
    ensures
        r is Some ==> r->Some_0 < 16,
        forall|c: char|
            c as u8 == b && '\0' <= c <= '\u{7f}' ==> {
                &&& (r is Some <==> is_hex_digit(c))
                &&& (r is Some ==> r->Some_0 == hex_digit_val(c))
            },
{
    if 0x30 <= b && b <= 0x39 {
        Some(b - 0x30)
    } else if 0x61 <= b && b <= 0x66 {
        Some(b - 0x61 + 10)
    } else if 0x41 <= b && b <= 0x46 {
        Some(b - 0x41 + 10)
    } else {
        None
    }
}

/// Hex encoding then decoding gives the bytes back: the decode
/// direction of the hex round trip.
pub proof fn lemma_hex_round_trip(bytes: Seq<u8>)
    ensures
        is_hex_string(hex_of(bytes)),
        bytes_of_hex(hex_of(bytes)) =~= bytes,
{
    let s = hex_of(bytes);
    assert forall|i: int| 0 <= i < s.len() implies is_hex_digit(#[trigger] s[i]) by {
        let b = bytes[i / 2] as int;
        assert(0 <= b / 16 < 16);
        assert(0 <= b % 16 < 16);
    }
    assert forall|i: int| 0 <= i < bytes.len() implies bytes_of_hex(s)[i] == bytes[i] by {
        let b = bytes[i] as int;
        assert(s[2 * i] == hex_lower_char(b / 16));
        assert(s[2 * i + 1] == hex_lower_char(b % 16));
        assert(0 <= b / 16 < 16);
        assert(0 <= b % 16 < 16);
        assert(hex_digit_val(hex_lower_char(b / 16)) == b / 16);
        assert(hex_digit_val(hex_lower_char(b % 16)) == b % 16);
        assert(b == (b / 16) * 16 + b % 16);
    }
}

/// The numeric value of a digit string, most significant digit first.
pub open spec fn dec_value(s: Seq<char>) -> int
    decreases s.len(),
{
    if s.len() == 0 {
        0
    } else {
        dec_value(s.drop_last()) * 10 + (s.last() as int - '0' as int)
    }
}

/// The digit part of a decimal literal: everything after one optional
/// leading plus sign.
pub open spec fn dec_digits_part(s: Seq<char>) -> Seq<char> {
    if s.len() > 0 && s[0] == '+' {
        s.skip(1)
    } else {
        s
    }
}

/// Whether `s` is a decimal literal: an optional plus sign, then at
/// least one digit and nothing else.
pub open spec fn is_dec_string(s: Seq<char>) -> bool {
    &&& dec_digits_part(s).len() > 0
    &&& forall|i: int|
        0 <= i < dec_digits_part(s).len() ==> is_dec_digit(#[trigger] dec_digits_part(s)[i])
}

proof fn lemma_dec_value_nonneg(s: Seq<char>)
    requires
        forall|i: int| 0 <= i < s.len() ==> is_dec_digit(#[trigger] s[i]),
    ensures
        dec_value(s) >= 0,
    decreases s.len(),
{
    if s.len() > 0 {
        lemma_dec_value_nonneg(s.drop_last());
    }
}

proof fn lemma_dec_value_prefix(s: Seq<char>, m: int)
    requires
        0 <= m <= s.len(),
        forall|i: int| 0 <= i < s.len() ==> is_dec_digit(#[trigger] s[i]),
    ensures
        dec_value(s.take(m)) <= dec_value(s),
    decreases s.len() - m,
{
    if m < s.len() {
        let t = s.take(m + 1);
        assert(t.drop_last() =~= s.take(m));
        lemma_dec_value_nonneg(s.take(m));
        assert(dec_value(t) == dec_value(s.take(m)) * 10 + (t.last() as int - '0' as int));
        lemma_dec_value_prefix(s, m + 1);
        assert(s.take(s.len() as int) =~= s);
    } else {
        assert(s.take(m) =~= s);
    }
}

/// Parse a decimal literal as an unsigned 64-bit number, as heights in
/// queries are written. Returns `None` exactly when the string is no
/// decimal literal or its value does not fit.
pub fn parse_u64(s: &str) -> (r: Option<u64>)
    ensures
        r is Some <==> is_dec_string(s@) && dec_value(dec_digits_part(s@)) <= u64::MAX,
        r is Some ==> r->Some_0 == dec_value(dec_digits_part(s@)),
{
    if !s.is_ascii() {
        proof {
            let i = choose|i: int|
                0 <= i < s@.len() && !('\0' <= #[trigger] s@[i] <= '\u{7f}');
            let d = dec_digits_part(s@);
            if s@.len() > 0 && s@[0] == '+' {
                if i >= 1 {
                    assert(d[i - 1] == s@[i]);
                    assert(!is_dec_digit(d[i - 1]));
                }
            } else {
                assert(!is_dec_digit(d[i]));
            }
        }
        return None;
    }
    let len: usize = s.as_bytes().len();
    proof {
        vstd::string::is_ascii_spec_bytes(s);
    }
    if len == 0 {
        return None;
    }
    let start: usize = if s.get_ascii(0) == 0x2b {
        1
    } else {
        0
    };
    proof {
        if start == 1 {
            assert(s@[0] == '+');
            assert(dec_digits_part(s@) =~= s@.skip(1));
        } else {
            assert(s@[0] != '+');
            assert(dec_digits_part(s@) =~= s@);
        }
    }
    let ghost d = dec_digits_part(s@);
    if len == start {
        return None;
    }
    let mut acc: u64 = 0;
    let mut k: usize = start;
    while k < len
        invariant
            s.is_ascii(),
            len == s@.len(),
            start <= k <= len,
            start == 0 || start == 1,
            start == 1 ==> s@[0] == '+',
            d == dec_digits_part(s@),
            d =~= s@.skip(start as int),
            forall|i: int| 0 <= i < k - start ==> is_dec_digit(#[trigger] d[i]),
            acc == dec_value(d.take(k - start as int)),
        decreases len - k,
    {
        let b: u8 = s.get_ascii(k);
        if b < 0x30 || b > 0x39 {
            proof {
                assert(d[k - start] == s@[k as int]);
                assert(!is_dec_digit(d[k - start]));
            }
            return None;
        }
        let digit: u64 = (b - 0x30) as u64;
        proof {
            assert(d[k - start] == s@[k as int]);
            assert(is_dec_digit(d[k - start]));
            assert(d.take(k + 1 - start as int).drop_last() =~= d.take(k - start as int));
        }
        let next = match acc.checked_mul(10) {
            Some(v) => v.checked_add(digit),
            None => None,
        };
        match next {
            Some(v) => {
                acc = v;
                proof {
                    assert(digit == d.take(k + 1 - start as int).last() as int - '0' as int);
                }
            },
            None => {
                proof {
                    assert(dec_value(d.take(k + 1 - start as int)) > u64::MAX);
                    if forall|i: int| 0 <= i < d.len() ==> is_dec_digit(#[trigger] d[i]) {
                        lemma_dec_value_prefix(d, k + 1 - start as int);
                    }
                }
                return None;
            },
        }
        k = k + 1;
    }
    proof {
        assert(d.take(d.len() as int) =~= d);
    }
    Some(acc)
}

/// The decimal rendering of a non-negative number, most significant
/// digit first, without leading zeros (a lone zero for zero itself).
pub open spec fn dec_string_of(n: int) -> Seq<char>
    decreases n,
{
    if n < 10 {
        seq![hex_lower_char(n)]
    } else {
        dec_string_of(n / 10).push(hex_lower_char(n % 10))
    }
}

/// Render a number in decimal.
pub fn u64_to_string(n: u64) -> (r: String)
    ensures
        r@ == dec_string_of(n as int),
    decreases n,
{
    if n < 10 {
        let r = hex_nibble_str(n as u8).to_owned();
        proof {
            assert(r@ =~= dec_string_of(n as int));
        }
        r
    } else {
        let mut s = u64_to_string(n / 10);
        s.append(hex_nibble_str((n % 10) as u8));
        proof {
            assert(s@ =~= dec_string_of(n as int));
        }
        s
    }
}

/// Copy a byte string.
pub fn bytes_clone(v: &[u8]) -> (r: Vec<u8>)
    ensures
        r@ == v@,
{
    let mut out: Vec<u8> = Vec::new();
    let mut i: usize = 0;
    while i < v.len()
        invariant
            i <= v@.len(),
            out@ =~= v@.take(i as int),
        decreases v@.len() - i,
    {
        out.push(v[i]);
        i = i + 1;
    }
    proof {
        assert(v@.take(v@.len() as int) =~= v@);
    }
    out
}

/// Compare two strings for equality.
pub fn str_eq(a: &str, b: &str) -> (r: bool)
    ensures
        r <==> a@ == b@,
{
    let r = bytes_eq(a.as_bytes(), b.as_bytes());
    proof {
        vstd::utf8::encode_utf8_decode_utf8(a@);
        vstd::utf8::encode_utf8_decode_utf8(b@);
        if a.spec_bytes() == b.spec_bytes() {
            assert(vstd::utf8::decode_utf8(a.spec_bytes()) == vstd::utf8::decode_utf8(
                b.spec_bytes(),
            ));
        } else {
            if a@ == b@ {
                assert(a.spec_bytes() =~= b.spec_bytes());
            }
        }
    }
    r
}

/// Compare two byte strings for equality.
pub fn bytes_eq(a: &[u8], b: &[u8]) -> (r: bool)
    ensures
        r <==> a@ == b@,
{
    if a.len() != b.len() {
        return false;
    }
    let mut i: usize = 0;
    while i < a.len()
        invariant
            a@.len() == b@.len(),
            i <= a@.len(),
            forall|j: int| 0 <= j < i ==> a@[j] == b@[j],
        decreases a@.len() - i,
    {
        if a[i] != b[i] {
            return false;
        }
        i = i + 1;
    }
    proof {
        assert(a@ =~= b@);
    }
    true
}

} // verus!
