use vstd::prelude::*;
use vstd::string::StringExecFns;
use crate::error::ProofError;

verus! {

/// True for an ASCII hexadecimal digit, either case.
pub open spec fn is_hex_digit(c: char) -> bool {
    ('0' <= c && c <= '9') || ('a' <= c && c <= 'f') || ('A' <= c && c <= 'F')
}

/// True for a digit that lowercase hexadecimal encoding emits.
pub open spec fn is_lower_hex_digit(c: char) -> bool {
    ('0' <= c && c <= '9') || ('a' <= c && c <= 'f')
}

/// Numeric value of a hexadecimal digit.
pub open spec fn hex_digit_val(c: char) -> u8
    recommends
        is_hex_digit(c),
{
    if '0' <= c && c <= '9' {
        ((c as u8) - ('0' as u8)) as u8
    } else if 'a' <= c && c <= 'f' {
        ((c as u8) - ('a' as u8) + 10) as u8
    } else {
        ((c as u8) - ('A' as u8) + 10) as u8
    }
}

/// The lowercase digit for a value below sixteen.
pub open spec fn digit_char(v: u8) -> char
    recommends
        v < 16,
{
    if v < 10 {
        ((('0' as u8) + v) as u8) as char
    } else {
        ((('a' as u8) + (v - 10)) as u8) as char
    }
}

/// A well-formed hexadecimal string: even length, hexadecimal digits only.
pub open spec fn is_hex_str(s: Seq<char>) -> bool {
    s.len() % 2 == 0 && (forall|i: int| 0 <= i < s.len() ==> is_hex_digit(#[trigger] s[i]))
}

/// Byte number `i` of the decoding of `s`: two digits, high first.
pub open spec fn hex_byte_at(s: Seq<char>, i: int) -> u8
    recommends
        0 <= i < s.len() / 2,
{
    (hex_digit_val(s[2 * i]) * 16 + hex_digit_val(s[2 * i + 1])) as u8
}

/// The bytes a well-formed hexadecimal string decodes to.
pub open spec fn hex_decoded(s: Seq<char>) -> Seq<u8> {
    Seq::new(s.len() / 2, |i: int| hex_byte_at(s, i))
}

/// The lowercase hexadecimal encoding of a byte sequence.
pub open spec fn hex_encoded(b: Seq<u8>) -> Seq<char> {
    Seq::new(
        2 * b.len(),
        |i: int|
            if i % 2 == 0 {
                digit_char(b[i / 2] / 16)
            } else {
                digit_char(b[i / 2] % 16)
            },
    )
}

/// Relies on `hex::decode`: returns the decoded bytes of a hexadecimal
/// string, and fails exactly on an odd length or a non-hexadecimal character;
/// it never substitutes a default value for malformed text.
///
/// The callee reads the string's UTF-8 bytes, this contract speaks of its
/// characters; the two coincide because a string of hexadecimal digits is
/// ASCII, and a non-ASCII character encodes to bytes the callee rejects.
#[verifier::external_body]
fn hex_decode_raw(s: &str) -> (r: Option<Vec<u8>>)
    ensures
        r is Some <==> is_hex_str(s@),
        r matches Some(v) ==> v@ == hex_decoded(s@),
{
    match hex::decode(s) {
        Ok(v) => Some(v),
        Err(_) => None,
    }
}

/// The one-character string for a digit value below sixteen.
fn digit_str(v: u8) -> (r: &'static str)
    requires
        v < 16,
    ensures
        r@ =~= seq![digit_char(v)],
{
    proof {
        reveal_strlit("0");
        reveal_strlit("1");
        reveal_strlit("2");
        reveal_strlit("3");
        reveal_strlit("4");
        reveal_strlit("5");
        reveal_strlit("6");
        reveal_strlit("7");
        reveal_strlit("8");
        reveal_strlit("9");
        reveal_strlit("a");
        reveal_strlit("b");
        reveal_strlit("c");
        reveal_strlit("d");
        reveal_strlit("e");
        reveal_strlit("f");
    }
    match v {
        0 => "0",
        1 => "1",
        2 => "2",
        3 => "3",
        4 => "4",
        5 => "5",
        6 => "6",
        7 => "7",
        8 => "8",
        9 => "9",
        10 => "a",
        11 => "b",
        12 => "c",
        13 => "d",
        14 => "e",
        _ => "f",
    }
}

/// Lowercase hexadecimal encoding, two digits per byte.
pub fn bytes_to_hex(b: &Vec<u8>) -> (r: String)
    ensures
        r@ == hex_encoded(b@),
{
    let mut s = String::new();
    let mut i: usize = 0;
    while i < b.len()
        invariant
            i <= b@.len(),
            s@ =~= hex_encoded(b@).take(2 * i as int),
        decreases b@.len() - i,
    {
        let byte = b[i];
        let hi = byte / 16;
        let lo = byte % 16;
        s.append(digit_str(hi));
        s.append(digit_str(lo));
        proof {
            assert(s@ =~= hex_encoded(b@).take(2 * (i + 1) as int));
        }
        i += 1;
    }
    proof {
        assert(hex_encoded(b@).take(2 * b@.len() as int) =~= hex_encoded(b@));
    }
    s
}

/// Decodes a 32-byte hash from hexadecimal request text.
///
/// Succeeds exactly on a 64-character hexadecimal string; malformed or
/// wrongly sized text is rejected, never replaced by a default value.
pub fn parse_hash(input: &str) -> (r: Result<Vec<u8>, ProofError>)
    ensures
        r is Ok <==> (is_hex_str(input@) && input@.len() == 64),
        r matches Ok(v) ==> v@ == hex_decoded(input@) && v@.len() == 32,
        r matches Err(e) ==> e == ProofError::InvalidInput,
{
    match hex_decode_raw(input) {
        Some(v) => {
            if v.len() == 32 {
                Ok(v)
            } else {
                Err(ProofError::InvalidInput)
            }
        },
        None => Err(ProofError::InvalidInput),
    }
}

/// Decodes a 20-byte address from hexadecimal request text.
///
/// Succeeds exactly on a 40-character hexadecimal string.
pub fn parse_address(input: &str) -> (r: Result<Vec<u8>, ProofError>)
    ensures
        r is Ok <==> (is_hex_str(input@) && input@.len() == 40),
        r matches Ok(v) ==> v@ == hex_decoded(input@) && v@.len() == 20,
        r matches Err(e) ==> e == ProofError::InvalidInput,
{
    match hex_decode_raw(input) {
        Some(v) => {
            if v.len() == 20 {
                Ok(v)
            } else {
                Err(ProofError::InvalidInput)
            }
        },
        None => Err(ProofError::InvalidInput),
    }
}

/// Decimal digit sequence of a natural number, most significant first.
pub open spec fn decimal_chars(n: nat) -> Seq<char>
    decreases n,
{
    if n < 10 {
        seq![digit_char(n as u8)]
    } else {
        decimal_chars(n / 10).push(digit_char((n % 10) as u8))
    }
}

/// Base-10 rendering of a field-element-sized value, used for the portable
/// public-input strings of a proof result.
pub fn u64_to_decimal(n: u64) -> (r: String)
    ensures
        r@ == decimal_chars(n as nat),
    decreases n,
{
    if n < 10 {
        let d = digit_str(n as u8);
        let mut s = String::new();
        s.append(d);
        proof {
            assert(s@ =~= decimal_chars(n as nat));
        }
        s
    } else {
        let mut s = u64_to_decimal(n / 10);
        s.append(digit_str((n % 10) as u8));
        proof {
            assert(s@ =~= decimal_chars(n as nat));
        }
        s
    }
}

/// A digit's value is recovered by its lowercase digit character.
proof fn lemma_digit_char_val(v: u8)
    requires
        v < 16,
    ensures
        is_lower_hex_digit(digit_char(v)),
        hex_digit_val(digit_char(v)) == v,
{
}

/// A lowercase digit character is recovered from its value.
proof fn lemma_val_digit_char(c: char)
    requires
        is_lower_hex_digit(c),
    ensures
        hex_digit_val(c) < 16,
        digit_char(hex_digit_val(c)) == c,
{
}

/// High and low digit of a byte assembled from two digit values.
proof fn lemma_byte_split(a: u8, b: u8)
    requires
        a < 16,
        b < 16,
    ensures
        (a * 16 + b) / 16 == a,
        (a * 16 + b) % 16 == b,
{
    assert((a * 16 + b) / 16 == a && (a * 16 + b) % 16 == b) by (nonlinear_arith)
        requires
            a < 16,
            b < 16,
    ;
}

/// Round-trip law: decoding a lowercase hexadecimal string and re-encoding
/// the bytes yields the original string. (Uppercase digits decode to the
/// same bytes and re-encode to their lowercase counterparts, so the law is
/// stated for the canonical lowercase form.)
pub proof fn lemma_hex_round_trip(s: Seq<char>)
    requires
        s.len() % 2 == 0,
        forall|i: int| 0 <= i < s.len() ==> is_lower_hex_digit(#[trigger] s[i]),
    ensures
        is_hex_str(s),
        hex_encoded(hex_decoded(s)) == s,
{
    assert(is_hex_str(s));
    let e = hex_encoded(hex_decoded(s));
    assert(e.len() == s.len());
    assert forall|i: int| 0 <= i < s.len() implies e[i] == s[i] by {
        let j = i / 2;
        let a = hex_digit_val(s[2 * j]);
        let b = hex_digit_val(s[2 * j + 1]);
        lemma_val_digit_char(s[2 * j]);
        lemma_val_digit_char(s[2 * j + 1]);
        lemma_byte_split(a, b);
        if i % 2 == 0 {
            assert(2 * j == i);
        } else {
            assert(2 * j + 1 == i);
        }
    }
    assert(e =~= s);
}

/// Companion law: encoding bytes and decoding the text yields the bytes
/// back, so distinct byte strings never alias under encoding.
pub proof fn lemma_hex_encode_decode(b: Seq<u8>)
    ensures
        is_hex_str(hex_encoded(b)),
        hex_decoded(hex_encoded(b)) == b,
{
    let e = hex_encoded(b);
    assert forall|i: int| 0 <= i < e.len() implies is_hex_digit(#[trigger] e[i]) by {
        lemma_digit_char_val(b[i / 2] / 16);
        lemma_digit_char_val(b[i / 2] % 16);
    }
    assert(is_hex_str(e));
    let d = hex_decoded(e);
    assert(d.len() == b.len());
    assert forall|j: int| 0 <= j < b.len() implies d[j] == b[j] by {
        lemma_digit_char_val(b[j] / 16);
        lemma_digit_char_val(b[j] % 16);
        assert(hex_digit_val(e[2 * j]) == b[j] / 16);
        assert(hex_digit_val(e[2 * j + 1]) == b[j] % 16);
    }
    assert(d =~= b);
}

} // verus!
