use vstd::prelude::*;

verus! {

/// A character that hex::decode accepts as one hexadecimal digit.
pub open spec fn is_hex_digit(c: char) -> bool {
    ('0' <= c && c <= '9') || ('a' <= c && c <= 'f') || ('A' <= c && c <= 'F')
}

/// The value of a hexadecimal digit.
pub open spec fn hex_digit_value(c: char) -> int {
    if '0' <= c && c <= '9' {
        c as int - '0' as int
    } else if 'a' <= c && c <= 'f' {
        c as int - 'a' as int + 10
    } else {
        c as int - 'A' as int + 10
    }
}

/// Text that decodes as hex: an even number of hexadecimal digits.
pub open spec fn is_hex_text(s: Seq<char>) -> bool {
    &&& s.len() % 2 == 0
    &&& forall|i: int| 0 <= i < s.len() ==> #[trigger] is_hex_digit(s[i])
}

/// The bytes that hex text stands for, two digits per byte, high digit first.
pub open spec fn hex_decoded(s: Seq<char>) -> Seq<u8> {
    Seq::new(
        s.len() / 2,
        |i: int| (hex_digit_value(s[2 * i]) * 16 + hex_digit_value(s[2 * i + 1])) as u8,
    )
}

/// The lower-case digit for a value below 16.
pub open spec fn lower_hex_digit(v: int) -> char {
    if v < 10 {
        ('0' as int + v) as char
    } else {
        ('a' as int + v - 10) as char
    }
}

/// Lower-case hex text of a byte string, two digits per byte.
pub open spec fn hex_encoded(b: Seq<u8>) -> Seq<char> {
    Seq::new(
        2 * b.len(),
        |i: int|
            if i % 2 == 0 {
                lower_hex_digit(b[i / 2] as int / 16)
            } else {
                lower_hex_digit(b[i / 2] as int % 16)
            },
    )
}

/// Hex text that stands for exactly `n` bytes.
pub open spec fn is_hex_of_len(s: Seq<char>, n: nat) -> bool {
    is_hex_text(s) && hex_decoded(s).len() == n
}

/// Malformed hex, or hex of the wrong number of bytes.
#[derive(Debug, Clone, Copy, PartialEq, Eq, Structural)]
pub struct InvalidFormat;

/// The error of hex::decode, carried through opaque.
#[verifier::external_type_specification]
#[verifier::external_body]
pub struct ExFromHexError(hex::FromHexError);

/// Relies on hex::decode: it fails on an odd length or on a byte that is not
/// an ASCII hex digit, and otherwise turns each pair of digits into one byte.
#[verifier::external_body]
fn decode_hex(s: &str) -> (r: Result<Vec<u8>, hex::FromHexError>)
    ensures
        r is Ok <==> is_hex_text(s@),
        r matches Ok(b) ==> b@ == hex_decoded(s@),
{
    hex::decode(s)
}

/// Relies on hex::encode: two lower-case digits per byte, high digit first.
#[verifier::external_body]
fn encode_hex(b: &Vec<u8>) -> (r: String)
    ensures
        r@ == hex_encoded(b@),
{
    hex::encode(b)
}

/// Checks that `value` is hex text standing for exactly `expected_len` bytes.
pub fn validate_hex(value: &str, expected_len: usize) -> (r: Result<(), InvalidFormat>)
    ensures
        r is Ok <==> is_hex_of_len(value@, expected_len as nat),
{
    match decode_hex(value) {
        Ok(bytes) => {
            if bytes.len() == expected_len {
                Ok(())
            } else {
                Err(InvalidFormat)
            }
        },
        Err(_) => Err(InvalidFormat),
    }
}

/// Hex encoding: the text is hex and decodes back to the bytes it came from.
pub proof fn lemma_hex_round_trip(b: Seq<u8>)
    ensures
        is_hex_text(hex_encoded(b)),
        hex_decoded(hex_encoded(b)) == b,
{
    let s = hex_encoded(b);
    assert forall|i: int| 0 <= i < s.len() implies #[trigger] is_hex_digit(s[i]) by {
        let v: u8 = b[i / 2];
        assert(v as int / 16 < 16) by (nonlinear_arith)
            requires v <= 255;
    }
    assert forall|i: int| 0 <= i < b.len() implies #[trigger] hex_decoded(s)[i] == b[i] by {
        let v: u8 = b[i];
        assert(s[2 * i] == lower_hex_digit(v as int / 16));
        assert(s[2 * i + 1] == lower_hex_digit(v as int % 16));
        assert(hex_digit_value(lower_hex_digit(v as int / 16)) == v as int / 16) by (nonlinear_arith)
            requires v <= 255;
        assert((v as int / 16) * 16 + v as int % 16 == v as int) by (nonlinear_arith);
    }
    assert(hex_decoded(s) =~= b);
}

/// Relies on rand::random: a byte drawn from the thread-local generator.
pub assume_specification<T>[ rand::random::<T> ]() -> (r: T)
    where
        rand::distributions::Standard: rand::distributions::Distribution<T>,
;

/// Hex text of `n` random bytes.
pub fn random_hex(n: usize) -> (r: String)
    ensures
        exists|b: Seq<u8>| b.len() == n && r@ == hex_encoded(b),
        is_hex_of_len(r@, n as nat),
{
    let mut bytes: Vec<u8> = Vec::new();
    let mut i: usize = 0;
    while i < n
        invariant
            i <= n,
            bytes@.len() == i,
        decreases n - i,
    {
        bytes.push(rand::random::<u8>());
        i += 1;
    }
    let r = encode_hex(&bytes);
    proof {
        lemma_hex_round_trip(bytes@);
    }
    r
}

/// What str::to_uppercase makes of a text.
pub uninterp spec fn upper_of(s: Seq<char>) -> Seq<char>;

/// Relies on str::to_uppercase: the upper-case form depends on the text alone.
#[verifier::external_body]
pub(crate) fn uppercase(s: &str) -> (r: String)
    ensures
        r@ == upper_of(s@),
{
    s.to_uppercase()
}

/// Whether uuid::Uuid::parse_str accepts a text.
pub uninterp spec fn uuid_accepts(s: Seq<char>) -> bool;

/// Relies on uuid::Uuid::parse_str: whether it succeeds depends on the text alone.
#[verifier::external_body]
pub(crate) fn is_uuid(s: &str) -> (r: bool)
    ensures
        r == uuid_accepts(s@),
{
    match uuid::Uuid::parse_str(s) {
        Ok(_) => true,
        Err(_) => false,
    }
}

/// What base64::decode (standard alphabet, padded) makes of a text:
/// the bytes, or nothing where the text is not valid base64.
pub uninterp spec fn base64_decoded(s: Seq<char>) -> Option<Seq<u8>>;

/// The error of base64::decode, carried through opaque.
#[verifier::external_type_specification]
#[verifier::external_body]
pub struct ExDecodeError(base64::DecodeError);

/// Relies on base64::decode: the outcome depends on the text alone.
#[verifier::external_body]
fn decode_base64(s: &str) -> (r: Result<Vec<u8>, base64::DecodeError>)
    ensures
        match r {
            Ok(b) => base64_decoded(s@) == Some(b@),
            Err(_) => base64_decoded(s@) is None,
        },
{
    base64::decode(s)
}

/// Base64 text that stands for exactly `n` bytes.
pub open spec fn is_base64_of_len(s: Seq<char>, n: nat) -> bool {
    base64_decoded(s) matches Some(b) && b.len() == n
}

/// Checks that `s` is base64 text standing for exactly `expected_len` bytes.
pub fn validate_base64(s: &str, expected_len: usize) -> (r: Result<(), InvalidFormat>)
    ensures
        r is Ok <==> is_base64_of_len(s@, expected_len as nat),
{
    match decode_base64(s) {
        Ok(bytes) => {
            if bytes.len() == expected_len {
                Ok(())
            } else {
                Err(InvalidFormat)
            }
        },
        Err(_) => Err(InvalidFormat),
    }
}

} // verus!
