//! Hex encoding and decoding of byte buffers, as the `hex` crate performs
//! them, together with the proof that the two are inverse.

use vstd::prelude::*;

verus! {

/// True of the characters that may stand in a hex string.
pub open spec fn is_hex_digit(c: char) -> bool {
    ||| '0' as u32 <= c as u32 <= '9' as u32
    ||| 'a' as u32 <= c as u32 <= 'f' as u32
    ||| 'A' as u32 <= c as u32 <= 'F' as u32
}

/// The value of one hex digit.
pub open spec fn hex_digit_value(c: char) -> nat {
    if '0' as u32 <= c as u32 <= '9' as u32 {
        (c as u32 - '0' as u32) as nat
    } else if 'a' as u32 <= c as u32 <= 'f' as u32 {
        (c as u32 - 'a' as u32 + 10) as nat
    } else {
        (c as u32 - 'A' as u32 + 10) as nat
    }
}

/// The lowercase hex digit of a value below 16.
pub open spec fn hex_char(n: nat) -> char {
    if n == 0 {
        '0'
    } else if n == 1 {
        '1'
    } else if n == 2 {
        '2'
    } else if n == 3 {
        '3'
    } else if n == 4 {
        '4'
    } else if n == 5 {
        '5'
    } else if n == 6 {
        '6'
    } else if n == 7 {
        '7'
    } else if n == 8 {
        '8'
    } else if n == 9 {
        '9'
    } else if n == 10 {
        'a'
    } else if n == 11 {
        'b'
    } else if n == 12 {
        'c'
    } else if n == 13 {
        'd'
    } else if n == 14 {
        'e'
    } else {
        'f'
    }
}

/// The lowercase hex encoding of a byte buffer: two digits for each byte,
/// high nibble first.
pub open spec fn hex_encode_spec(b: Seq<u8>) -> Seq<char> {
    Seq::new(
        b.len() * 2,
        |i: int|
            if i % 2 == 0 {
                hex_char((b[i / 2] >> 4u8) as nat)
            } else {
                hex_char((b[i / 2] & 0xfu8) as nat)
            },
    )
}

/// Whether a string is a well-formed hex encoding: an even number of hex
/// digits.
pub open spec fn hex_decode_ok(s: Seq<char>) -> bool {
    s.len() % 2 == 0 && (forall|i: int| 0 <= i < s.len() ==> is_hex_digit(#[trigger] s[i]))
}

/// The bytes a well-formed hex string decodes to, high nibble first.
pub open spec fn hex_decode_spec(s: Seq<char>) -> Seq<u8> {
    Seq::new(
        s.len() / 2,
        |i: int| (16 * hex_digit_value(s[2 * i]) + hex_digit_value(s[2 * i + 1])) as u8,
    )
}

/// Relies on hex::encode: the result holds two lowercase hex digits for
/// each input byte, high nibble first.
#[verifier::external_body]
pub(crate) fn hex_encode(b: &Vec<u8>) -> (r: String)
    ensures
        r@ == hex_encode_spec(b@),
{
    hex::encode(b.as_slice())
}

#[verifier::external_type_specification]
#[verifier::external_body]
pub struct ExFromHexError(hex::FromHexError);

/// Relies on hex::decode: it succeeds exactly on an even number of hex
/// digits (upper or lower case), pairing them into bytes, high nibble first.
#[verifier::external_body]
pub(crate) fn hex_decode(s: &str) -> (r: Result<Vec<u8>, hex::FromHexError>)
    ensures
        r is Ok <==> hex_decode_ok(s@),
        r matches Ok(b) ==> b@ == hex_decode_spec(s@),
{
    hex::decode(s)
}

/// The two nibbles of a byte are below 16 and reassemble to the byte.
proof fn lemma_nibbles(x: u8)
    ensures
        x >> 4u8 < 16,
        x & 0xfu8 < 16,
        16 * (x >> 4u8) + (x & 0xfu8) == x,
{
    assert(x >> 4u8 < 16) by (bit_vector);
    assert(x & 0xfu8 < 16) by (bit_vector);
    assert(16 * (x >> 4u8) + (x & 0xfu8) == x) by (bit_vector);
}

/// The hex digit of a value below 16 is a hex digit and stands for that
/// value.
proof fn lemma_hex_char_value(n: nat)
    requires
        n < 16,
    ensures
        is_hex_digit(hex_char(n)),
        hex_digit_value(hex_char(n)) == n,
{
}

/// Hex encoding round-trips losslessly: decoding accepts every encoded
/// buffer and gives the bytes back.
pub proof fn lemma_hex_round_trip(b: Seq<u8>)
    ensures
        hex_decode_ok(hex_encode_spec(b)),
        hex_decode_spec(hex_encode_spec(b)) == b,
{
    let e = hex_encode_spec(b);
    assert forall|i: int| 0 <= i < e.len() implies is_hex_digit(#[trigger] e[i]) by {
        lemma_nibbles(b[i / 2]);
        if i % 2 == 0 {
            lemma_hex_char_value((b[i / 2] >> 4u8) as nat);
        } else {
            lemma_hex_char_value((b[i / 2] & 0xfu8) as nat);
        }
    }
    let d = hex_decode_spec(e);
    assert forall|i: int| 0 <= i < b.len() implies d[i] == b[i] by {
        lemma_nibbles(b[i]);
        lemma_hex_char_value((b[i] >> 4u8) as nat);
        lemma_hex_char_value((b[i] & 0xfu8) as nat);
        assert(e[2 * i] == hex_char((b[i] >> 4u8) as nat));
        assert(e[2 * i + 1] == hex_char((b[i] & 0xfu8) as nat));
    }
    assert(d =~= b);
}

} // verus!
