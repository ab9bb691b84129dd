//! Lowercase hex is the wire format of encrypted payloads: the producer
//! publishes `hex(ciphertext)` and the consumer decodes the delivered bytes
//! back before comparing them with the cached ciphertext.
//!
//! The encoding itself is done by the `hex` crate; this module states exactly
//! what that crate computes and proves that decoding inverts encoding.

use vstd::prelude::*;
use vstd::utf8::{encode_utf8, is_ascii_chars, is_ascii_chars_encode_utf8};

verus! {

/// The lowercase digit of a value below 16.
pub open spec fn hex_digit(n: u8) -> char
    recommends
        n < 16,
{
    if n == 0 {
        '0'
    } else if n == 1 {
        '1'
    } else if n == 2 {
        '2'
    } else if n == 3 {
        '3'
    } else if n == 4 {
        '4'
    } else if n == 5 {
        '5'
    } else if n == 6 {
        '6'
    } else if n == 7 {
        '7'
    } else if n == 8 {
        '8'
    } else if n == 9 {
        '9'
    } else if n == 10 {
        'a'
    } else if n == 11 {
        'b'
    } else if n == 12 {
        'c'
    } else if n == 13 {
        'd'
    } else if n == 14 {
        'e'
    } else {
        'f'
    }
}

/// The lowercase hex encoding of a byte sequence: two digits per byte,
/// high digit first.
pub open spec fn hex_chars_of(data: Seq<u8>) -> Seq<char>
    decreases data.len(),
{
    if data.len() == 0 {
        Seq::empty()
    } else {
        hex_chars_of(data.drop_last()) + seq![
            hex_digit((data.last() / 16) as u8),
            hex_digit((data.last() % 16) as u8),
        ]
    }
}

/// The value of one hex digit byte; both cases are accepted on decode.
pub open spec fn hex_val(b: u8) -> Option<u8> {
    if 48 <= b <= 57 {
        // '0' ..= '9'
        Some((b - 48) as u8)
    } else if 97 <= b <= 102 {
        // 'a' ..= 'f'
        Some((b - 97 + 10) as u8)
    } else if 65 <= b <= 70 {
        // 'A' ..= 'F'
        Some((b - 65 + 10) as u8)
    } else {
        None
    }
}

/// A byte sequence decodes as hex when its length is even and every byte is
/// a hex digit.
pub open spec fn is_hex_input(s: Seq<u8>) -> bool {
    &&& s.len() % 2 == 0
    &&& forall|i: int| 0 <= i < s.len() ==> (#[trigger] hex_val(s[i])) is Some
}

/// The bytes a valid hex input decodes to.
pub open spec fn hex_decoded(s: Seq<u8>) -> Seq<u8>
    recommends
        is_hex_input(s),
{
    Seq::new(
        (s.len() / 2) as nat,
        |i: int| (hex_val(s[2 * i]).unwrap() * 16 + hex_val(s[2 * i + 1]).unwrap()) as u8,
    )
}

/// Declares hex::FromHexError, the error hex::decode returns, so that the
/// decode wrapper can hand it through before it is mapped to the library's
/// own codec error.
#[verifier::external_type_specification]
#[verifier::external_body]
pub struct ExFromHexError(hex::FromHexError);

/// Relies on hex::encode: the lowercase hex string of the input bytes,
/// two digits per byte, high digit first.
#[verifier::external_body]
pub(crate) fn hex_encode(data: &[u8]) -> (r: String)
    ensures
        r@ == hex_chars_of(data@),
{
    hex::encode(data)
}

/// Relies on hex::decode: succeeds exactly on even-length all-hex-digit
/// input (either case) and returns the decoded bytes.
#[verifier::external_body]
pub(crate) fn hex_decode(data: &[u8]) -> (r: Result<Vec<u8>, hex::FromHexError>)
    ensures
        r is Ok <==> is_hex_input(data@),
        r matches Ok(d) ==> d@ == hex_decoded(data@),
{
    hex::decode(data)
}

/// The two digits of byte `j` stand at positions `2 j` and `2 j + 1` of the
/// encoding.
pub proof fn lemma_hex_chars_of_index(data: Seq<u8>, j: int)
    requires
        0 <= j < data.len(),
    ensures
        hex_chars_of(data).len() == 2 * data.len(),
        hex_chars_of(data)[2 * j] == hex_digit((data[j] / 16) as u8),
        hex_chars_of(data)[2 * j + 1] == hex_digit((data[j] % 16) as u8),
    decreases data.len(),
{
    lemma_hex_chars_of_len(data);
    if j < data.len() - 1 {
        lemma_hex_chars_of_index(data.drop_last(), j);
    }
}

/// The encoding is twice as long as the data.
pub proof fn lemma_hex_chars_of_len(data: Seq<u8>)
    ensures
        hex_chars_of(data).len() == 2 * data.len(),
    decreases data.len(),
{
    if data.len() > 0 {
        lemma_hex_chars_of_len(data.drop_last());
    }
}

/// Every character the encoder emits is an ASCII hex digit.
pub proof fn lemma_hex_digit_ascii(n: u8)
    requires
        n < 16,
    ensures
        '\0' <= hex_digit(n) <= '\u{7f}',
        hex_val(hex_digit(n) as u8) == Some(n),
{
}

/// The encoding is ASCII throughout.
pub proof fn lemma_hex_chars_of_ascii(data: Seq<u8>)
    ensures
        is_ascii_chars(hex_chars_of(data)),
{
    lemma_hex_chars_of_len(data);
    assert forall|i: int| 0 <= i < hex_chars_of(data).len() implies '\0'
        <= #[trigger] hex_chars_of(data)[i] <= '\u{7f}' by {
        let j = i / 2;
        lemma_hex_chars_of_index(data, j);
        if i % 2 == 0 {
            lemma_hex_digit_ascii((data[j] / 16) as u8);
        } else {
            lemma_hex_digit_ascii((data[j] % 16) as u8);
        }
    }
}

/// Decoding the UTF-8 bytes of the emitted hex string gives back exactly the
/// bytes that were encoded.
pub proof fn lemma_hex_roundtrip(data: Seq<u8>)
    ensures
        is_hex_input(encode_utf8(hex_chars_of(data))),
        hex_decoded(encode_utf8(hex_chars_of(data))) == data,
{
    let chars = hex_chars_of(data);
    let bytes = encode_utf8(chars);
    lemma_hex_chars_of_len(data);
    lemma_hex_chars_of_ascii(data);
    is_ascii_chars_encode_utf8(chars);
    assert forall|i: int| 0 <= i < bytes.len() implies (#[trigger] hex_val(bytes[i])) is Some by {
        let j = i / 2;
        lemma_hex_chars_of_index(data, j);
        if i % 2 == 0 {
            lemma_hex_digit_ascii((data[j] / 16) as u8);
        } else {
            lemma_hex_digit_ascii((data[j] % 16) as u8);
        }
    }
    assert forall|j: int| 0 <= j < data.len() implies hex_decoded(bytes)[j] == data[j] by {
        lemma_hex_chars_of_index(data, j);
        lemma_hex_digit_ascii((data[j] / 16) as u8);
        lemma_hex_digit_ascii((data[j] % 16) as u8);
        assert(hex_val(bytes[2 * j]) == Some((data[j] / 16) as u8));
        assert(hex_val(bytes[2 * j + 1]) == Some((data[j] % 16) as u8));
        assert(data[j] == 16 * (data[j] / 16) + data[j] % 16);
    }
    assert(hex_decoded(bytes) =~= data);
}

} // verus!
