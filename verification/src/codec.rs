//! URL-safe base64 without padding, as ACME uses it for every binary value.

use crate::error::{Encoding, Error, ErrorView};
use vstd::prelude::*;

verus! {

/// The character of the URL-safe alphabet that stands for the 6-bit value `v`.
pub open spec fn symbol(v: int) -> char {
    if v < 26 {
        ((65 + v) as u8) as char
    } else if v < 52 {
        ((71 + v) as u8) as char
    } else if v < 62 {
        ((v - 4) as u8) as char
    } else if v == 62 {
        '-'
    } else {
        '_'
    }
}

/// The text that encodes `bytes`: four symbols for each group of three bytes,
/// then two or three symbols for a last group of one or two bytes, and no
/// padding.
pub open spec fn base64url_encoding(bytes: Seq<u8>) -> Seq<char>
    decreases bytes.len(),
{
    if bytes.len() == 0 {
        Seq::empty()
    } else if bytes.len() == 1 {
        seq![symbol(bytes[0] as int / 4), symbol((bytes[0] as int % 4) * 16)]
    } else if bytes.len() == 2 {
        seq![
            symbol(bytes[0] as int / 4),
            symbol((bytes[0] as int % 4) * 16 + bytes[1] as int / 16),
            symbol((bytes[1] as int % 16) * 4),
        ]
    } else {
        seq![
            symbol(bytes[0] as int / 4),
            symbol((bytes[0] as int % 4) * 16 + bytes[1] as int / 16),
            symbol((bytes[1] as int % 16) * 4 + bytes[2] as int / 64),
            symbol(bytes[2] as int % 64),
        ] + base64url_encoding(bytes.skip(3))
    }
}

/// `text` without the `=` characters at its end.
pub open spec fn without_padding(text: Seq<char>) -> Seq<char>
    decreases text.len(),
{
    if text.len() > 0 && text.last() == '=' {
        without_padding(text.drop_last())
    } else {
        text
    }
}

/// Whether the decoder takes `text`: it is an encoding, alone or followed by
/// `=` that fill its last group up to four characters.
pub open spec fn is_decodable(text: Seq<char>) -> bool {
    let body = without_padding(text);
    let padding = text.len() - body.len();
    (exists|bytes: Seq<u8>| body == #[trigger] base64url_encoding(bytes)) && (padding == 0 || (
    body.len() % 4 >= 2 && body.len() % 4 + padding <= 4))
}

/// Distinct 6-bit values have distinct symbols, and no symbol is `=`.
pub proof fn lemma_symbol_injective(a: int, b: int)
    requires
        0 <= a < 64,
        0 <= b < 64,
    ensures
        symbol(a) != '=',
        symbol(a) == symbol(b) ==> a == b,
{
    assert(symbol(a) as int == if a < 26 {
        65 + a
    } else if a < 52 {
        71 + a
    } else if a < 62 {
        a - 4
    } else if a == 62 {
        45
    } else {
        95
    });
    assert(symbol(b) as int == if b < 26 {
        65 + b
    } else if b < 52 {
        71 + b
    } else if b < 62 {
        b - 4
    } else if b == 62 {
        45
    } else {
        95
    });
    assert('=' as int == 61);
}

/// An encoding does not end in `=`, so stripping padding leaves it as it is.
pub proof fn lemma_encoding_unpadded(bytes: Seq<u8>)
    ensures
        bytes.len() > 0 ==> base64url_encoding(bytes).len() > 0 && base64url_encoding(
            bytes,
        ).last() != '=',
        without_padding(base64url_encoding(bytes)) == base64url_encoding(bytes),
    decreases bytes.len(),
{
    let text = base64url_encoding(bytes);
    if bytes.len() == 0 {
        assert(text.len() == 0);
    } else if bytes.len() == 1 {
        lemma_symbol_injective((bytes[0] as int % 4) * 16, 0);
        assert(text.last() == text[1]);
    } else if bytes.len() == 2 {
        lemma_symbol_injective((bytes[1] as int % 16) * 4, 0);
        assert(text.last() == text[2]);
    } else {
        let rest = base64url_encoding(bytes.skip(3));
        lemma_encoding_unpadded(bytes.skip(3));
        if rest.len() == 0 {
            lemma_symbol_injective(bytes[2] as int % 64, 0);
            assert(text.last() == text[3]);
        } else {
            assert(bytes.skip(3).len() > 0);
            assert(text.last() == rest.last());
        }
    }
}

/// Two byte sequences with the same encoding are the same sequence.
pub proof fn lemma_encoding_injective(a: Seq<u8>, b: Seq<u8>)
    requires
        base64url_encoding(a) == base64url_encoding(b),
    ensures
        a == b,
    decreases a.len(),
{
    let ta = base64url_encoding(a);
    let tb = base64url_encoding(b);
    if a.len() >= 3 && b.len() >= 3 {
        let ra = base64url_encoding(a.skip(3));
        let rb = base64url_encoding(b.skip(3));
        assert(ta[0] == tb[0] && ta[1] == tb[1] && ta[2] == tb[2] && ta[3] == tb[3]);
        lemma_symbol_injective(a[0] as int / 4, b[0] as int / 4);
        lemma_symbol_injective(
            (a[0] as int % 4) * 16 + a[1] as int / 16,
            (b[0] as int % 4) * 16 + b[1] as int / 16,
        );
        lemma_symbol_injective(
            (a[1] as int % 16) * 4 + a[2] as int / 64,
            (b[1] as int % 16) * 4 + b[2] as int / 64,
        );
        lemma_symbol_injective(a[2] as int % 64, b[2] as int % 64);
        assert(a[0] == b[0] && a[1] == b[1] && a[2] == b[2]);
        assert(ra =~= ta.skip(4));
        assert(rb =~= tb.skip(4));
        lemma_encoding_injective(a.skip(3), b.skip(3));
        assert forall|i: int| 0 <= i < a.len() implies a[i] == b[i] by {
            if i >= 3 {
                assert(a[i] == a.skip(3)[i - 3]);
                assert(b[i] == b.skip(3)[i - 3]);
            }
        }
        assert(a.len() == a.skip(3).len() + 3);
        assert(b.len() == b.skip(3).len() + 3);
        assert(a =~= b);
    } else if a.len() >= 3 || b.len() >= 3 {
        assert(ta.len() == tb.len());
        assert(false);
    } else {
        assert(ta.len() == tb.len());
        assert(a.len() == b.len());
        if a.len() == 1 {
            assert(ta[0] == tb[0] && ta[1] == tb[1]);
            lemma_symbol_injective(a[0] as int / 4, b[0] as int / 4);
            lemma_symbol_injective((a[0] as int % 4) * 16, (b[0] as int % 4) * 16);
        } else if a.len() == 2 {
            assert(ta[0] == tb[0] && ta[1] == tb[1] && ta[2] == tb[2]);
            lemma_symbol_injective(a[0] as int / 4, b[0] as int / 4);
            lemma_symbol_injective(
                (a[0] as int % 4) * 16 + a[1] as int / 16,
                (b[0] as int % 4) * 16 + b[1] as int / 16,
            );
            lemma_symbol_injective((a[1] as int % 16) * 4, (b[1] as int % 16) * 4);
        }
        assert(a =~= b);
    }
}

/// What a decoder may hand back for what an encoder wrote: its encoding is
/// the text without padding, so it is the bytes that were encoded.
pub proof fn lemma_decode_inverts_encode(bytes: Seq<u8>, decoded: Seq<u8>)
    requires
        base64url_encoding(decoded) == without_padding(base64url_encoding(bytes)),
    ensures
        decoded == bytes,
{
    lemma_encoding_unpadded(bytes);
    lemma_encoding_injective(decoded, bytes);
}

/// The error of `base64::decode_config`, carried from the call to the place
/// where it becomes an [`Error`].
#[verifier::external_type_specification]
#[verifier::external_body]
pub struct ExDecodeError(base64::DecodeError);

/// `base64::encode_config` with the URL-safe alphabet and no padding.
///
/// Trusted: the result is the encoding that [`base64url_encoding`] spells
/// out. The call panics only where the length of the output overflows
/// `usize`, which no slice is long enough to cause.
#[verifier::external_body]
fn encode_url_safe(input: &[u8]) -> (res: String)
    ensures
        res@ == base64url_encoding(input@),
{
    base64::encode_config(input, base64::URL_SAFE_NO_PAD)
}

/// `base64::decode_config` with the URL-safe alphabet and no padding.
///
/// Trusted: the decoder accepts an encoding, and an encoding followed by
/// the `=` that fill its last group of four, and nothing else: not a
/// symbol outside the alphabet, an impossible length, nonzero trailing bits
/// or padding elsewhere. The bytes it returns encode to the input without
/// its padding.
#[verifier::external_body]
fn decode_url_safe(input: &str) -> (res: Result<Vec<u8>, base64::DecodeError>)
    ensures
        res is Ok <==> is_decodable(input@),
        res matches Ok(bytes) ==> base64url_encoding(bytes@) == without_padding(input@),
{
    base64::decode_config(input, base64::URL_SAFE_NO_PAD)
}

/// Encodes `input` as URL-safe base64 without padding.
pub fn base64url(input: &[u8]) -> (res: String)
    ensures
        res@ == base64url_encoding(input@),
{
    encode_url_safe(input)
}

/// Decodes URL-safe base64 text.
///
/// Text that [`base64url`] produced decodes to the bytes it was produced
/// from. An encoding may also be followed by the `=` that fill its last
/// group of four, and decodes to the same bytes. All other text is refused
/// with a `Decode` error.
pub fn unbase64url(input: &str) -> (res: Result<Vec<u8>, Error>)
    ensures
        res is Ok <==> is_decodable(input@),
        res matches Ok(bytes) ==> base64url_encoding(bytes@) == without_padding(input@),
        res matches Err(e) ==> e@ == (ErrorView::Decode { encoding: Encoding::Base64 }),
        forall|bytes: Seq<u8>|
            input@ == #[trigger] base64url_encoding(bytes) ==> (res matches Ok(decoded)
                && decoded@ == bytes),
{
    assert forall|bytes: Seq<u8>|
        input@ == #[trigger] base64url_encoding(bytes) implies is_decodable(input@) by {
        lemma_encoding_unpadded(bytes);
    }
    match decode_url_safe(input) {
        Ok(decoded) => {
            assert forall|bytes: Seq<u8>|
                input@ == #[trigger] base64url_encoding(bytes) implies decoded@ == bytes by {
                lemma_decode_inverts_encode(bytes, decoded@);
            }
            Ok(decoded)
        },
        Err(_) => Err(Error::Decode { encoding: Encoding::Base64 }),
    }
}

} // verus!
