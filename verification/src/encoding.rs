//! Base64 and the `data:` URL for a captured PNG image.
//!
//! The encoding itself is performed by the `base64` crate; this module
//! states what that encoding is, as spec functions over byte sequences,
//! and proves that decoding an encoded sequence gives the original bytes
//! back.

use vstd::prelude::*;

verus! {

/// The ASCII code of `=`, the padding symbol of standard base64.
pub open spec fn pad_byte() -> u8 {
    61
}

/// The ASCII code that the standard base64 alphabet (RFC 4648) assigns
/// to a six-bit group: `A`-`Z` for 0-25, `a`-`z` for 26-51, `0`-`9` for
/// 52-61, then `+` and `/`.
pub open spec fn b64_letter(v: u8) -> u8
    recommends
        v < 64,
{
    if v < 26 {
        (v + 65) as u8
    } else if v < 52 {
        (v + 71) as u8
    } else if v < 62 {
        (v - 4) as u8
    } else if v == 62 {
        43
    } else {
        47
    }
}

/// The six-bit group that an ASCII code of the standard alphabet stands
/// for; the inverse of [`b64_letter`] on its range.
pub open spec fn b64_value(b: u8) -> u8 {
    if 65 <= b && b <= 90 {
        (b - 65) as u8
    } else if 97 <= b && b <= 122 {
        (b - 71) as u8
    } else if 48 <= b && b <= 57 {
        (b + 4) as u8
    } else if b == 43 {
        62
    } else {
        63
    }
}

proof fn lemma_letter_value(v: u8)
    requires
        v < 64,
    ensures
        b64_value(b64_letter(v)) == v,
        b64_letter(v) != pad_byte(),
{
}

/// The four alphabet bytes that encode a full group of three input bytes.
pub open spec fn encode_group3(a: u8, b: u8, c: u8) -> Seq<u8> {
    seq![
        b64_letter(a >> 2),
        b64_letter(((a & 0x03) << 4) | (b >> 4)),
        b64_letter(((b & 0x0f) << 2) | (c >> 6)),
        b64_letter(c & 0x3f),
    ]
}

/// The final quantum for a tail of two input bytes: three alphabet bytes
/// and one `=`.
pub open spec fn encode_group2(a: u8, b: u8) -> Seq<u8> {
    seq![
        b64_letter(a >> 2),
        b64_letter(((a & 0x03) << 4) | (b >> 4)),
        b64_letter((b & 0x0f) << 2),
        pad_byte(),
    ]
}

/// The final quantum for a tail of one input byte: two alphabet bytes
/// and two `=`.
pub open spec fn encode_group1(a: u8) -> Seq<u8> {
    seq![b64_letter(a >> 2), b64_letter((a & 0x03) << 4), pad_byte(), pad_byte()]
}

/// Standard base64 with padding, as a sequence of ASCII codes: each full
/// group of three input bytes becomes four alphabet bytes, and a final
/// partial group is padded with `=` to a four-byte quantum.
pub open spec fn b64_encode(s: Seq<u8>) -> Seq<u8>
    decreases s.len(),
{
    if s.len() == 0 {
        seq![]
    } else if s.len() == 1 {
        encode_group1(s[0])
    } else if s.len() == 2 {
        encode_group2(s[0], s[1])
    } else {
        encode_group3(s[0], s[1], s[2]) + b64_encode(s.skip(3))
    }
}

/// The input bytes that one four-byte quantum stands for: one, two or
/// three of them, as its `=` padding says.
pub open spec fn decode_quad(p: u8, q: u8, r: u8, s: u8) -> Seq<u8> {
    let vp = b64_value(p);
    let vq = b64_value(q);
    let vr = b64_value(r);
    let vs = b64_value(s);
    if r == pad_byte() {
        seq![(vp << 2) | (vq >> 4)]
    } else if s == pad_byte() {
        seq![(vp << 2) | (vq >> 4), (vq << 4) | (vr >> 2)]
    } else {
        seq![(vp << 2) | (vq >> 4), (vq << 4) | (vr >> 2), (vr << 6) | vs]
    }
}

/// Standard base64 decoding of a padded encoding: quantum by quantum.
pub open spec fn b64_decode(s: Seq<u8>) -> Seq<u8>
    decreases s.len(),
{
    if s.len() < 4 {
        seq![]
    } else {
        decode_quad(s[0], s[1], s[2], s[3]) + b64_decode(s.skip(4))
    }
}

proof fn lemma_group3_round_trip(a: u8, b: u8, c: u8)
    ensures
        decode_quad(
            b64_letter(a >> 2),
            b64_letter(((a & 0x03) << 4) | (b >> 4)),
            b64_letter(((b & 0x0f) << 2) | (c >> 6)),
            b64_letter(c & 0x3f),
        ) == seq![a, b, c],
{
    assert((a >> 2) < 64 && (((a & 0x03) << 4) | (b >> 4)) < 64 && (((b & 0x0f) << 2) | (c >> 6))
        < 64 && (c & 0x3f) < 64) by (bit_vector);
    lemma_letter_value(a >> 2);
    lemma_letter_value(((a & 0x03) << 4) | (b >> 4));
    lemma_letter_value(((b & 0x0f) << 2) | (c >> 6));
    lemma_letter_value(c & 0x3f);
    assert((((a >> 2) << 2) | ((((a & 0x03) << 4) | (b >> 4)) >> 4)) == a && (((((a & 0x03) << 4) | (
    b >> 4)) << 4) | ((((b & 0x0f) << 2) | (c >> 6)) >> 2)) == b && (((((b & 0x0f) << 2) | (c >> 6))
        << 6) | (c & 0x3f)) == c) by (bit_vector);
}

proof fn lemma_group2_round_trip(a: u8, b: u8)
    ensures
        decode_quad(
            b64_letter(a >> 2),
            b64_letter(((a & 0x03) << 4) | (b >> 4)),
            b64_letter((b & 0x0f) << 2),
            pad_byte(),
        ) == seq![a, b],
{
    assert((a >> 2) < 64 && (((a & 0x03) << 4) | (b >> 4)) < 64 && ((b & 0x0f) << 2)
        < 64) by (bit_vector);
    lemma_letter_value(a >> 2);
    lemma_letter_value(((a & 0x03) << 4) | (b >> 4));
    lemma_letter_value((b & 0x0f) << 2);
    assert((((a >> 2) << 2) | ((((a & 0x03) << 4) | (b >> 4)) >> 4)) == a && (((((a & 0x03) << 4) | (
    b >> 4)) << 4) | (((b & 0x0f) << 2) >> 2)) == b) by (bit_vector);
}

proof fn lemma_group1_round_trip(a: u8)
    ensures
        decode_quad(b64_letter(a >> 2), b64_letter((a & 0x03) << 4), pad_byte(), pad_byte())
            == seq![a],
{
    assert((a >> 2) < 64 && ((a & 0x03) << 4) < 64) by (bit_vector);
    lemma_letter_value(a >> 2);
    lemma_letter_value((a & 0x03) << 4);
    assert((((a >> 2) << 2) | (((a & 0x03) << 4) >> 4)) == a) by (bit_vector);
}

/// Decoding an encoded byte sequence gives the original sequence back,
/// whatever its length and padding.
pub proof fn lemma_b64_round_trip(s: Seq<u8>)
    ensures
        b64_decode(b64_encode(s)) == s,
    decreases s.len(),
{
    if s.len() == 0 {
        assert(b64_decode(b64_encode(s)) =~= s);
    } else if s.len() == 1 {
        lemma_group1_round_trip(s[0]);
        let e = b64_encode(s);
        assert(e == encode_group1(s[0]));
        assert(e.len() == 4);
        assert(b64_decode(e.skip(4)) =~= Seq::<u8>::empty());
        assert(decode_quad(e[0], e[1], e[2], e[3]) == seq![s[0]]);
        assert(b64_decode(b64_encode(s)) =~= s);
    } else if s.len() == 2 {
        lemma_group2_round_trip(s[0], s[1]);
        let e = b64_encode(s);
        assert(e == encode_group2(s[0], s[1]));
        assert(e.len() == 4);
        assert(b64_decode(e.skip(4)) =~= Seq::<u8>::empty());
        assert(decode_quad(e[0], e[1], e[2], e[3]) == seq![s[0], s[1]]);
        assert(b64_decode(b64_encode(s)) =~= s);
    } else {
        lemma_group3_round_trip(s[0], s[1], s[2]);
        lemma_b64_round_trip(s.skip(3));
        let e = b64_encode(s);
        assert(e.skip(4) =~= b64_encode(s.skip(3)));
        assert(b64_decode(e) =~= s);
    }
}

/// An ASCII byte sequence read as characters, code point by code point.
pub open spec fn ascii_chars(s: Seq<u8>) -> Seq<char> {
    s.map(|i: int, b: u8| b as char)
}

/// Characters written back as the ASCII bytes they stand for.
pub open spec fn ascii_bytes(s: Seq<char>) -> Seq<u8> {
    s.map(|i: int, c: char| c as u8)
}

/// The `data:` URL that embeds `bytes` as a base64-encoded PNG image.
pub open spec fn spec_png_data_url(bytes: Seq<u8>) -> Seq<char> {
    "data:image/png;base64,"@ + ascii_chars(b64_encode(bytes))
}

/// Relies on `base64::Engine::encode` with
/// `base64::engine::general_purpose::STANDARD`: base64 in the standard
/// RFC 4648 alphabet, padded with `=` to a multiple of four characters.
#[verifier::external_body]
fn encode_standard_base64(bytes: &[u8]) -> (r: String)
    ensures
        r@ == ascii_chars(b64_encode(bytes@)),
{
    base64::Engine::encode(&base64::engine::general_purpose::STANDARD, bytes)
}

/// The `data:` URL for the PNG image held in `bytes`: the fixed
/// `data:image/png;base64,` prefix followed by the standard base64
/// encoding of the bytes.
pub fn png_data_url(bytes: &[u8]) -> (r: String)
    ensures
        r@ == spec_png_data_url(bytes@),
{
    let mut url = String::from_str("data:image/png;base64,");
    let encoded = encode_standard_base64(bytes);
    url.append(encoded.as_str());
    url
}

/// Everything after the `data:image/png;base64,` prefix of a capture's
/// data URL is the standard base64 encoding of the embedded bytes, and
/// decoding that payload gives exactly those bytes back.
pub proof fn lemma_data_url_round_trip(bytes: Seq<u8>)
    ensures
        spec_png_data_url(bytes).skip("data:image/png;base64,"@.len() as int)
            == ascii_chars(b64_encode(bytes)),
        b64_decode(ascii_bytes(ascii_chars(b64_encode(bytes)))) == bytes,
{
    assert(spec_png_data_url(bytes).skip("data:image/png;base64,"@.len() as int)
        =~= ascii_chars(b64_encode(bytes)));
    assert(ascii_bytes(ascii_chars(b64_encode(bytes))) =~= b64_encode(bytes));
    lemma_b64_round_trip(bytes);
}

} // verus!
