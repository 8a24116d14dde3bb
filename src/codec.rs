use base64::engine::general_purpose::STANDARD as B64;
use base64::Engine as _;
use vstd::prelude::*;

verus! {

#[verifier::external_type_specification]
#[verifier::external_body]
pub struct ExBase64DecodeError(base64::DecodeError);

/// The lowercase hexadecimal digit for a value below sixteen.
pub open spec fn hex_digit(n: int) -> char {
    seq!['0', '1', '2', '3', '4', '5', '6', '7', '8', '9', 'a', 'b', 'c', 'd', 'e', 'f'][n]
}

/// Lowercase hexadecimal text of a byte string, two digits per byte, high
/// nibble first, without a prefix.
pub open spec fn hex_of(b: Seq<u8>) -> Seq<char>
    decreases b.len(),
{
    if b.len() == 0 {
        Seq::empty()
    } else {
        hex_of(b.drop_last()) + seq![hex_digit(b.last() as int / 16), hex_digit(b.last() as int % 16)]
    }
}

/// The standard base64 text (RFC 4648 alphabet, with padding) of a byte string.
pub uninterp spec fn b64_text(b: Seq<u8>) -> Seq<char>;

/// The bytes that standard base64 decoding reads from a text, or `None` where
/// the text is not valid base64.
pub uninterp spec fn b64_bytes(s: Seq<char>) -> Option<Seq<u8>>;

/// Relies on `hex::encode`: two lowercase hex digits per byte, in order.
#[verifier::external_body]
fn hex_encode(b: &[u8]) -> (r: String)
    ensures
        r@ == hex_of(b@),
{
    hex::encode(b)
}

/// Relies on `base64::Engine::encode` with the `STANDARD` engine: the padded
/// standard encoding, which that engine's `decode` reads back to the same bytes.
#[verifier::external_body]
fn b64_encode(b: &[u8]) -> (r: String)
    ensures
        r@ == b64_text(b@),
        b64_bytes(r@) == Some(b@),
{
    B64.encode(b)
}

/// Relies on `base64::Engine::decode` with the `STANDARD` engine: the decoded
/// bytes, or the engine's error where the text is not valid base64.
#[verifier::external_body]
fn b64_decode(s: &str) -> (r: Result<Vec<u8>, base64::DecodeError>)
    ensures
        match r {
            Ok(v) => b64_bytes(s@) == Some(v@),
            Err(_) => b64_bytes(s@) is None,
        },
{
    B64.decode(s)
}

/// Canonical hex text of a field element, given its canonical byte
/// representation.
pub fn f_to_hex(repr: &[u8]) -> (r: String)
    ensures
        r@ == hex_of(repr@),
{
    hex_encode(repr)
}

/// First stage of the blob decoding chain: base64 text to the serialised bytes.
pub fn decode_b64(b64s: &str) -> (r: Result<Vec<u8>, base64::DecodeError>)
    ensures
        r is Ok <==> b64_bytes(b64s@) is Some,
        r is Ok ==> b64_bytes(b64s@) == Some(r->Ok_0@),
{
    b64_decode(b64s)
}

/// Last stage of the blob encoding chain: serialised bytes to base64 text.
pub fn encode_b64(bytes: &[u8]) -> (r: String)
    ensures
        r@ == b64_text(bytes@),
        b64_bytes(r@) == Some(bytes@),
{
    b64_encode(bytes)
}

} // verus!
