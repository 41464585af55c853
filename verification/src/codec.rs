use vstd::prelude::*;

use crate::errors::KeyError;
use crate::keys::RawKeyMaterial;

verus! {

/// Whether a byte is one of the 58 symbols of the base58 alphabet: the
/// digits and letters with `0`, `O`, `I` and `l` left out.
pub open spec fn is_base58_byte(b: u8) -> bool {
    ||| (49 <= b && b <= 57)  // '1' ..= '9'
    ||| (65 <= b && b <= 90 && b != 73 && b != 79)  // 'A' ..= 'Z' without 'I' and 'O'
    ||| (97 <= b && b <= 122 && b != 108)  // 'a' ..= 'z' without 'l'

}

/// Whether every byte of `s` is a base58 symbol.
pub open spec fn all_base58(s: Seq<u8>) -> bool {
    forall|i: int| 0 <= i < s.len() ==> is_base58_byte(#[trigger] s[i])
}

/// The base58 text, as ASCII bytes, that a byte sequence encodes to.
pub uninterp spec fn base58_of(b: Seq<u8>) -> Seq<u8>;

/// The bytes that base58 text stands for, for text made of alphabet
/// symbols alone.
pub uninterp spec fn base58_decoded(s: Seq<u8>) -> Seq<u8>;

/// Relies on bs58::encode(..).into_vec(): the deterministic base58 text of
/// the input, written with alphabet symbols alone.
#[verifier::external_body]
fn bs58_encode(b: &Vec<u8>) -> (r: Vec<u8>)
    ensures
        r@ == base58_of(b@),
        all_base58(r@),
{
    bs58::encode(b.as_slice()).into_vec()
}

/// Relies on bs58::decode(..).into_vec(): it fails exactly on a byte outside
/// the base58 alphabet, returns otherwise the bytes the text stands for, and
/// on the encoding of `b` it returns `b` itself.
#[verifier::external_body]
fn bs58_decode(s: &Vec<u8>) -> (r: Option<Vec<u8>>)
    ensures
        r is Some <==> all_base58(s@),
        r matches Some(v) ==> v@ == base58_decoded(s@),
        forall|b: Seq<u8>| s@ == #[trigger] base58_of(b) ==> r is Some && r->Some_0@ == b,
{
    match bs58::decode(s.as_slice()).into_vec() {
        Ok(v) => Some(v),
        Err(_) => None,
    }
}

/// Base58-encodes an arbitrary byte sequence. Total: no failure mode.
pub fn encode(bytes: &Vec<u8>) -> (r: Vec<u8>)
    ensures
        r@ == base58_of(bytes@),
        all_base58(r@),
{
    bs58_encode(bytes)
}

/// Parses base58 text into bytes. Fails with `DecodeError` exactly when the
/// text holds a byte outside the base58 alphabet; on the encoding of any
/// byte sequence `b` it returns `b` itself (round trip).
pub fn decode(text: &Vec<u8>) -> (r: Result<Vec<u8>, KeyError>)
    ensures
        r is Ok <==> all_base58(text@),
        r matches Ok(v) ==> v@ == base58_decoded(text@),
        forall|b: Seq<u8>| text@ == #[trigger] base58_of(b) ==> (r matches Ok(v) && v@ == b),
        r is Err ==> r == Err::<Vec<u8>, KeyError>(KeyError::DecodeError),
{
    match bs58_decode(text) {
        Some(v) => Ok(v),
        None => Err(KeyError::DecodeError),
    }
}

/// Accepts a byte sequence as raw key material exactly when it holds 64
/// bytes; fails with `InvalidKeyLength` otherwise.
pub fn validate_key_length(bytes: Vec<u8>) -> (r: Result<RawKeyMaterial, KeyError>)
    ensures
        bytes@.len() == 64 ==> (r matches Ok(k) && k@ == bytes@ && k.wf()),
        bytes@.len() != 64 ==> r == Err::<RawKeyMaterial, KeyError>(KeyError::InvalidKeyLength),
{
    if bytes.len() == 64 {
        Ok(RawKeyMaterial::from_vec(bytes))
    } else {
        Err(KeyError::InvalidKeyLength)
    }
}

} // verus!
