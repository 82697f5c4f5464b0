//! Text encodings at the transport boundary: base58 for keys and base64 for
//! protocol messages.

use vstd::prelude::*;

use base64::Engine;

use crate::curve::derived_pubkey_of;
use crate::keys::{BlockHash, Keypair, PublicKey};
use crate::serialization::Error;

verus! {

/// The base58 string of a byte string.
pub uninterp spec fn base58_of(bytes: Seq<u8>) -> Seq<char>;

/// What base58 decoding yields: the bytes, or nothing for a rejected string.
pub uninterp spec fn base58_decode_of(s: Seq<char>) -> Option<Seq<u8>>;

/// The standard base64 string of a byte string.
pub uninterp spec fn base64_of(bytes: Seq<u8>) -> Seq<char>;

/// What standard base64 decoding yields: the bytes, or nothing for a
/// rejected string.
pub uninterp spec fn base64_decode_of(s: Seq<char>) -> Option<Seq<u8>>;

/// Relies on bs58's encoder: the string depends on the bytes alone.
#[verifier::external_body]
pub(crate) fn base58_encode(bytes: &Vec<u8>) -> (r: String)
    ensures
        r@ == base58_of(bytes@),
{
    bs58::encode(bytes.as_slice()).into_string()
}

/// Relies on bs58's decoder: which strings it accepts, and the bytes it
/// yields, depend on the string alone.
#[verifier::external_body]
pub(crate) fn base58_decode(s: &str) -> (r: Option<Vec<u8>>)
    ensures
        r matches Some(v) ==> base58_decode_of(s@) == Some(v@),
        r is None ==> base58_decode_of(s@) is None,
{
    bs58::decode(s).into_vec().ok()
}

/// Relies on base64's standard engine: the string depends on the bytes alone.
#[verifier::external_body]
pub(crate) fn base64_encode(bytes: &Vec<u8>) -> (r: String)
    ensures
        r@ == base64_of(bytes@),
{
    base64::engine::general_purpose::STANDARD.encode(bytes.as_slice())
}

/// Relies on base64's standard engine: which strings it accepts, and the
/// bytes it yields, depend on the string alone.
#[verifier::external_body]
pub(crate) fn base64_decode(s: &str) -> (r: Option<Vec<u8>>)
    ensures
        r matches Some(v) ==> base64_decode_of(s@) == Some(v@),
        r is None ==> base64_decode_of(s@) is None,
{
    base64::engine::general_purpose::STANDARD.decode(s).ok()
}

/// Encodes bytes for transport as base64.
pub fn to_base64(bytes: &Vec<u8>) -> (r: String)
    ensures
        r@ == base64_of(bytes@),
{
    base64_encode(bytes)
}

/// Decodes a base64 transport string.
pub fn from_base64(s: &str) -> (r: Result<Vec<u8>, Error>)
    ensures
        base64_decode_of(s@) matches Some(b) ==> (r matches Ok(v) && v@ == b),
        base64_decode_of(s@) is None ==> (r matches Err(e) && e == Error::BadBase64),
{
    match base64_decode(s) {
        Some(v) => Ok(v),
        None => Err(Error::BadBase64),
    }
}

/// The base58 form of a public key.
pub fn encode_pubkey(key: &PublicKey) -> (r: String)
    ensures
        r@ == base58_of(key@),
{
    base58_encode(key.as_bytes())
}

/// Parses a base58 public key: the string must decode, to exactly 32 bytes.
pub fn parse_pubkey(s: &str) -> (r: Result<PublicKey, Error>)
    ensures
        match base58_decode_of(s@) {
            Some(b) => {
                if b.len() == 32 {
                    r matches Ok(k) && k@ == b
                } else {
                    r matches Err(e) && e == Error::InvalidPubkey
                }
            },
            None => r matches Err(e) && e == Error::BadBase58,
        },
{
    match base58_decode(s) {
        Some(v) => PublicKey::from_bytes(v),
        None => Err(Error::BadBase58),
    }
}

/// Parses a base58 keypair: the string must decode, to 64 bytes whose second
/// half is the public key derived from the first half.
pub fn parse_keypair(s: &str) -> (r: Result<Keypair, Error>)
    ensures
        match base58_decode_of(s@) {
            Some(b) => {
                if b.len() == 64 && b.subrange(32, 64) == derived_pubkey_of(b.subrange(0, 32)) {
                    r matches Ok(k) && k@ == b
                } else {
                    r matches Err(e) && e == Error::WrongKeyPair
                }
            },
            None => r matches Err(e) && e == Error::BadBase58,
        },
{
    match base58_decode(s) {
        Some(v) => Keypair::from_bytes(v),
        None => Err(Error::BadBase58),
    }
}

/// The base58 form of a keypair.
pub fn encode_keypair(keypair: &Keypair) -> (r: String)
    ensures
        r@ == base58_of(keypair@),
{
    base58_encode(keypair.as_bytes())
}

/// Parses a base58 block reference: the string must decode, to exactly 32
/// bytes.
pub fn parse_block_hash(s: &str) -> (r: Result<BlockHash, Error>)
    ensures
        match base58_decode_of(s@) {
            Some(b) => {
                if b.len() == 32 {
                    r matches Ok(h) && h@ == b
                } else {
                    r matches Err(e) && e == Error::InvalidBlockHash
                }
            },
            None => r matches Err(e) && e == Error::BadBase58,
        },
{
    match base58_decode(s) {
        Some(v) => BlockHash::from_bytes(v),
        None => Err(Error::BadBase58),
    }
}

} // verus!
