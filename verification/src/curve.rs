//! Trusted boundary to the curve-arithmetic and hashing primitives.
//!
//! The signing protocol treats the Ed25519 group as an opaque primitive: every
//! scalar and every compressed point is carried as plain bytes, and each group
//! operation is performed by an outside library behind a small wrapper here.
//! Each wrapper's contract names the result as a function of the input bytes;
//! the protocol logic in the rest of the crate is verified against those names.

use vstd::prelude::*;

use curve25519_dalek::constants::ED25519_BASEPOINT_TABLE;
use curve25519_dalek::edwards::CompressedEdwardsY;
use curve25519_dalek::scalar::Scalar as DalekScalar;
use sha2::Digest;
use solana_sdk::signature::Keypair as SolKeypair;
use solana_sdk::signature::Signature as SolSignature;
use solana_sdk::signer::Signer;

verus! {

/// The SHA-512 digest of a byte string.
pub uninterp spec fn sha512_of(input: Seq<u8>) -> Seq<u8>;

/// The 32-byte little-endian integer reduced modulo the Ed25519 group order.
pub uninterp spec fn reduce32_of(bytes: Seq<u8>) -> Seq<u8>;

/// The 64-byte little-endian integer reduced modulo the Ed25519 group order.
pub uninterp spec fn wide_reduce_of(bytes: Seq<u8>) -> Seq<u8>;

/// The sum of two scalars modulo the group order, over their byte encodings.
pub uninterp spec fn scalar_add_of(a: Seq<u8>, b: Seq<u8>) -> Seq<u8>;

/// The product of two scalars modulo the group order, over their byte encodings.
pub uninterp spec fn scalar_mul_of(a: Seq<u8>, b: Seq<u8>) -> Seq<u8>;

/// Whether 32 bytes decompress to a point of the curve.
pub uninterp spec fn is_point(bytes: Seq<u8>) -> bool;

/// Whether 32 bytes are the canonical encoding of a scalar below the group order.
pub uninterp spec fn is_scalar(bytes: Seq<u8>) -> bool;

/// The compressed sum of two curve points given in compressed form.
pub uninterp spec fn point_add_of(a: Seq<u8>, b: Seq<u8>) -> Seq<u8>;

/// The compressed product of a scalar and a curve point given in compressed form.
pub uninterp spec fn point_mul_of(scalar: Seq<u8>, point: Seq<u8>) -> Seq<u8>;

/// The compressed product of a scalar and the Ed25519 base point.
pub uninterp spec fn base_mul_of(scalar: Seq<u8>) -> Seq<u8>;

/// The Ed25519 public key that key generation derives from a 32-byte seed.
pub uninterp spec fn derived_pubkey_of(seed: Seq<u8>) -> Seq<u8>;

/// The Ed25519 signature over a message under a 64-byte keypair.
pub uninterp spec fn ed25519_sign_of(keypair: Seq<u8>, message: Seq<u8>) -> Seq<u8>;

/// Whether a 64-byte signature verifies over a message under a 32-byte public key.
pub uninterp spec fn sig_verifies_of(signature: Seq<u8>, pubkey: Seq<u8>, message: Seq<u8>) -> bool;

/// Relies on sha2's `Sha512::digest`: the digest depends on the input bytes
/// alone and is always 64 bytes long.
#[verifier::external_body]
pub(crate) fn sha512(input: &Vec<u8>) -> (r: Vec<u8>)
    ensures
        r@ == sha512_of(input@),
        r@.len() == 64,
{
    sha2::Sha512::digest(input.as_slice()).to_vec()
}

/// Relies on curve25519-dalek's `Scalar::from_bytes_mod_order`: the result
/// depends on the input alone, is 32 bytes, and is a canonical scalar encoding.
#[verifier::external_body]
pub(crate) fn reduce32(bytes: &Vec<u8>) -> (r: Vec<u8>)
    requires
        bytes@.len() == 32,
    ensures
        r@ == reduce32_of(bytes@),
        r@.len() == 32,
        is_scalar(r@),
{
    let mut arr = [0u8; 32];
    arr.copy_from_slice(bytes.as_slice());
    DalekScalar::from_bytes_mod_order(arr).to_bytes().to_vec()
}

/// Relies on curve25519-dalek's `Scalar::from_bytes_mod_order_wide`: the result
/// depends on the input alone, is 32 bytes, and is a canonical scalar encoding.
#[verifier::external_body]
pub(crate) fn wide_reduce(bytes: &Vec<u8>) -> (r: Vec<u8>)
    requires
        bytes@.len() == 64,
    ensures
        r@ == wide_reduce_of(bytes@),
        r@.len() == 32,
        is_scalar(r@),
{
    let mut arr = [0u8; 64];
    arr.copy_from_slice(bytes.as_slice());
    DalekScalar::from_bytes_mod_order_wide(&arr).to_bytes().to_vec()
}

/// Relies on curve25519-dalek's scalar addition: the reduced sum depends on the
/// operands alone and its encoding is canonical.
#[verifier::external_body]
pub(crate) fn scalar_sum(a: &Vec<u8>, b: &Vec<u8>) -> (r: Vec<u8>)
    requires
        a@.len() == 32,
        b@.len() == 32,
    ensures
        r@ == scalar_add_of(a@, b@),
        r@.len() == 32,
        is_scalar(r@),
{
    let mut aa = [0u8; 32];
    aa.copy_from_slice(a.as_slice());
    let mut bb = [0u8; 32];
    bb.copy_from_slice(b.as_slice());
    let s = DalekScalar::from_bytes_mod_order(aa) + DalekScalar::from_bytes_mod_order(bb);
    s.to_bytes().to_vec()
}

/// Relies on curve25519-dalek's scalar multiplication: the reduced product
/// depends on the operands alone and its encoding is canonical.
#[verifier::external_body]
pub(crate) fn scalar_product(a: &Vec<u8>, b: &Vec<u8>) -> (r: Vec<u8>)
    requires
        a@.len() == 32,
        b@.len() == 32,
    ensures
        r@ == scalar_mul_of(a@, b@),
        r@.len() == 32,
        is_scalar(r@),
{
    let mut aa = [0u8; 32];
    aa.copy_from_slice(a.as_slice());
    let mut bb = [0u8; 32];
    bb.copy_from_slice(b.as_slice());
    let s = DalekScalar::from_bytes_mod_order(aa) * DalekScalar::from_bytes_mod_order(bb);
    s.to_bytes().to_vec()
}

/// Relies on curve25519-dalek's `CompressedEdwardsY::decompress`: whether it
/// accepts the encoding depends on the bytes alone.
#[verifier::external_body]
pub(crate) fn point_check(bytes: &Vec<u8>) -> (r: bool)
    requires
        bytes@.len() == 32,
    ensures
        r == is_point(bytes@),
{
    CompressedEdwardsY::from_slice(bytes.as_slice()).decompress().is_some()
}

/// Relies on curve25519-dalek's `Scalar::from_canonical_bytes`: whether the
/// encoding is canonical depends on the bytes alone.
#[verifier::external_body]
pub(crate) fn scalar_check(bytes: &Vec<u8>) -> (r: bool)
    requires
        bytes@.len() == 32,
    ensures
        r == is_scalar(bytes@),
{
    let mut arr = [0u8; 32];
    arr.copy_from_slice(bytes.as_slice());
    DalekScalar::from_canonical_bytes(arr).is_some()
}

/// Relies on curve25519-dalek's Edwards point addition and compression: the
/// compressed sum depends on the operands alone and decompresses again.
#[verifier::external_body]
pub(crate) fn point_sum(a: &Vec<u8>, b: &Vec<u8>) -> (r: Vec<u8>)
    requires
        a@.len() == 32,
        b@.len() == 32,
        is_point(a@),
        is_point(b@),
    ensures
        r@ == point_add_of(a@, b@),
        r@.len() == 32,
        is_point(r@),
{
    let pa = CompressedEdwardsY::from_slice(a.as_slice()).decompress().unwrap();
    let pb = CompressedEdwardsY::from_slice(b.as_slice()).decompress().unwrap();
    (pa + pb).compress().to_bytes().to_vec()
}

/// Relies on curve25519-dalek's scalar-times-point multiplication and
/// compression: the compressed product depends on the operands alone and
/// decompresses again.
#[verifier::external_body]
pub(crate) fn point_scale(scalar: &Vec<u8>, point: &Vec<u8>) -> (r: Vec<u8>)
    requires
        scalar@.len() == 32,
        point@.len() == 32,
        is_point(point@),
    ensures
        r@ == point_mul_of(scalar@, point@),
        r@.len() == 32,
        is_point(r@),
{
    let mut arr = [0u8; 32];
    arr.copy_from_slice(scalar.as_slice());
    let s = DalekScalar::from_bytes_mod_order(arr);
    let p = CompressedEdwardsY::from_slice(point.as_slice()).decompress().unwrap();
    (&s * &p).compress().to_bytes().to_vec()
}

/// Relies on curve25519-dalek's base-point multiplication table: the compressed
/// product depends on the scalar alone and decompresses again.
#[verifier::external_body]
pub(crate) fn base_point_mul(scalar: &Vec<u8>) -> (r: Vec<u8>)
    requires
        scalar@.len() == 32,
    ensures
        r@ == base_mul_of(scalar@),
        r@.len() == 32,
        is_point(r@),
{
    let mut arr = [0u8; 32];
    arr.copy_from_slice(scalar.as_slice());
    let s = DalekScalar::from_bytes_mod_order(arr);
    (&ED25519_BASEPOINT_TABLE * &s).compress().to_bytes().to_vec()
}

/// Relies on rand's `random`: nothing is promised of the drawn bytes beyond
/// their count.
#[verifier::external_body]
pub(crate) fn random_bytes_64() -> (r: Vec<u8>)
    ensures
        r@.len() == 64,
{
    let a: [u8; 32] = rand::random();
    let b: [u8; 32] = rand::random();
    let mut v = a.to_vec();
    v.extend_from_slice(&b);
    v
}

/// Relies on solana-sdk's `Keypair::new`: every generated keypair is 64 bytes,
/// and its second half is the public key derived from its 32-byte seed.
#[verifier::external_body]
pub(crate) fn generate_keypair_bytes() -> (r: Vec<u8>)
    ensures
        r@.len() == 64,
        r@.subrange(32, 64) == derived_pubkey_of(r@.subrange(0, 32)),
{
    SolKeypair::new().to_bytes().to_vec()
}

/// Relies on solana-sdk's `Keypair::try_from`: it accepts exactly the 64-byte
/// strings whose second half is the public key derived from the first half.
#[verifier::external_body]
pub(crate) fn keypair_check(bytes: &Vec<u8>) -> (r: bool)
    ensures
        r == (bytes@.len() == 64 && bytes@.subrange(32, 64) == derived_pubkey_of(
            bytes@.subrange(0, 32),
        )),
{
    SolKeypair::try_from(bytes.as_slice()).is_ok()
}

/// Relies on solana-sdk's `Keypair::sign_message` (Ed25519 signing, which is
/// deterministic): the 64-byte signature depends on the keypair and the
/// message alone.
#[verifier::external_body]
pub(crate) fn sign_with_keypair(keypair: &Vec<u8>, message: &Vec<u8>) -> (r: Vec<u8>)
    requires
        keypair@.len() == 64,
        keypair@.subrange(32, 64) == derived_pubkey_of(keypair@.subrange(0, 32)),
    ensures
        r@ == ed25519_sign_of(keypair@, message@),
        r@.len() == 64,
{
    let kp = SolKeypair::try_from(keypair.as_slice()).unwrap();
    kp.sign_message(message.as_slice()).as_ref().to_vec()
}

/// Relies on solana-sdk's `Signature::verify`: whether a signature verifies
/// depends on the signature, the public key, and the message alone.
#[verifier::external_body]
pub(crate) fn verify_signature_bytes(signature: &Vec<u8>, pubkey: &Vec<u8>, message: &Vec<u8>) -> (r:
    bool)
    requires
        signature@.len() == 64,
        pubkey@.len() == 32,
    ensures
        r == sig_verifies_of(signature@, pubkey@, message@),
{
    let mut arr = [0u8; 64];
    arr.copy_from_slice(signature.as_slice());
    SolSignature::from(arr).verify(pubkey.as_slice(), message.as_slice())
}

} // verus!
