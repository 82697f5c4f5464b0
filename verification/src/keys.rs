//! Key material and curve values, carried as validated plain bytes.
//!
//! Each type holds the canonical byte encoding of its value and maintains its
//! well-formedness as a type invariant: a `CurvePoint` always decompresses, a
//! `SecretScalar` is always canonical, and a `Keypair`'s second half is always
//! the public key derived from its seed.

use vstd::prelude::*;

use crate::curve;
use crate::curve::{derived_pubkey_of, is_point, is_scalar};
use crate::serialization::Error;
use crate::util::{bytes_eq, copy_range};

verus! {

/// A 32-byte public key, also used as an account address.
///
/// Any 32 bytes are accepted: an address need not lie on the curve, and the
/// key aggregator re-validates its inputs as curve points itself.
#[derive(Debug)]
pub struct PublicKey {
    bytes: Vec<u8>,
}

impl View for PublicKey {
    type V = Seq<u8>;

    closed spec fn view(&self) -> Seq<u8> {
        self.bytes@
    }
}

impl PublicKey {
    #[verifier::type_invariant]
    spec fn inv(self) -> bool {
        self.bytes@.len() == 32
    }

    /// Accepts exactly 32 bytes.
    pub fn from_bytes(bytes: Vec<u8>) -> (r: Result<PublicKey, Error>)
        ensures
            bytes@.len() == 32 ==> (r matches Ok(k) && k@ == bytes@),
            bytes@.len() != 32 ==> (r matches Err(e) && e == Error::InvalidPubkey),
    {
        if bytes.len() == 32 {
            Ok(PublicKey { bytes })
        } else {
            Err(Error::InvalidPubkey)
        }
    }

    pub(crate) fn from_raw(bytes: Vec<u8>) -> (r: PublicKey)
        requires
            bytes@.len() == 32,
        ensures
            r@ == bytes@,
    {
        PublicKey { bytes }
    }

    pub fn as_bytes(&self) -> (r: &Vec<u8>)
        ensures
            r@ == self@,
            self@.len() == 32,
    {
        proof {
            use_type_invariant(self);
        }
        &self.bytes
    }
}

impl PartialEq for PublicKey {
    fn eq(&self, other: &PublicKey) -> (r: bool) {
        bytes_eq(&self.bytes, &other.bytes)
    }
}

impl Eq for PublicKey {

}

impl vstd::std_specs::cmp::PartialEqSpecImpl for PublicKey {
    open spec fn obeys_eq_spec() -> bool {
        true
    }

    open spec fn eq_spec(&self, other: &PublicKey) -> bool {
        self@ == other@
    }
}

/// A 64-byte Ed25519 keypair: a 32-byte secret seed followed by the 32-byte
/// public key derived from it.
#[derive(Debug)]
pub struct Keypair {
    bytes: Vec<u8>,
}

impl View for Keypair {
    type V = Seq<u8>;

    closed spec fn view(&self) -> Seq<u8> {
        self.bytes@
    }
}

impl Keypair {
    #[verifier::type_invariant]
    spec fn inv(self) -> bool {
        self.bytes@.len() == 64 && self.bytes@.subrange(32, 64) == derived_pubkey_of(
            self.bytes@.subrange(0, 32),
        )
    }

    /// Generates a fresh keypair from the system's secure random source.
    pub fn generate() -> (r: Keypair)
        ensures
            r@.len() == 64,
            r@.subrange(32, 64) == derived_pubkey_of(r@.subrange(0, 32)),
    {
        let bytes = curve::generate_keypair_bytes();
        Keypair { bytes }
    }

    /// Accepts exactly the 64-byte strings whose second half is the public key
    /// derived from the first half, as the curve library checks.
    pub fn from_bytes(bytes: Vec<u8>) -> (r: Result<Keypair, Error>)
        ensures
            (bytes@.len() == 64 && bytes@.subrange(32, 64) == derived_pubkey_of(
                bytes@.subrange(0, 32),
            )) ==> (r matches Ok(k) && k@ == bytes@),
            !(bytes@.len() == 64 && bytes@.subrange(32, 64) == derived_pubkey_of(
                bytes@.subrange(0, 32),
            )) ==> (r matches Err(e) && e == Error::WrongKeyPair),
    {
        if curve::keypair_check(&bytes) {
            Ok(Keypair { bytes })
        } else {
            Err(Error::WrongKeyPair)
        }
    }

    /// The public half of the keypair.
    pub fn public_key(&self) -> (r: PublicKey)
        ensures
            r@ == self@.subrange(32, 64),
            self@.len() == 64,
    {
        proof {
            use_type_invariant(self);
        }
        let bytes = copy_range(&self.bytes, 32, 64);
        PublicKey::from_raw(bytes)
    }

    pub fn as_bytes(&self) -> (r: &Vec<u8>)
        ensures
            r@ == self@,
            self@.len() == 64,
            self@.subrange(32, 64) == derived_pubkey_of(self@.subrange(0, 32)),
    {
        proof {
            use_type_invariant(self);
        }
        &self.bytes
    }
}

/// A 32-byte reference to a recent block, pinning a transaction in time.
#[derive(Debug)]
pub struct BlockHash {
    bytes: Vec<u8>,
}

impl View for BlockHash {
    type V = Seq<u8>;

    closed spec fn view(&self) -> Seq<u8> {
        self.bytes@
    }
}

impl BlockHash {
    #[verifier::type_invariant]
    spec fn inv(self) -> bool {
        self.bytes@.len() == 32
    }

    /// Accepts exactly 32 bytes.
    pub fn from_bytes(bytes: Vec<u8>) -> (r: Result<BlockHash, Error>)
        ensures
            bytes@.len() == 32 ==> (r matches Ok(h) && h@ == bytes@),
            bytes@.len() != 32 ==> (r matches Err(e) && e == Error::InvalidBlockHash),
    {
        if bytes.len() == 32 {
            Ok(BlockHash { bytes })
        } else {
            Err(Error::InvalidBlockHash)
        }
    }

    pub fn as_bytes(&self) -> (r: &Vec<u8>)
        ensures
            r@ == self@,
            self@.len() == 32,
    {
        proof {
            use_type_invariant(self);
        }
        &self.bytes
    }
}

/// A compressed curve point that the curve library accepts.
#[derive(Debug)]
pub struct CurvePoint {
    bytes: Vec<u8>,
}

impl View for CurvePoint {
    type V = Seq<u8>;

    closed spec fn view(&self) -> Seq<u8> {
        self.bytes@
    }
}

impl CurvePoint {
    #[verifier::type_invariant]
    spec fn inv(self) -> bool {
        self.bytes@.len() == 32 && is_point(self.bytes@)
    }

    /// Accepts exactly the 32-byte encodings the curve library decompresses.
    pub fn from_bytes(bytes: Vec<u8>) -> (r: Result<CurvePoint, Error>)
        ensures
            (bytes@.len() == 32 && is_point(bytes@)) ==> (r matches Ok(p) && p@ == bytes@),
            !(bytes@.len() == 32 && is_point(bytes@)) ==> (r matches Err(e) && e
                == Error::InvalidPoint),
    {
        if bytes.len() == 32 && curve::point_check(&bytes) {
            Ok(CurvePoint { bytes })
        } else {
            Err(Error::InvalidPoint)
        }
    }

    pub(crate) fn from_raw(bytes: Vec<u8>) -> (r: CurvePoint)
        requires
            bytes@.len() == 32,
            is_point(bytes@),
        ensures
            r@ == bytes@,
    {
        CurvePoint { bytes }
    }

    pub fn as_bytes(&self) -> (r: &Vec<u8>)
        ensures
            r@ == self@,
            self@.len() == 32,
            is_point(self@),
    {
        proof {
            use_type_invariant(self);
        }
        &self.bytes
    }
}

impl PartialEq for CurvePoint {
    fn eq(&self, other: &CurvePoint) -> (r: bool) {
        bytes_eq(&self.bytes, &other.bytes)
    }
}

impl Eq for CurvePoint {

}

impl vstd::std_specs::cmp::PartialEqSpecImpl for CurvePoint {
    open spec fn obeys_eq_spec() -> bool {
        true
    }

    open spec fn eq_spec(&self, other: &CurvePoint) -> bool {
        self@ == other@
    }
}

/// A canonical scalar encoding below the group order.
#[derive(Debug)]
pub struct SecretScalar {
    bytes: Vec<u8>,
}

impl View for SecretScalar {
    type V = Seq<u8>;

    closed spec fn view(&self) -> Seq<u8> {
        self.bytes@
    }
}

impl SecretScalar {
    #[verifier::type_invariant]
    spec fn inv(self) -> bool {
        self.bytes@.len() == 32 && is_scalar(self.bytes@)
    }

    /// Accepts exactly the 32-byte canonical scalar encodings.
    pub fn from_bytes(bytes: Vec<u8>) -> (r: Result<SecretScalar, Error>)
        ensures
            (bytes@.len() == 32 && is_scalar(bytes@)) ==> (r matches Ok(s) && s@ == bytes@),
            !(bytes@.len() == 32 && is_scalar(bytes@)) ==> (r matches Err(e) && e
                == Error::InvalidScalar),
    {
        if bytes.len() == 32 && curve::scalar_check(&bytes) {
            Ok(SecretScalar { bytes })
        } else {
            Err(Error::InvalidScalar)
        }
    }

    pub(crate) fn from_raw(bytes: Vec<u8>) -> (r: SecretScalar)
        requires
            bytes@.len() == 32,
            is_scalar(bytes@),
        ensures
            r@ == bytes@,
    {
        SecretScalar { bytes }
    }

    pub fn as_bytes(&self) -> (r: &Vec<u8>)
        ensures
            r@ == self@,
            self@.len() == 32,
            is_scalar(self@),
    {
        proof {
            use_type_invariant(self);
        }
        &self.bytes
    }
}

impl PartialEq for SecretScalar {
    fn eq(&self, other: &SecretScalar) -> (r: bool) {
        bytes_eq(&self.bytes, &other.bytes)
    }
}

impl Eq for SecretScalar {

}

impl vstd::std_specs::cmp::PartialEqSpecImpl for SecretScalar {
    open spec fn obeys_eq_spec() -> bool {
        true
    }

    open spec fn eq_spec(&self, other: &SecretScalar) -> bool {
        self@ == other@
    }
}

} // verus!
