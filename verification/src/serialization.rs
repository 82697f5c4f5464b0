//! Protocol messages and their fixed-layout byte encodings.
//!
//! Each message is a flat concatenation of fixed-width fields: the sender
//! identity and each curve value in its canonical 32-byte compressed form.
//! The compressed-point width used throughout is 32 bytes, and every decoder's
//! length guard equals the exact sum of the field widths it reads; a buffer
//! shorter than that sum is rejected as [`Error::BufferTooShort`], and bytes
//! the curve library rejects are reported as [`Error::InvalidPoint`] or
//! [`Error::InvalidScalar`].

use vstd::prelude::*;
use vstd::slice::slice_to_vec;

use crate::curve::{is_point, is_scalar, point_check, scalar_check};
use crate::keys::{CurvePoint, PublicKey, SecretScalar};
use crate::util::{bytes_eq, push_all};

verus! {

/// Everything that can go wrong in the signing protocol and its codecs.
#[derive(Clone, Copy, Debug, PartialEq, Eq, Structural)]
pub enum Error {
    /// A base58 string could not be decoded.
    BadBase58,
    /// A base64 string could not be decoded.
    BadBase64,
    /// A keypair byte string was rejected by the curve library.
    WrongKeyPair,
    /// The set of first-round messages does not match the participant set.
    MismatchMessages,
    /// The combined signature does not verify over the transaction message.
    InvalidSignature,
    /// The local keypair's public key is absent from the participant set.
    KeyPairIsNotInKeys,
    /// Bytes that should encode a curve point were rejected.
    InvalidPoint,
    /// Bytes that should encode a scalar were rejected.
    InvalidScalar,
    /// A buffer is shorter than the message layout requires.
    BufferTooShort,
    /// A public key is not 32 bytes, or cannot serve as one.
    InvalidPubkey,
    /// A block reference is not 32 bytes.
    InvalidBlockHash,
}

impl Error {
    /// A fixed description of the failure, for the transport layer to relay.
    pub fn message(&self) -> &'static str {
        match self {
            Error::BadBase58 => "base58 decoding failed",
            Error::BadBase64 => "base64 decoding failed",
            Error::WrongKeyPair => "failed deserializing keypair",
            Error::MismatchMessages => "there is a mismatch between the messages and the participants",
            Error::InvalidSignature => "the resulting signature doesn't match the transaction",
            Error::KeyPairIsNotInKeys => "the provided keypair is not in the list of pubkeys",
            Error::InvalidPoint => "invalid point",
            Error::InvalidScalar => "invalid scalar",
            Error::BufferTooShort => "buffer too short",
            Error::InvalidPubkey => "invalid public key",
            Error::InvalidBlockHash => "invalid block hash",
        }
    }
}

/// Byte length of the round-1 broadcast message.
pub const AGG_MESSAGE1_LEN: usize = 96;

/// Byte length of the round-1 secret bundle.
pub const SECRET_AGG_STEP_ONE_LEN: usize = 128;

/// Byte length of a partial signature.
pub const PARTIAL_SIGNATURE_LEN: usize = 64;

/// A type with a canonical flat byte encoding, appended to a caller's buffer.
pub trait Serialize {
    /// The exact bytes that `serialize` appends.
    spec fn spec_serialized(&self) -> Seq<u8>;

    /// Appends this value's encoding to `buffer`.
    fn serialize(&self, buffer: &mut Vec<u8>)
        ensures
            final(buffer)@ == old(buffer)@ + self.spec_serialized(),
    ;
}

/// A type recoverable from the prefix of a byte buffer.
pub trait Deserialize: Sized + View {
    /// Whether the buffer starts with a well-formed encoding.
    spec fn decode_ok(buffer: Seq<u8>) -> bool;

    /// The decoded value, when the buffer is well-formed.
    spec fn decode_value(buffer: Seq<u8>) -> Self::V;

    /// The error reported, when the buffer is not well-formed.
    spec fn decode_err(buffer: Seq<u8>) -> Error;

    /// Decodes the buffer's prefix, rejecting a buffer shorter than the
    /// exact sum of the field widths read.
    fn deserialize(buffer: &[u8]) -> (r: Result<Self, Error>)
        ensures
            Self::decode_ok(buffer@) ==> (r matches Ok(m) && m@ == Self::decode_value(buffer@)),
            !Self::decode_ok(buffer@) ==> (r matches Err(e) && e == Self::decode_err(buffer@)),
    ;
}

/// The two public nonce points one signer commits to in round 1.
#[derive(Debug)]
pub struct PublicPartialNonces {
    /// The first nonce point.
    pub first: CurvePoint,
    /// The second nonce point.
    pub second: CurvePoint,
}

/// Ghost image of [`PublicPartialNonces`]: the two compressed points.
#[verifier::ext_equal]
pub ghost struct PublicPartialNoncesView {
    pub first: Seq<u8>,
    pub second: Seq<u8>,
}

impl View for PublicPartialNonces {
    type V = PublicPartialNoncesView;

    open spec fn view(&self) -> PublicPartialNoncesView {
        PublicPartialNoncesView { first: self.first@, second: self.second@ }
    }
}

/// The two secret nonce scalars matching a round-1 commitment.
#[derive(Debug)]
pub struct PrivatePartialNonces {
    /// The scalar behind the first nonce point.
    pub first: SecretScalar,
    /// The scalar behind the second nonce point.
    pub second: SecretScalar,
}

/// Ghost image of [`PrivatePartialNonces`]: the two scalar encodings.
#[verifier::ext_equal]
pub ghost struct PrivatePartialNoncesView {
    pub first: Seq<u8>,
    pub second: Seq<u8>,
}

impl View for PrivatePartialNonces {
    type V = PrivatePartialNoncesView;

    open spec fn view(&self) -> PrivatePartialNoncesView {
        PrivatePartialNoncesView { first: self.first@, second: self.second@ }
    }
}

/// The round-1 broadcast message: the sender and its two public nonce points.
#[derive(Debug)]
pub struct AggMessage1 {
    /// The public key of the signer that committed these nonces.
    pub sender: PublicKey,
    /// The sender's two public nonce points.
    pub public_nonces: PublicPartialNonces,
}

/// Ghost image of [`AggMessage1`].
#[verifier::ext_equal]
pub ghost struct AggMessage1View {
    pub sender: Seq<u8>,
    pub public_nonces: PublicPartialNoncesView,
}

impl View for AggMessage1 {
    type V = AggMessage1View;

    open spec fn view(&self) -> AggMessage1View {
        AggMessage1View { sender: self.sender@, public_nonces: self.public_nonces@ }
    }
}

/// The round-1 secret bundle: the secret nonce scalars and their public
/// points, handed back to the caller and resubmitted verbatim at round 2.
#[derive(Debug)]
pub struct SecretAggStepOne {
    /// The two secret nonce scalars; they must be used for at most one
    /// round-2 computation and then discarded.
    pub private_nonces: PrivatePartialNonces,
    /// The two public points matching `private_nonces`.
    pub public_nonces: PublicPartialNonces,
}

/// Ghost image of [`SecretAggStepOne`].
#[verifier::ext_equal]
pub ghost struct SecretAggStepOneView {
    pub private_nonces: PrivatePartialNoncesView,
    pub public_nonces: PublicPartialNoncesView,
}

impl View for SecretAggStepOne {
    type V = SecretAggStepOneView;

    open spec fn view(&self) -> SecretAggStepOneView {
        SecretAggStepOneView { private_nonces: self.private_nonces@, public_nonces: self.public_nonces@ }
    }
}

/// One signer's 64-byte contribution to the final signature: the combined
/// nonce point followed by the signer's partial scalar.
#[derive(Debug)]
pub struct PartialSignature {
    bytes: Vec<u8>,
}

impl View for PartialSignature {
    type V = Seq<u8>;

    closed spec fn view(&self) -> Seq<u8> {
        self.bytes@
    }
}

impl PartialSignature {
    #[verifier::type_invariant]
    spec fn inv(self) -> bool {
        self.bytes@.len() == 64
    }

    /// Accepts exactly 64 bytes.
    pub fn from_bytes(bytes: Vec<u8>) -> (r: Result<PartialSignature, Error>)
        ensures
            bytes@.len() == 64 ==> (r matches Ok(s) && s@ == bytes@),
            bytes@.len() != 64 ==> (r matches Err(e) && e == Error::BufferTooShort),
    {
        if bytes.len() == 64 {
            Ok(PartialSignature { bytes })
        } else {
            Err(Error::BufferTooShort)
        }
    }

    pub(crate) fn from_raw(bytes: Vec<u8>) -> (r: PartialSignature)
        requires
            bytes@.len() == 64,
        ensures
            r@ == bytes@,
    {
        PartialSignature { bytes }
    }

    pub fn as_bytes(&self) -> (r: &Vec<u8>)
        ensures
            r@ == self@,
            self@.len() == 64,
    {
        proof {
            use_type_invariant(self);
        }
        &self.bytes
    }
}

impl PartialEq for PartialSignature {
    fn eq(&self, other: &PartialSignature) -> (r: bool) {
        bytes_eq(&self.bytes, &other.bytes)
    }
}

impl Eq for PartialSignature {

}

impl vstd::std_specs::cmp::PartialEqSpecImpl for PartialSignature {
    open spec fn obeys_eq_spec() -> bool {
        true
    }

    open spec fn eq_spec(&self, other: &PartialSignature) -> bool {
        self@ == other@
    }
}

impl Serialize for AggMessage1 {
    open spec fn spec_serialized(&self) -> Seq<u8> {
        self.sender@ + self.public_nonces.first@ + self.public_nonces.second@
    }

    fn serialize(&self, buffer: &mut Vec<u8>) {
        push_all(buffer, self.sender.as_bytes());
        push_all(buffer, self.public_nonces.first.as_bytes());
        push_all(buffer, self.public_nonces.second.as_bytes());
        proof {
            assert(buffer@ =~= old(buffer)@ + self.spec_serialized());
        }
    }
}

impl Deserialize for AggMessage1 {
    open spec fn decode_ok(buffer: Seq<u8>) -> bool {
        &&& buffer.len() >= 96
        &&& is_point(buffer.subrange(32, 64))
        &&& is_point(buffer.subrange(64, 96))
    }

    open spec fn decode_value(buffer: Seq<u8>) -> AggMessage1View {
        AggMessage1View {
            sender: buffer.subrange(0, 32),
            public_nonces: PublicPartialNoncesView {
                first: buffer.subrange(32, 64),
                second: buffer.subrange(64, 96),
            },
        }
    }

    open spec fn decode_err(buffer: Seq<u8>) -> Error {
        if buffer.len() < 96 {
            Error::BufferTooShort
        } else {
            Error::InvalidPoint
        }
    }

    fn deserialize(buffer: &[u8]) -> (r: Result<Self, Error>) {
        if buffer.len() < 96 {
            return Err(Error::BufferTooShort);
        }
        let sender_bytes = slice_to_vec(&buffer[0..32]);
        let first_bytes = slice_to_vec(&buffer[32..64]);
        let second_bytes = slice_to_vec(&buffer[64..96]);
        if !point_check(&first_bytes) {
            return Err(Error::InvalidPoint);
        }
        if !point_check(&second_bytes) {
            return Err(Error::InvalidPoint);
        }
        Ok(
            AggMessage1 {
                sender: PublicKey::from_raw(sender_bytes),
                public_nonces: PublicPartialNonces {
                    first: CurvePoint::from_raw(first_bytes),
                    second: CurvePoint::from_raw(second_bytes),
                },
            },
        )
    }
}

impl Serialize for SecretAggStepOne {
    open spec fn spec_serialized(&self) -> Seq<u8> {
        self.private_nonces.first@ + self.private_nonces.second@ + self.public_nonces.first@
            + self.public_nonces.second@
    }

    fn serialize(&self, buffer: &mut Vec<u8>) {
        push_all(buffer, self.private_nonces.first.as_bytes());
        push_all(buffer, self.private_nonces.second.as_bytes());
        push_all(buffer, self.public_nonces.first.as_bytes());
        push_all(buffer, self.public_nonces.second.as_bytes());
        proof {
            assert(buffer@ =~= old(buffer)@ + self.spec_serialized());
        }
    }
}

impl Deserialize for SecretAggStepOne {
    open spec fn decode_ok(buffer: Seq<u8>) -> bool {
        &&& buffer.len() >= 128
        &&& is_scalar(buffer.subrange(0, 32))
        &&& is_scalar(buffer.subrange(32, 64))
        &&& is_point(buffer.subrange(64, 96))
        &&& is_point(buffer.subrange(96, 128))
    }

    open spec fn decode_value(buffer: Seq<u8>) -> SecretAggStepOneView {
        SecretAggStepOneView {
            private_nonces: PrivatePartialNoncesView {
                first: buffer.subrange(0, 32),
                second: buffer.subrange(32, 64),
            },
            public_nonces: PublicPartialNoncesView {
                first: buffer.subrange(64, 96),
                second: buffer.subrange(96, 128),
            },
        }
    }

    open spec fn decode_err(buffer: Seq<u8>) -> Error {
        if buffer.len() < 128 {
            Error::BufferTooShort
        } else if !is_scalar(buffer.subrange(0, 32)) || !is_scalar(buffer.subrange(32, 64)) {
            Error::InvalidScalar
        } else {
            Error::InvalidPoint
        }
    }

    fn deserialize(buffer: &[u8]) -> (r: Result<Self, Error>) {
        if buffer.len() < 128 {
            return Err(Error::BufferTooShort);
        }
        let k_first = slice_to_vec(&buffer[0..32]);
        let k_second = slice_to_vec(&buffer[32..64]);
        let r_first = slice_to_vec(&buffer[64..96]);
        let r_second = slice_to_vec(&buffer[96..128]);
        if !scalar_check(&k_first) || !scalar_check(&k_second) {
            return Err(Error::InvalidScalar);
        }
        if !point_check(&r_first) || !point_check(&r_second) {
            return Err(Error::InvalidPoint);
        }
        Ok(
            SecretAggStepOne {
                private_nonces: PrivatePartialNonces {
                    first: SecretScalar::from_raw(k_first),
                    second: SecretScalar::from_raw(k_second),
                },
                public_nonces: PublicPartialNonces {
                    first: CurvePoint::from_raw(r_first),
                    second: CurvePoint::from_raw(r_second),
                },
            },
        )
    }
}

impl Serialize for PartialSignature {
    open spec fn spec_serialized(&self) -> Seq<u8> {
        self@
    }

    fn serialize(&self, buffer: &mut Vec<u8>) {
        push_all(buffer, self.as_bytes());
    }
}

impl Deserialize for PartialSignature {
    open spec fn decode_ok(buffer: Seq<u8>) -> bool {
        buffer.len() >= 64
    }

    open spec fn decode_value(buffer: Seq<u8>) -> Seq<u8> {
        buffer.subrange(0, 64)
    }

    open spec fn decode_err(buffer: Seq<u8>) -> Error {
        Error::BufferTooShort
    }

    fn deserialize(buffer: &[u8]) -> (r: Result<Self, Error>) {
        if buffer.len() < 64 {
            return Err(Error::BufferTooShort);
        }
        Ok(PartialSignature { bytes: slice_to_vec(&buffer[0..64]) })
    }
}

/// Well-formedness of a ghost round-1 message: field widths and point
/// validity, as every value of the exec type maintains them.
pub open spec fn agg_message1_wf(m: AggMessage1) -> bool {
    &&& m.sender@.len() == 32
    &&& m.public_nonces.first@.len() == 32
    &&& m.public_nonces.second@.len() == 32
    &&& is_point(m.public_nonces.first@)
    &&& is_point(m.public_nonces.second@)
}

/// Well-formedness of a ghost round-1 secret bundle.
pub open spec fn secret_agg_step_one_wf(m: SecretAggStepOne) -> bool {
    &&& m.private_nonces.first@.len() == 32
    &&& m.private_nonces.second@.len() == 32
    &&& m.public_nonces.first@.len() == 32
    &&& m.public_nonces.second@.len() == 32
    &&& is_scalar(m.private_nonces.first@)
    &&& is_scalar(m.private_nonces.second@)
    &&& is_point(m.public_nonces.first@)
    &&& is_point(m.public_nonces.second@)
}

/// Round trip for the round-1 broadcast message: decoding an encoded message
/// recovers it exactly, and the encoding's length equals the exact byte count
/// the decoder requires.
pub proof fn lemma_agg_message1_round_trip(m: AggMessage1)
    requires
        agg_message1_wf(m),
    ensures
        m.spec_serialized().len() == AGG_MESSAGE1_LEN,
        AggMessage1::decode_ok(m.spec_serialized()),
        AggMessage1::decode_value(m.spec_serialized()) == m@,
{
    let s = m.spec_serialized();
    assert(s.subrange(0, 32) =~= m.sender@);
    assert(s.subrange(32, 64) =~= m.public_nonces.first@);
    assert(s.subrange(64, 96) =~= m.public_nonces.second@);
    assert(AggMessage1::decode_value(s) =~~= m@);
}

/// Round trip for the round-1 secret bundle.
pub proof fn lemma_secret_agg_step_one_round_trip(m: SecretAggStepOne)
    requires
        secret_agg_step_one_wf(m),
    ensures
        m.spec_serialized().len() == SECRET_AGG_STEP_ONE_LEN,
        SecretAggStepOne::decode_ok(m.spec_serialized()),
        SecretAggStepOne::decode_value(m.spec_serialized()) == m@,
{
    let s = m.spec_serialized();
    assert(s.subrange(0, 32) =~= m.private_nonces.first@);
    assert(s.subrange(32, 64) =~= m.private_nonces.second@);
    assert(s.subrange(64, 96) =~= m.public_nonces.first@);
    assert(s.subrange(96, 128) =~= m.public_nonces.second@);
    assert(SecretAggStepOne::decode_value(s) =~~= m@);
}

/// Round trip for a partial signature.
pub proof fn lemma_partial_signature_round_trip(m: PartialSignature)
    requires
        m@.len() == 64,
    ensures
        m.spec_serialized().len() == PARTIAL_SIGNATURE_LEN,
        PartialSignature::decode_ok(m.spec_serialized()),
        PartialSignature::decode_value(m.spec_serialized()) == m@,
{
    assert(m.spec_serialized().subrange(0, 64) =~= m@);
}

} // verus!
