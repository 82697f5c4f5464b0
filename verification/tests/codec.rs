//! Round trips and rejection cases of the three protocol message codecs.

use mpc_signer::keys::{CurvePoint, Keypair};
use mpc_signer::serialization::{
    AggMessage1, Deserialize, Error, PartialSignature, SecretAggStepOne, Serialize,
    AGG_MESSAGE1_LEN, PARTIAL_SIGNATURE_LEN, SECRET_AGG_STEP_ONE_LEN,
};
use mpc_signer::tss::step_one;

fn non_point_bytes() -> Vec<u8> {
    for i in 0u16..=255 {
        let candidate = vec![i as u8; 32];
        if CurvePoint::from_bytes(candidate.clone()).is_err() {
            return candidate;
        }
    }
    panic!("no rejected encoding found");
}

#[test]
fn agg_message1_round_trip() {
    let kp = Keypair::generate();
    let (msg, _secret) = step_one(&kp);
    let mut buffer = Vec::new();
    msg.serialize(&mut buffer);
    assert_eq!(buffer.len(), AGG_MESSAGE1_LEN);
    let decoded = AggMessage1::deserialize(&buffer).unwrap();
    assert_eq!(decoded.sender.as_bytes(), msg.sender.as_bytes());
    assert_eq!(
        decoded.public_nonces.first.as_bytes(),
        msg.public_nonces.first.as_bytes()
    );
    assert_eq!(
        decoded.public_nonces.second.as_bytes(),
        msg.public_nonces.second.as_bytes()
    );
}

#[test]
fn agg_message1_rejects_short_buffer() {
    let kp = Keypair::generate();
    let (msg, _secret) = step_one(&kp);
    let mut buffer = Vec::new();
    msg.serialize(&mut buffer);
    buffer.pop();
    assert_eq!(
        AggMessage1::deserialize(&buffer).err(),
        Some(Error::BufferTooShort)
    );
    assert_eq!(
        AggMessage1::deserialize(&[]).err(),
        Some(Error::BufferTooShort)
    );
}

#[test]
fn agg_message1_rejects_invalid_point() {
    let kp = Keypair::generate();
    let (msg, _secret) = step_one(&kp);
    let mut buffer = Vec::new();
    msg.serialize(&mut buffer);
    buffer.splice(32..64, non_point_bytes());
    assert_eq!(
        AggMessage1::deserialize(&buffer).err(),
        Some(Error::InvalidPoint)
    );
}

#[test]
fn agg_message1_ignores_trailing_bytes() {
    let kp = Keypair::generate();
    let (msg, _secret) = step_one(&kp);
    let mut buffer = Vec::new();
    msg.serialize(&mut buffer);
    buffer.extend_from_slice(&[0u8; 10]);
    let decoded = AggMessage1::deserialize(&buffer).unwrap();
    assert_eq!(decoded.sender.as_bytes(), msg.sender.as_bytes());
}

#[test]
fn secret_bundle_round_trip() {
    let kp = Keypair::generate();
    let (_msg, secret) = step_one(&kp);
    let mut buffer = Vec::new();
    secret.serialize(&mut buffer);
    assert_eq!(buffer.len(), SECRET_AGG_STEP_ONE_LEN);
    let decoded = SecretAggStepOne::deserialize(&buffer).unwrap();
    assert_eq!(
        decoded.private_nonces.first.as_bytes(),
        secret.private_nonces.first.as_bytes()
    );
    assert_eq!(
        decoded.private_nonces.second.as_bytes(),
        secret.private_nonces.second.as_bytes()
    );
    assert_eq!(
        decoded.public_nonces.first.as_bytes(),
        secret.public_nonces.first.as_bytes()
    );
    assert_eq!(
        decoded.public_nonces.second.as_bytes(),
        secret.public_nonces.second.as_bytes()
    );
}

#[test]
fn secret_bundle_rejects_short_buffer() {
    let kp = Keypair::generate();
    let (_msg, secret) = step_one(&kp);
    let mut buffer = Vec::new();
    secret.serialize(&mut buffer);
    buffer.truncate(SECRET_AGG_STEP_ONE_LEN - 1);
    assert_eq!(
        SecretAggStepOne::deserialize(&buffer).err(),
        Some(Error::BufferTooShort)
    );
}

#[test]
fn secret_bundle_rejects_invalid_scalar() {
    let kp = Keypair::generate();
    let (_msg, secret) = step_one(&kp);
    let mut buffer = Vec::new();
    secret.serialize(&mut buffer);
    // 32 bytes of 0xff exceed the group order, so they are no canonical
    // scalar encoding.
    buffer.splice(0..32, vec![0xffu8; 32]);
    assert_eq!(
        SecretAggStepOne::deserialize(&buffer).err(),
        Some(Error::InvalidScalar)
    );
}

#[test]
fn secret_bundle_rejects_invalid_point() {
    let kp = Keypair::generate();
    let (_msg, secret) = step_one(&kp);
    let mut buffer = Vec::new();
    secret.serialize(&mut buffer);
    buffer.splice(64..96, non_point_bytes());
    assert_eq!(
        SecretAggStepOne::deserialize(&buffer).err(),
        Some(Error::InvalidPoint)
    );
}

#[test]
fn partial_signature_round_trip() {
    let bytes: Vec<u8> = (0u8..64).collect();
    let sig = PartialSignature::from_bytes(bytes.clone()).unwrap();
    let mut buffer = Vec::new();
    sig.serialize(&mut buffer);
    assert_eq!(buffer.len(), PARTIAL_SIGNATURE_LEN);
    assert_eq!(buffer, bytes);
    let decoded = PartialSignature::deserialize(&buffer).unwrap();
    assert_eq!(decoded, sig);
}

#[test]
fn partial_signature_rejects_short_buffer() {
    assert_eq!(
        PartialSignature::deserialize(&[0u8; 63]).err(),
        Some(Error::BufferTooShort)
    );
    assert_eq!(
        PartialSignature::from_bytes(vec![0u8; 63]).err(),
        Some(Error::BufferTooShort)
    );
}

#[test]
fn error_messages_distinguish_the_failures() {
    assert_eq!(Error::BufferTooShort.message(), "buffer too short");
    assert_ne!(
        Error::InvalidSignature.message(),
        Error::InvalidPoint.message()
    );
}
