//! Determinism, sensitivity, and input validation of key aggregation.

use mpc_signer::keyagg::key_agg;
use mpc_signer::keys::{CurvePoint, Keypair, PublicKey};
use mpc_signer::serialization::Error;

fn non_point_bytes() -> Vec<u8> {
    for i in 0u16..=255 {
        let candidate = vec![i as u8; 32];
        if CurvePoint::from_bytes(candidate.clone()).is_err() {
            return candidate;
        }
    }
    panic!("no rejected encoding found");
}

#[test]
fn aggregation_is_deterministic() {
    let kp_a = Keypair::generate();
    let kp_b = Keypair::generate();
    let first = key_agg(&vec![kp_a.public_key(), kp_b.public_key()], None).unwrap();
    let second = key_agg(&vec![kp_a.public_key(), kp_b.public_key()], None).unwrap();
    assert_eq!(first.as_bytes(), second.as_bytes());
}

#[test]
fn aggregation_depends_on_every_key() {
    let kp_a = Keypair::generate();
    let kp_b = Keypair::generate();
    let kp_c = Keypair::generate();
    let ab = key_agg(&vec![kp_a.public_key(), kp_b.public_key()], None).unwrap();
    let ac = key_agg(&vec![kp_a.public_key(), kp_c.public_key()], None).unwrap();
    let cb = key_agg(&vec![kp_c.public_key(), kp_b.public_key()], None).unwrap();
    assert_ne!(ab.as_bytes(), ac.as_bytes());
    assert_ne!(ab.as_bytes(), cb.as_bytes());
    // No input key survives as the aggregate.
    assert_ne!(ab.as_bytes(), kp_a.public_key().as_bytes());
    assert_ne!(ab.as_bytes(), kp_b.public_key().as_bytes());
}

#[test]
fn aggregation_depends_on_order() {
    let kp_a = Keypair::generate();
    let kp_b = Keypair::generate();
    let ab = key_agg(&vec![kp_a.public_key(), kp_b.public_key()], None).unwrap();
    let ba = key_agg(&vec![kp_b.public_key(), kp_a.public_key()], None).unwrap();
    assert_ne!(ab.as_bytes(), ba.as_bytes());
}

#[test]
fn primary_key_changes_the_aggregate() {
    let kp_a = Keypair::generate();
    let kp_b = Keypair::generate();
    let plain = key_agg(&vec![kp_a.public_key(), kp_b.public_key()], None).unwrap();
    let primary = kp_a.public_key();
    let weighted = key_agg(&vec![kp_a.public_key(), kp_b.public_key()], Some(&primary)).unwrap();
    assert_ne!(plain.as_bytes(), weighted.as_bytes());
    // The primary choice is deterministic too.
    let again = key_agg(&vec![kp_a.public_key(), kp_b.public_key()], Some(&primary)).unwrap();
    assert_eq!(weighted.as_bytes(), again.as_bytes());
}

#[test]
fn aggregation_rejects_empty_input() {
    assert_eq!(key_agg(&vec![], None).err(), Some(Error::InvalidPubkey));
}

#[test]
fn aggregation_rejects_key_that_is_no_curve_point() {
    let kp_a = Keypair::generate();
    let bad = PublicKey::from_bytes(non_point_bytes()).unwrap();
    let r = key_agg(&vec![kp_a.public_key(), bad], None);
    assert_eq!(r.err(), Some(Error::InvalidPubkey));
}

#[test]
fn aggregation_rejects_primary_that_is_no_curve_point() {
    let kp_a = Keypair::generate();
    let kp_b = Keypair::generate();
    let bad = PublicKey::from_bytes(non_point_bytes()).unwrap();
    let r = key_agg(&vec![kp_a.public_key(), kp_b.public_key()], Some(&bad));
    assert_eq!(r.err(), Some(Error::InvalidPubkey));
}

#[test]
fn public_key_length_is_checked() {
    assert_eq!(
        PublicKey::from_bytes(vec![1u8; 31]).err(),
        Some(Error::InvalidPubkey)
    );
    assert!(PublicKey::from_bytes(vec![1u8; 32]).is_ok());
}
