//! End-to-end runs of the two-round protocol and its failure modes.

use mpc_signer::keyagg::key_agg;
use mpc_signer::keys::{BlockHash, CurvePoint, Keypair, PublicKey};
use mpc_signer::serialization::Error;
use mpc_signer::tss::{combine_and_finalize, step_one, step_two};

fn block_hash() -> BlockHash {
    BlockHash::from_bytes(vec![7u8; 32]).unwrap()
}

fn destination() -> PublicKey {
    PublicKey::from_bytes(vec![3u8; 32]).unwrap()
}

fn keys_of(a: &Keypair, b: &Keypair) -> Vec<PublicKey> {
    vec![a.public_key(), b.public_key()]
}

/// Finds 32 bytes that the curve library rejects as a point encoding.
fn non_point_bytes() -> Vec<u8> {
    for i in 0u16..=255 {
        let candidate = vec![i as u8; 32];
        if CurvePoint::from_bytes(candidate.clone()).is_err() {
            return candidate;
        }
    }
    panic!("no rejected encoding found");
}

#[test]
fn two_party_end_to_end() {
    let kp_a = Keypair::generate();
    let kp_b = Keypair::generate();
    let amount = 1_500_000_000u64;
    let dest = destination();
    let bh = block_hash();
    let agg = key_agg(&keys_of(&kp_a, &kp_b), None).unwrap();

    let (msg_a, secret_a) = step_one(&kp_a);
    let (msg_b, secret_b) = step_one(&kp_b);

    let partial_a = step_two(
        &kp_a,
        amount,
        &dest,
        None,
        &bh,
        &keys_of(&kp_a, &kp_b),
        &vec![msg_b],
        &secret_a,
    )
    .unwrap();
    let partial_b = step_two(
        &kp_b,
        amount,
        &dest,
        None,
        &bh,
        &keys_of(&kp_a, &kp_b),
        &vec![msg_a],
        &secret_b,
    )
    .unwrap();

    let tx = combine_and_finalize(
        amount,
        &dest,
        None,
        &bh,
        &keys_of(&kp_a, &kp_b),
        &vec![partial_a, partial_b],
    )
    .unwrap();

    let mut sig_arr = [0u8; 64];
    sig_arr.copy_from_slice(tx.signature_bytes().as_slice());
    let sig = solana_sdk::signature::Signature::from(sig_arr);
    assert!(sig.verify(agg.as_bytes().as_slice(), tx.message_bytes().as_slice()));
}

#[test]
fn combination_rejects_changed_parameters() {
    let kp_a = Keypair::generate();
    let kp_b = Keypair::generate();
    let amount = 250_000u64;
    let dest = destination();
    let bh = block_hash();

    let (msg_a, secret_a) = step_one(&kp_a);
    let (msg_b, secret_b) = step_one(&kp_b);
    let memo = b"lunch".to_vec();
    let partial_a = step_two(
        &kp_a,
        amount,
        &dest,
        Some(&memo),
        &bh,
        &keys_of(&kp_a, &kp_b),
        &vec![msg_b],
        &secret_a,
    )
    .unwrap();
    let partial_b = step_two(
        &kp_b,
        amount,
        &dest,
        Some(&memo),
        &bh,
        &keys_of(&kp_a, &kp_b),
        &vec![msg_a],
        &secret_b,
    )
    .unwrap();

    // A different amount at combination time must fail verification.
    let r = combine_and_finalize(
        amount + 1,
        &dest,
        Some(&memo),
        &bh,
        &keys_of(&kp_a, &kp_b),
        &vec![partial_a, partial_b],
    );
    assert_eq!(r.err(), Some(Error::InvalidSignature));
}

#[test]
fn combination_rejects_changed_block_reference() {
    let kp_a = Keypair::generate();
    let kp_b = Keypair::generate();
    let amount = 42u64;
    let dest = destination();
    let bh = block_hash();

    let (msg_a, secret_a) = step_one(&kp_a);
    let (msg_b, secret_b) = step_one(&kp_b);
    let partial_a = step_two(
        &kp_a,
        amount,
        &dest,
        None,
        &bh,
        &keys_of(&kp_a, &kp_b),
        &vec![msg_b],
        &secret_a,
    )
    .unwrap();
    let partial_b = step_two(
        &kp_b,
        amount,
        &dest,
        None,
        &bh,
        &keys_of(&kp_a, &kp_b),
        &vec![msg_a],
        &secret_b,
    )
    .unwrap();

    let stale = BlockHash::from_bytes(vec![8u8; 32]).unwrap();
    let r = combine_and_finalize(
        amount,
        &dest,
        None,
        &stale,
        &keys_of(&kp_a, &kp_b),
        &vec![partial_a, partial_b],
    );
    assert_eq!(r.err(), Some(Error::InvalidSignature));
}

#[test]
fn combination_requires_one_signature_per_participant() {
    let kp_a = Keypair::generate();
    let kp_b = Keypair::generate();
    let dest = destination();
    let bh = block_hash();
    let (_msg_a, secret_a) = step_one(&kp_a);
    let (msg_b, _secret_b) = step_one(&kp_b);
    let partial_a = step_two(
        &kp_a,
        5,
        &dest,
        None,
        &bh,
        &keys_of(&kp_a, &kp_b),
        &vec![msg_b],
        &secret_a,
    )
    .unwrap();
    let r = combine_and_finalize(5, &dest, None, &bh, &keys_of(&kp_a, &kp_b), &vec![partial_a]);
    assert_eq!(r.err(), Some(Error::MismatchMessages));
}

#[test]
fn round_two_rejects_keypair_outside_the_set() {
    let kp_a = Keypair::generate();
    let kp_b = Keypair::generate();
    let outsider = Keypair::generate();
    let dest = destination();
    let bh = block_hash();
    let (msg_b, _s) = step_one(&kp_b);
    let (_m, secret) = step_one(&outsider);
    let r = step_two(
        &outsider,
        5,
        &dest,
        None,
        &bh,
        &keys_of(&kp_a, &kp_b),
        &vec![msg_b],
        &secret,
    );
    assert_eq!(r.err(), Some(Error::KeyPairIsNotInKeys));
}

#[test]
fn round_two_rejects_wrong_commitment_count() {
    let kp_a = Keypair::generate();
    let kp_b = Keypair::generate();
    let dest = destination();
    let bh = block_hash();
    let (_m, secret_a) = step_one(&kp_a);
    let r = step_two(
        &kp_a,
        5,
        &dest,
        None,
        &bh,
        &keys_of(&kp_a, &kp_b),
        &vec![],
        &secret_a,
    );
    assert_eq!(r.err(), Some(Error::MismatchMessages));
}

#[test]
fn round_two_rejects_own_commitment_as_peer() {
    let kp_a = Keypair::generate();
    let kp_b = Keypair::generate();
    let dest = destination();
    let bh = block_hash();
    let (msg_a, secret_a) = step_one(&kp_a);
    let r = step_two(
        &kp_a,
        5,
        &dest,
        None,
        &bh,
        &keys_of(&kp_a, &kp_b),
        &vec![msg_a],
        &secret_a,
    );
    assert_eq!(r.err(), Some(Error::MismatchMessages));
}

#[test]
fn round_two_rejects_unknown_sender() {
    let kp_a = Keypair::generate();
    let kp_b = Keypair::generate();
    let outsider = Keypair::generate();
    let dest = destination();
    let bh = block_hash();
    let (msg_c, _s) = step_one(&outsider);
    let (_m, secret_a) = step_one(&kp_a);
    let r = step_two(
        &kp_a,
        5,
        &dest,
        None,
        &bh,
        &keys_of(&kp_a, &kp_b),
        &vec![msg_c],
        &secret_a,
    );
    assert_eq!(r.err(), Some(Error::MismatchMessages));
}

#[test]
fn round_two_rejects_duplicate_senders() {
    let kp_a = Keypair::generate();
    let kp_b = Keypair::generate();
    let kp_c = Keypair::generate();
    let dest = destination();
    let bh = block_hash();
    let keys = vec![kp_a.public_key(), kp_b.public_key(), kp_c.public_key()];
    let (msg_b1, _s1) = step_one(&kp_b);
    let (msg_b2, _s2) = step_one(&kp_b);
    let (_m, secret_a) = step_one(&kp_a);
    let r = step_two(&kp_a, 5, &dest, None, &bh, &keys, &vec![msg_b1, msg_b2], &secret_a);
    assert_eq!(r.err(), Some(Error::MismatchMessages));
}

#[test]
fn round_two_rejects_key_that_is_no_curve_point() {
    let kp_a = Keypair::generate();
    let kp_b = Keypair::generate();
    let dest = destination();
    let bh = block_hash();
    // A participant set of this signer plus one 32-byte key that is not a
    // curve point; the peer commitment is made to name that key as sender,
    // so only the key validation can reject.
    let keys = vec![
        kp_a.public_key(),
        PublicKey::from_bytes(non_point_bytes()).unwrap(),
    ];
    let (mut peer_msg, _s) = step_one(&kp_b);
    peer_msg.sender = PublicKey::from_bytes(non_point_bytes()).unwrap();
    let (_m, secret_a) = step_one(&kp_a);
    let r = step_two(&kp_a, 5, &dest, None, &bh, &keys, &vec![peer_msg], &secret_a);
    assert_eq!(r.err(), Some(Error::InvalidPubkey));
}
