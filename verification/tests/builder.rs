//! The transaction message builder and single-party signing.

use mpc_signer::keys::{BlockHash, Keypair, PublicKey};
use mpc_signer::transaction::{create_unsigned_transaction, sign_single};

use solana_sdk::message::Message;
use solana_sdk::pubkey::Pubkey;
use solana_sdk::system_instruction;

#[test]
fn builder_matches_the_chain_library_byte_for_byte() {
    let from = PublicKey::from_bytes(vec![5u8; 32]).unwrap();
    let to = PublicKey::from_bytes(vec![6u8; 32]).unwrap();
    let bh = BlockHash::from_bytes(vec![7u8; 32]).unwrap();
    let built = create_unsigned_transaction(42, &to, None, &from, &bh);

    let from_pk = Pubkey::new_from_array([5u8; 32]);
    let to_pk = Pubkey::new_from_array([6u8; 32]);
    let expected = Message::new_with_blockhash(
        &[system_instruction::transfer(&from_pk, &to_pk, 42)],
        Some(&from_pk),
        &solana_sdk::hash::Hash::new_from_array([7u8; 32]),
    )
    .serialize();
    assert_eq!(built.as_bytes().as_slice(), expected.as_slice());
}

#[test]
fn builder_is_deterministic() {
    let from = PublicKey::from_bytes(vec![5u8; 32]).unwrap();
    let to = PublicKey::from_bytes(vec![6u8; 32]).unwrap();
    let bh = BlockHash::from_bytes(vec![7u8; 32]).unwrap();
    let memo = b"rent".to_vec();
    let first = create_unsigned_transaction(9, &to, Some(&memo), &from, &bh);
    let second = create_unsigned_transaction(9, &to, Some(&memo), &from, &bh);
    assert_eq!(first, second);
}

#[test]
fn builder_appends_memo_only_when_present() {
    let from = PublicKey::from_bytes(vec![5u8; 32]).unwrap();
    let to = PublicKey::from_bytes(vec![6u8; 32]).unwrap();
    let bh = BlockHash::from_bytes(vec![7u8; 32]).unwrap();
    let memo = b"rent".to_vec();
    let without_first = create_unsigned_transaction(9, &to, None, &from, &bh);
    let without_second = create_unsigned_transaction(9, &to, None, &from, &bh);
    let with_memo = create_unsigned_transaction(9, &to, Some(&memo), &from, &bh);
    // Omission is byte-identical to never mentioning a memo, and a present
    // memo changes the bytes.
    assert_eq!(without_first, without_second);
    assert_ne!(with_memo, without_first);
}

#[test]
fn builder_separates_every_field() {
    let from = PublicKey::from_bytes(vec![5u8; 32]).unwrap();
    let to = PublicKey::from_bytes(vec![6u8; 32]).unwrap();
    let other_to = PublicKey::from_bytes(vec![8u8; 32]).unwrap();
    let bh = BlockHash::from_bytes(vec![7u8; 32]).unwrap();
    let other_bh = BlockHash::from_bytes(vec![9u8; 32]).unwrap();
    let base = create_unsigned_transaction(9, &to, None, &from, &bh);
    assert_ne!(base, create_unsigned_transaction(10, &to, None, &from, &bh));
    assert_ne!(base, create_unsigned_transaction(9, &other_to, None, &from, &bh));
    assert_ne!(base, create_unsigned_transaction(9, &to, None, &from, &other_bh));
}

#[test]
fn single_party_signature_verifies() {
    let kp = Keypair::generate();
    let to = PublicKey::from_bytes(vec![6u8; 32]).unwrap();
    let bh = BlockHash::from_bytes(vec![7u8; 32]).unwrap();
    let memo = b"hello".to_vec();
    let tx = sign_single(&kp, 1_000, &to, Some(&memo), &bh);

    let mut sig_arr = [0u8; 64];
    sig_arr.copy_from_slice(tx.signature_bytes().as_slice());
    let sig = solana_sdk::signature::Signature::from(sig_arr);
    assert!(sig.verify(
        kp.public_key().as_bytes().as_slice(),
        tx.message_bytes().as_slice()
    ));
    // The signature does not cover a different message.
    let other = create_unsigned_transaction(1_001, &to, Some(&memo), &kp.public_key(), &bh);
    assert!(!sig.verify(
        kp.public_key().as_bytes().as_slice(),
        other.as_bytes().as_slice()
    ));
}
