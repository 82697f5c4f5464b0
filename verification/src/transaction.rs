//! The transaction message builder and the signed transaction it produces.
//!
//! Every participant, and the combiner's verification step, must build the
//! exact same byte sequence from the same five fields; any divergence makes
//! the final signature fail verification, which is the protocol's built-in
//! tamper detection.

use vstd::prelude::*;

use solana_sdk::hash::Hash as SolHash;
use solana_sdk::message::Message as SolMessage;
use solana_sdk::pubkey::Pubkey as SolPubkey;
use solana_sdk::system_instruction;

use crate::curve;
use crate::keys::{BlockHash, Keypair, PublicKey};
use crate::util::bytes_eq;

verus! {

/// The canonical signed bytes of a transfer: a function of the fee payer, the
/// destination, the amount, the optional memo, and the block reference alone.
pub uninterp spec fn message_bytes_of(
    from: Seq<u8>,
    to: Seq<u8>,
    lamports: u64,
    memo: Option<Seq<u8>>,
    block_hash: Seq<u8>,
) -> Seq<u8>;

/// The byte view of an optional memo.
pub open spec fn memo_view(memo: Option<&Vec<u8>>) -> Option<Seq<u8>> {
    match memo {
        Some(m) => Some(m@),
        None => None,
    }
}

/// Relies on solana-sdk's `Message::new_with_blockhash` and
/// `Message::serialize`, its system interface's `transfer` instruction, and
/// spl-memo's `build_memo`: the canonical message bytes of a transfer paying
/// `lamports` from `from` to `to`, with `from` as fee payer, pinned to
/// `block_hash`, and with the memo appended as a second instruction only when
/// one is given. The bytes depend on the five fields alone.
#[verifier::external_body]
fn build_message_bytes(
    from: &Vec<u8>,
    to: &Vec<u8>,
    lamports: u64,
    memo: Option<&Vec<u8>>,
    block_hash: &Vec<u8>,
) -> (r: Vec<u8>)
    requires
        from@.len() == 32,
        to@.len() == 32,
        block_hash@.len() == 32,
    ensures
        r@ == message_bytes_of(from@, to@, lamports, memo_view(memo), block_hash@),
{
    let from_pk = SolPubkey::try_from(from.as_slice()).unwrap();
    let to_pk = SolPubkey::try_from(to.as_slice()).unwrap();
    let mut instructions = vec![system_instruction::transfer(&from_pk, &to_pk, lamports)];
    if let Some(text) = memo {
        instructions.push(spl_memo::build_memo(text.as_slice(), &[]));
    }
    let mut hash_arr = [0u8; 32];
    hash_arr.copy_from_slice(block_hash.as_slice());
    let hash = SolHash::new_from_array(hash_arr);
    SolMessage::new_with_blockhash(&instructions, Some(&from_pk), &hash).serialize()
}

/// The canonical byte sequence that every participant signs.
#[derive(Debug)]
pub struct TransactionMessage {
    bytes: Vec<u8>,
}

impl View for TransactionMessage {
    type V = Seq<u8>;

    closed spec fn view(&self) -> Seq<u8> {
        self.bytes@
    }
}

impl TransactionMessage {
    pub fn as_bytes(&self) -> (r: &Vec<u8>)
        ensures
            r@ == self@,
    {
        &self.bytes
    }
}

impl PartialEq for TransactionMessage {
    fn eq(&self, other: &TransactionMessage) -> (r: bool) {
        bytes_eq(&self.bytes, &other.bytes)
    }
}

impl Eq for TransactionMessage {

}

impl vstd::std_specs::cmp::PartialEqSpecImpl for TransactionMessage {
    open spec fn obeys_eq_spec() -> bool {
        true
    }

    open spec fn eq_spec(&self, other: &TransactionMessage) -> bool {
        self@ == other@
    }
}

/// Builds the exact byte sequence to sign for a transfer of `amount`
/// lamports from `from` to `to`, with `from` as fee payer. The result is a
/// function of the five fields alone, so every participant that calls this
/// with the same fields signs bit-for-bit identical bytes; a memo of `None`
/// adds no bytes at all.
pub fn create_unsigned_transaction(
    amount: u64,
    to: &PublicKey,
    memo: Option<&Vec<u8>>,
    from: &PublicKey,
    block_hash: &BlockHash,
) -> (r: TransactionMessage)
    ensures
        r@ == message_bytes_of(from@, to@, amount, memo_view(memo), block_hash@),
{
    let bytes = build_message_bytes(from.as_bytes(), to.as_bytes(), amount, memo, block_hash.as_bytes());
    TransactionMessage { bytes }
}

/// A transaction message together with the one signature that authorizes it,
/// ready for submission to an external broadcaster.
#[derive(Debug)]
pub struct SignedTransaction {
    message: Vec<u8>,
    signature: Vec<u8>,
}

/// Ghost image of [`SignedTransaction`].
#[verifier::ext_equal]
pub ghost struct SignedTransactionView {
    pub message: Seq<u8>,
    pub signature: Seq<u8>,
}

impl View for SignedTransaction {
    type V = SignedTransactionView;

    closed spec fn view(&self) -> SignedTransactionView {
        SignedTransactionView { message: self.message@, signature: self.signature@ }
    }
}

impl SignedTransaction {
    #[verifier::type_invariant]
    spec fn inv(self) -> bool {
        self.signature@.len() == 64
    }

    pub(crate) fn from_raw(message: Vec<u8>, signature: Vec<u8>) -> (r: SignedTransaction)
        requires
            signature@.len() == 64,
        ensures
            r@.message == message@,
            r@.signature == signature@,
    {
        SignedTransaction { message, signature }
    }

    /// The canonical message bytes that were signed.
    pub fn message_bytes(&self) -> (r: &Vec<u8>)
        ensures
            r@ == self@.message,
    {
        &self.message
    }

    /// The 64-byte signature over the message.
    pub fn signature_bytes(&self) -> (r: &Vec<u8>)
        ensures
            r@ == self@.signature,
            self@.signature.len() == 64,
    {
        proof {
            use_type_invariant(self);
        }
        &self.signature
    }
}

/// Builds and signs a single-party transfer: the keypair's own public key is
/// the source and fee payer, and its Ed25519 signature over the canonical
/// message bytes authorizes the transaction.
pub fn sign_single(
    keypair: &Keypair,
    amount: u64,
    to: &PublicKey,
    memo: Option<&Vec<u8>>,
    block_hash: &BlockHash,
) -> (r: SignedTransaction)
    ensures
        r@.message == message_bytes_of(
            keypair@.subrange(32, 64),
            to@,
            amount,
            memo_view(memo),
            block_hash@,
        ),
        r@.signature == curve::ed25519_sign_of(keypair@, r@.message),
{
    let from = keypair.public_key();
    let message = create_unsigned_transaction(amount, to, memo, &from, block_hash);
    let signature = curve::sign_with_keypair(keypair.as_bytes(), message.as_bytes());
    SignedTransaction { message: message.bytes, signature }
}

} // verus!
