//! The two-round signing protocol and the signature combiner.
//!
//! Round 1 commits two fresh random nonces per signer. Round 2 consumes the
//! peers' public nonces, the local secret nonces, and the transaction fields,
//! and produces one partial signature. The combiner sums the partial
//! signatures, pairs them with the agreed combined nonce point, and accepts
//! the result only if it verifies under the aggregated key over the exact
//! recomputed message bytes.
//!
//! The engine is stateless: the round-1 secret bundle is handed back to the
//! caller and must be resubmitted verbatim at round 2, used at most once, and
//! then discarded. Reuse of one bundle for two different messages leaks the
//! signer's key share; the engine cannot detect reuse across calls, so
//! single use is the caller's obligation.

use vstd::prelude::*;

use crate::curve;
use crate::curve::{
    base_mul_of, is_point, point_add_of, point_mul_of, reduce32_of, scalar_add_of,
    scalar_mul_of, sha512_of, sig_verifies_of, wide_reduce_of,
};
use crate::keyagg;
use crate::keyagg::{agg_key_of, concat_all, key_agg_ok, views_of};
use crate::keys::{BlockHash, CurvePoint, Keypair, PublicKey, SecretScalar};
use crate::serialization::{
    AggMessage1, Error, PartialSignature, PrivatePartialNonces, PublicPartialNonces,
    SecretAggStepOne,
};
use crate::transaction;
use crate::transaction::{memo_view, message_bytes_of, SignedTransaction};
use crate::util::{bytes_eq, copy_range, push_all};

verus! {

/// The Ed25519 clamping of 32 bytes: the low three bits cleared, the top bit
/// cleared, and the second-highest bit set.
pub open spec fn clamp_spec(b: Seq<u8>) -> Seq<u8> {
    b.update(0, b[0] & 248).update(31, (b[31] & 63) | 64)
}

/// The secret signing scalar of a keypair seed: the first half of the seed's
/// SHA-512 digest, clamped, reduced modulo the group order.
pub open spec fn secret_scalar_of_seed(seed: Seq<u8>) -> Seq<u8> {
    reduce32_of(clamp_spec(sha512_of(seed).subrange(0, 32)))
}

/// The first nonce points of a list of round-1 messages.
pub open spec fn firsts_of(msgs: Seq<AggMessage1>) -> Seq<Seq<u8>> {
    msgs.map_values(|m: AggMessage1| m.public_nonces.first@)
}

/// The second nonce points of a list of round-1 messages.
pub open spec fn seconds_of(msgs: Seq<AggMessage1>) -> Seq<Seq<u8>> {
    msgs.map_values(|m: AggMessage1| m.public_nonces.second@)
}

/// The senders of a list of round-1 messages.
pub open spec fn senders_of(msgs: Seq<AggMessage1>) -> Seq<Seq<u8>> {
    msgs.map_values(|m: AggMessage1| m.sender@)
}

/// The byte views of a list of partial signatures.
pub open spec fn sig_views_of(sigs: Seq<PartialSignature>) -> Seq<Seq<u8>> {
    sigs.map_values(|p: PartialSignature| p@)
}

/// The partial-scalar halves of partial-signature byte strings.
pub open spec fn scalar_parts_of(sigs: Seq<Seq<u8>>) -> Seq<Seq<u8>> {
    sigs.map_values(|s: Seq<u8>| s.subrange(32, 64))
}

/// `start` plus the first `n` of the points, summed left to right.
pub open spec fn sum_points_prefix(start: Seq<u8>, pts: Seq<Seq<u8>>, n: int) -> Seq<u8>
    decreases n,
{
    if n <= 0 {
        start
    } else {
        point_add_of(sum_points_prefix(start, pts, n - 1), pts[n - 1])
    }
}

/// `start` plus all the points, summed left to right.
pub open spec fn sum_points(start: Seq<u8>, pts: Seq<Seq<u8>>) -> Seq<u8> {
    sum_points_prefix(start, pts, pts.len() as int)
}

/// The first `n` scalars, summed left to right.
pub open spec fn sum_scalars_prefix(parts: Seq<Seq<u8>>, n: int) -> Seq<u8>
    decreases n,
{
    if n <= 1 {
        parts[0]
    } else {
        scalar_add_of(sum_scalars_prefix(parts, n - 1), parts[n - 1])
    }
}

/// All the scalars, summed left to right.
pub open spec fn sum_scalars(parts: Seq<Seq<u8>>) -> Seq<u8> {
    sum_scalars_prefix(parts, parts.len() as int)
}

/// The nonce-binding scalar: a hash of the aggregated key, both combined
/// nonce points, and the message, reduced to a scalar.
pub open spec fn binding_of(aggkey: Seq<u8>, r1: Seq<u8>, r2: Seq<u8>, msg: Seq<u8>) -> Seq<u8> {
    wide_reduce_of(sha512_of(aggkey + r1 + r2 + msg))
}

/// The per-round combined nonce point: the first sum plus the binding scalar
/// times the second sum.
pub open spec fn combined_nonce_of(r1: Seq<u8>, r2: Seq<u8>, b: Seq<u8>) -> Seq<u8> {
    point_add_of(r1, point_mul_of(b, r2))
}

/// The signature challenge: the hash of the combined nonce point, the
/// aggregated key, and the message, reduced to a scalar.
pub open spec fn challenge_of(r: Seq<u8>, aggkey: Seq<u8>, msg: Seq<u8>) -> Seq<u8> {
    wide_reduce_of(sha512_of(r + aggkey + msg))
}

/// This signer's aggregation coefficient in the rounds, where no primary key
/// is in play: a function of the whole key list and the signer's own key.
pub open spec fn own_coefficient(keys: Seq<Seq<u8>>, own: Seq<u8>) -> Seq<u8> {
    wide_reduce_of(sha512_of(concat_all(keys) + own))
}

/// Whether the keypair's public half appears in the participant list.
pub open spec fn own_key_listed(kp: Seq<u8>, keys: Seq<Seq<u8>>) -> bool {
    exists|i: int| 0 <= i < keys.len() && keys[i] == kp.subrange(32, 64)
}

/// Whether the round-1 messages carry exactly one commitment per expected
/// peer: one fewer message than participants, every sender a participant
/// other than this signer, and no sender repeated.
pub open spec fn commitments_match(own: Seq<u8>, keys: Seq<Seq<u8>>, senders: Seq<Seq<u8>>) -> bool {
    &&& senders.len() + 1 == keys.len()
    &&& forall|i: int| 0 <= i < senders.len() ==> #[trigger] senders[i] != own
    &&& forall|i: int|
        0 <= i < senders.len() ==> exists|j: int|
            0 <= j < keys.len() && keys[j] == #[trigger] senders[i]
    &&& forall|i: int, j: int|
        0 <= i < j < senders.len() ==> #[trigger] senders[i] != #[trigger] senders[j]
}

/// The partial signature that round 2 produces on its success path: the
/// combined nonce point followed by this signer's partial scalar.
pub open spec fn step_two_signature(
    kp: Seq<u8>,
    amount: u64,
    to: Seq<u8>,
    memo: Option<Seq<u8>>,
    block_hash: Seq<u8>,
    keys: Seq<Seq<u8>>,
    msgs: Seq<AggMessage1>,
    secret: SecretAggStepOne,
) -> Seq<u8> {
    let own = kp.subrange(32, 64);
    let aggkey = agg_key_of(keys, None);
    let msgbytes = message_bytes_of(aggkey, to, amount, memo, block_hash);
    let r1 = sum_points(secret.public_nonces.first@, firsts_of(msgs));
    let r2 = sum_points(secret.public_nonces.second@, seconds_of(msgs));
    let b = binding_of(aggkey, r1, r2, msgbytes);
    let rr = combined_nonce_of(r1, r2, b);
    let e = challenge_of(rr, aggkey, msgbytes);
    let a = own_coefficient(keys, own);
    let x = secret_scalar_of_seed(kp.subrange(0, 32));
    let s = scalar_add_of(
        scalar_add_of(secret.private_nonces.first@, scalar_mul_of(b, secret.private_nonces.second@)),
        scalar_mul_of(e, scalar_mul_of(a, x)),
    );
    rr + s
}

/// The combined signature on the combiner's success path: the first partial
/// signature's nonce point followed by the sum of all partial scalars.
pub open spec fn combined_signature(sigs: Seq<Seq<u8>>) -> Seq<u8> {
    sigs[0].subrange(0, 32) + sum_scalars(scalar_parts_of(sigs))
}

/// Round 1: commits two fresh random nonces for one signing attempt.
///
/// The broadcast message and the secret bundle carry the same two public
/// nonce points, each the base-point multiple of the matching secret nonce,
/// and the message names this keypair's public key as sender. The nonces are
/// drawn from the secure random source; a bundle must serve at most one
/// round-2 call.
pub fn step_one(keypair: &Keypair) -> (r: (AggMessage1, SecretAggStepOne))
    ensures
        r.0.sender@ == keypair@.subrange(32, 64),
        r.0.public_nonces@ == r.1.public_nonces@,
        r.1.public_nonces.first@ == base_mul_of(r.1.private_nonces.first@),
        r.1.public_nonces.second@ == base_mul_of(r.1.private_nonces.second@),
{
    let seed_first = curve::random_bytes_64();
    let seed_second = curve::random_bytes_64();
    let k_first = curve::wide_reduce(&seed_first);
    let k_second = curve::wide_reduce(&seed_second);
    let r_first = curve::base_point_mul(&k_first);
    let r_second = curve::base_point_mul(&k_second);
    let r_first_copy = copy_range(&r_first, 0, 32);
    let r_second_copy = copy_range(&r_second, 0, 32);
    proof {
        assert(r_first_copy@ =~= r_first@);
        assert(r_second_copy@ =~= r_second@);
    }
    let message = AggMessage1 {
        sender: keypair.public_key(),
        public_nonces: PublicPartialNonces {
            first: CurvePoint::from_raw(r_first),
            second: CurvePoint::from_raw(r_second),
        },
    };
    let secret = SecretAggStepOne {
        private_nonces: PrivatePartialNonces {
            first: SecretScalar::from_raw(k_first),
            second: SecretScalar::from_raw(k_second),
        },
        public_nonces: PublicPartialNonces {
            first: CurvePoint::from_raw(r_first_copy),
            second: CurvePoint::from_raw(r_second_copy),
        },
    };
    proof {
        assert(message.public_nonces@ =~~= secret.public_nonces@);
    }
    (message, secret)
}

/// Finds the first position of `target` in `keys`.
fn find_key(keys: &Vec<PublicKey>, target: &PublicKey) -> (r: Option<usize>)
    ensures
        match r {
            Some(i) => i < keys@.len() && views_of(keys@)[i as int] == target@,
            None => forall|j: int| 0 <= j < keys@.len() ==> views_of(keys@)[j] != target@,
        },
{
    let mut i: usize = 0;
    while i < keys.len()
        invariant
            i <= keys@.len(),
            forall|j: int| 0 <= j < i ==> views_of(keys@)[j] != target@,
        decreases keys@.len() - i,
    {
        if bytes_eq(keys[i].as_bytes(), target.as_bytes()) {
            return Some(i);
        }
        i = i + 1;
    }
    None
}

/// Sums `start` with the first nonce point of every message.
fn sum_first_nonces(start: &CurvePoint, msgs: &Vec<AggMessage1>) -> (r: Vec<u8>)
    ensures
        r@ == sum_points(start@, firsts_of(msgs@)),
        r@.len() == 32,
        is_point(r@),
{
    let mut acc = copy_range(start.as_bytes(), 0, 32);
    proof {
        assert(acc@ =~= start@);
    }
    let mut i: usize = 0;
    while i < msgs.len()
        invariant
            i <= msgs@.len(),
            acc@ == sum_points_prefix(start@, firsts_of(msgs@), i as int),
            acc@.len() == 32,
            is_point(acc@),
        decreases msgs@.len() - i,
    {
        proof {
            assert(firsts_of(msgs@)[i as int] == msgs@[i as int].public_nonces.first@);
        }
        acc = curve::point_sum(&acc, msgs[i].public_nonces.first.as_bytes());
        i = i + 1;
    }
    acc
}

/// Sums `start` with the second nonce point of every message.
fn sum_second_nonces(start: &CurvePoint, msgs: &Vec<AggMessage1>) -> (r: Vec<u8>)
    ensures
        r@ == sum_points(start@, seconds_of(msgs@)),
        r@.len() == 32,
        is_point(r@),
{
    let mut acc = copy_range(start.as_bytes(), 0, 32);
    proof {
        assert(acc@ =~= start@);
    }
    let mut i: usize = 0;
    while i < msgs.len()
        invariant
            i <= msgs@.len(),
            acc@ == sum_points_prefix(start@, seconds_of(msgs@), i as int),
            acc@.len() == 32,
            is_point(acc@),
        decreases msgs@.len() - i,
    {
        proof {
            assert(seconds_of(msgs@)[i as int] == msgs@[i as int].public_nonces.second@);
        }
        acc = curve::point_sum(&acc, msgs[i].public_nonces.second.as_bytes());
        i = i + 1;
    }
    acc
}

/// Clamps 32 bytes as Ed25519 key derivation prescribes.
fn clamp(bytes: &Vec<u8>) -> (r: Vec<u8>)
    requires
        bytes@.len() == 32,
    ensures
        r@ == clamp_spec(bytes@),
        r@.len() == 32,
{
    let mut r: Vec<u8> = Vec::new();
    r.push(bytes[0] & 248);
    let mut i: usize = 1;
    while i < 31
        invariant
            1 <= i <= 31,
            bytes@.len() == 32,
            r@.len() == i,
            r@[0] == bytes@[0] & 248,
            forall|j: int| 1 <= j < i ==> r@[j] == bytes@[j],
        decreases 31 - i,
    {
        r.push(bytes[i]);
        i = i + 1;
    }
    r.push((bytes[31] & 63) | 64);
    proof {
        assert(r@ =~= clamp_spec(bytes@));
    }
    r
}

/// Derives this keypair's secret signing scalar.
fn secret_scalar(keypair: &Keypair) -> (r: Vec<u8>)
    ensures
        r@ == secret_scalar_of_seed(keypair@.subrange(0, 32)),
        r@.len() == 32,
{
    let kp_bytes = keypair.as_bytes();
    let seed = copy_range(kp_bytes, 0, 32);
    let digest = curve::sha512(&seed);
    let half = copy_range(&digest, 0, 32);
    let clamped = clamp(&half);
    curve::reduce32(&clamped)
}

/// Round 2: consumes the peers' commitments, the local secret nonces, and
/// the transaction fields, and produces this signer's partial signature.
///
/// The transaction message is rebuilt from the given fields with the
/// aggregated key as source and fee payer, so every honest participant signs
/// identical bytes. Fails with `KeyPairIsNotInKeys` when this keypair's
/// public key is not in the participant list, with `MismatchMessages` when
/// the commitments do not carry exactly one message per peer, and with
/// `InvalidPubkey` when some participant key does not parse as a curve
/// point; otherwise it returns exactly the partial signature that
/// [`step_two_signature`] describes.
pub fn step_two(
    keypair: &Keypair,
    amount: u64,
    to: &PublicKey,
    memo: Option<&Vec<u8>>,
    recent_block_hash: &BlockHash,
    public_keys: &Vec<PublicKey>,
    first_messages: &Vec<AggMessage1>,
    secret_state: &SecretAggStepOne,
) -> (r: Result<PartialSignature, Error>)
    ensures
        ({
            let kv = views_of(public_keys@);
            let sv = senders_of(first_messages@);
            let own = keypair@.subrange(32, 64);
            &&& !own_key_listed(keypair@, kv) ==> (r matches Err(e) && e
                == Error::KeyPairIsNotInKeys)
            &&& (own_key_listed(keypair@, kv) && !commitments_match(own, kv, sv)) ==> (
            r matches Err(e) && e == Error::MismatchMessages)
            &&& (own_key_listed(keypair@, kv) && commitments_match(own, kv, sv) && !key_agg_ok(
                kv,
                None,
            )) ==> (r matches Err(e) && e == Error::InvalidPubkey)
            &&& (own_key_listed(keypair@, kv) && commitments_match(own, kv, sv) && key_agg_ok(
                kv,
                None,
            )) ==> (r matches Ok(sig) && sig@ == step_two_signature(
                keypair@,
                amount,
                to@,
                memo_view(memo),
                recent_block_hash@,
                kv,
                first_messages@,
                *secret_state,
            ))
        }),
{
    let own = keypair.public_key();
    let own_index = match find_key(public_keys, &own) {
        Some(i) => i,
        None => {
            proof {
                assert(!own_key_listed(keypair@, views_of(public_keys@)));
            }
            return Err(Error::KeyPairIsNotInKeys);
        },
    };
    proof {
        assert(own_key_listed(keypair@, views_of(public_keys@)));
    }
    if first_messages.len() != public_keys.len() - 1 {
        proof {
            assert(!commitments_match(
                own@,
                views_of(public_keys@),
                senders_of(first_messages@),
            ));
        }
        return Err(Error::MismatchMessages);
    }
    let mut i: usize = 0;
    while i < first_messages.len()
        invariant
            i <= first_messages@.len(),
            forall|j: int| 0 <= j < i ==> #[trigger] senders_of(first_messages@)[j] != own@,
            forall|j: int|
                0 <= j < i ==> exists|k: int|
                    0 <= k < public_keys@.len() && views_of(public_keys@)[k] == #[trigger] senders_of(
                        first_messages@,
                    )[j],
            forall|j: int, k: int|
                0 <= j < k < i ==> #[trigger] senders_of(first_messages@)[j]
                    != #[trigger] senders_of(first_messages@)[k],
            own@ == keypair@.subrange(32, 64),
            own_key_listed(keypair@, views_of(public_keys@)),
        decreases first_messages@.len() - i,
    {
        let sender = &first_messages[i].sender;
        proof {
            assert(senders_of(first_messages@)[i as int] == first_messages@[i as int].sender@);
        }
        if bytes_eq(sender.as_bytes(), own.as_bytes()) {
            proof {
                assert(!commitments_match(
                    own@,
                    views_of(public_keys@),
                    senders_of(first_messages@),
                ));
            }
            return Err(Error::MismatchMessages);
        }
        if find_key(public_keys, sender).is_none() {
            proof {
                assert(!commitments_match(
                    own@,
                    views_of(public_keys@),
                    senders_of(first_messages@),
                ));
            }
            return Err(Error::MismatchMessages);
        }
        let mut j: usize = 0;
        while j < i
            invariant
                j <= i < first_messages@.len(),
                sender@ == senders_of(first_messages@)[i as int],
                own@ == keypair@.subrange(32, 64),
                own_key_listed(keypair@, views_of(public_keys@)),
                forall|k: int|
                    0 <= k < j ==> #[trigger] senders_of(first_messages@)[k] != senders_of(
                        first_messages@,
                    )[i as int],
            decreases i - j,
        {
            proof {
                assert(senders_of(first_messages@)[j as int] == first_messages@[j as int].sender@);
            }
            if bytes_eq(first_messages[j].sender.as_bytes(), sender.as_bytes()) {
                proof {
                    assert(senders_of(first_messages@)[j as int] == senders_of(
                        first_messages@,
                    )[i as int]);
                    assert(!commitments_match(
                        own@,
                        views_of(public_keys@),
                        senders_of(first_messages@),
                    ));
                }
                return Err(Error::MismatchMessages);
            }
            j = j + 1;
        }
        i = i + 1;
    }
    let agg_key = match keyagg::key_agg(public_keys, None) {
        Ok(k) => k,
        Err(_) => {
            return Err(Error::InvalidPubkey);
        },
    };
    let message = transaction::create_unsigned_transaction(
        amount,
        to,
        memo,
        &agg_key,
        recent_block_hash,
    );
    let r1 = sum_first_nonces(&secret_state.public_nonces.first, first_messages);
    let r2 = sum_second_nonces(&secret_state.public_nonces.second, first_messages);
    let mut binding_preimage = copy_range(agg_key.as_bytes(), 0, 32);
    push_all(&mut binding_preimage, &r1);
    push_all(&mut binding_preimage, &r2);
    push_all(&mut binding_preimage, message.as_bytes());
    proof {
        assert(binding_preimage@ =~= agg_key@ + r1@ + r2@ + message@);
    }
    let b = curve::wide_reduce(&curve::sha512(&binding_preimage));
    let combined_nonce = curve::point_sum(&r1, &curve::point_scale(&b, &r2));
    let mut challenge_preimage = copy_range(&combined_nonce, 0, 32);
    push_all(&mut challenge_preimage, agg_key.as_bytes());
    push_all(&mut challenge_preimage, message.as_bytes());
    proof {
        assert(challenge_preimage@ =~= combined_nonce@ + agg_key@ + message@);
    }
    let e = curve::wide_reduce(&curve::sha512(&challenge_preimage));
    let a = keyagg::coefficient(public_keys, None, own_index);
    let x = secret_scalar(keypair);
    let s = curve::scalar_sum(
        &curve::scalar_sum(
            secret_state.private_nonces.first.as_bytes(),
            &curve::scalar_product(&b, secret_state.private_nonces.second.as_bytes()),
        ),
        &curve::scalar_product(&e, &curve::scalar_product(&a, &x)),
    );
    let mut sig_bytes = copy_range(&combined_nonce, 0, 32);
    push_all(&mut sig_bytes, &s);
    proof {
        assert(sig_bytes@ =~= combined_nonce@ + s@);
        assert(views_of(public_keys@)[own_index as int] == own@);
        assert(a@ == own_coefficient(views_of(public_keys@), own@));
        assert(sig_bytes@ == step_two_signature(
            keypair@,
            amount,
            to@,
            memo_view(memo),
            recent_block_hash@,
            views_of(public_keys@),
            first_messages@,
            *secret_state,
        ));
    }
    Ok(PartialSignature::from_raw(sig_bytes))
}

/// Combines the partial signatures into the final signature and verifies it.
///
/// Requires one partial signature per participant, in the participants'
/// order. The final signature pairs the agreed combined nonce point with the
/// sum of the partial scalars; it is returned only when it verifies under
/// the aggregated key over the exact recomputed message bytes, so a
/// combination built from parameters that differ from those the signers used
/// in round 2 is always rejected, never silently accepted. Fails with
/// `MismatchMessages` on a count mismatch, `InvalidPubkey` when some
/// participant key does not parse as a curve point, and `InvalidSignature`
/// when the combined signature does not verify.
pub fn combine_and_finalize(
    amount: u64,
    to: &PublicKey,
    memo: Option<&Vec<u8>>,
    recent_block_hash: &BlockHash,
    public_keys: &Vec<PublicKey>,
    partial_signatures: &Vec<PartialSignature>,
) -> (r: Result<SignedTransaction, Error>)
    ensures
        ({
            let kv = views_of(public_keys@);
            let pv = sig_views_of(partial_signatures@);
            let aggkey = agg_key_of(kv, None);
            let msgbytes = message_bytes_of(
                aggkey,
                to@,
                amount,
                memo_view(memo),
                recent_block_hash@,
            );
            &&& pv.len() != kv.len() ==> (r matches Err(e) && e == Error::MismatchMessages)
            &&& (pv.len() == kv.len() && !key_agg_ok(kv, None)) ==> (r matches Err(e) && e
                == Error::InvalidPubkey)
            &&& (pv.len() == kv.len() && key_agg_ok(kv, None) && !sig_verifies_of(
                combined_signature(pv),
                aggkey,
                msgbytes,
            )) ==> (r matches Err(e) && e == Error::InvalidSignature)
            &&& (pv.len() == kv.len() && key_agg_ok(kv, None) && sig_verifies_of(
                combined_signature(pv),
                aggkey,
                msgbytes,
            )) ==> (r matches Ok(tx) && tx@.message == msgbytes && tx@.signature
                == combined_signature(pv) && sig_verifies_of(tx@.signature, aggkey, tx@.message))
        }),
{
    if partial_signatures.len() != public_keys.len() {
        return Err(Error::MismatchMessages);
    }
    let agg_key = match keyagg::key_agg(public_keys, None) {
        Ok(k) => k,
        Err(_) => {
            return Err(Error::InvalidPubkey);
        },
    };
    let message = transaction::create_unsigned_transaction(
        amount,
        to,
        memo,
        &agg_key,
        recent_block_hash,
    );
    let nonce_point = copy_range(partial_signatures[0].as_bytes(), 0, 32);
    let mut s_acc = copy_range(partial_signatures[0].as_bytes(), 32, 64);
    proof {
        assert(sig_views_of(partial_signatures@)[0] == partial_signatures@[0]@);
        assert(scalar_parts_of(sig_views_of(partial_signatures@))[0] == sig_views_of(
            partial_signatures@,
        )[0].subrange(32, 64));
    }
    let mut i: usize = 1;
    while i < partial_signatures.len()
        invariant
            1 <= i <= partial_signatures@.len(),
            s_acc@ == sum_scalars_prefix(scalar_parts_of(sig_views_of(partial_signatures@)), i as int),
            s_acc@.len() == 32,
        decreases partial_signatures@.len() - i,
    {
        let part = copy_range(partial_signatures[i].as_bytes(), 32, 64);
        proof {
            assert(sig_views_of(partial_signatures@)[i as int] == partial_signatures@[i as int]@);
            assert(scalar_parts_of(sig_views_of(partial_signatures@))[i as int] == sig_views_of(
                partial_signatures@,
            )[i as int].subrange(32, 64));
        }
        s_acc = curve::scalar_sum(&s_acc, &part);
        i = i + 1;
    }
    let mut sig_bytes = nonce_point;
    push_all(&mut sig_bytes, &s_acc);
    proof {
        assert(sig_views_of(partial_signatures@)[0] == partial_signatures@[0]@);
        assert(sig_bytes@ =~= combined_signature(sig_views_of(partial_signatures@)));
    }
    if !curve::verify_signature_bytes(&sig_bytes, agg_key.as_bytes(), message.as_bytes()) {
        return Err(Error::InvalidSignature);
    }
    let message_bytes = copy_range(message.as_bytes(), 0, message.as_bytes().len());
    Ok(SignedTransaction::from_raw(message_bytes, sig_bytes))
}

} // verus!
