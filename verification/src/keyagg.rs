//! Key aggregation: combining the participants' public keys into the one
//! aggregated key that owns the funds.
//!
//! Every key is weighted by a coefficient derived by hashing the whole key
//! list together with that key, so that no participant can choose a key that
//! cancels another's contribution. An optional primary key instead receives
//! the multiplicative identity as its coefficient.

use vstd::prelude::*;

use crate::curve;
use crate::curve::{is_point, point_add_of, point_mul_of, sha512_of, wide_reduce_of};
use crate::keys::PublicKey;
use crate::serialization::Error;
use crate::util::{bytes_eq, push_all};

verus! {

/// The byte views of a list of public keys.
pub open spec fn views_of(keys: Seq<PublicKey>) -> Seq<Seq<u8>> {
    keys.map_values(|k: PublicKey| k@)
}

/// The byte view of an optional public key.
pub open spec fn view_of_option(key: Option<&PublicKey>) -> Option<Seq<u8>> {
    match key {
        Some(k) => Some(k@),
        None => None,
    }
}

/// All byte strings of a list, concatenated in order.
pub open spec fn concat_all(keys: Seq<Seq<u8>>) -> Seq<u8>
    decreases keys.len(),
{
    if keys.len() == 0 {
        Seq::empty()
    } else {
        concat_all(keys.drop_last()) + keys.last()
    }
}

/// The canonical encoding of the scalar one.
pub open spec fn scalar_one() -> Seq<u8> {
    seq![1u8] + Seq::new(31, |i: int| 0u8)
}

/// The aggregation coefficient of the key at position `i`: the identity for
/// the primary key, and otherwise the hash of the whole key list together
/// with that key, reduced to a scalar.
pub open spec fn musig_coefficient(keys: Seq<Seq<u8>>, primary: Option<Seq<u8>>, i: int) -> Seq<
    u8,
> {
    match primary {
        Some(p) => {
            if keys[i] == p {
                scalar_one()
            } else {
                wide_reduce_of(sha512_of(concat_all(keys) + keys[i]))
            }
        },
        None => wide_reduce_of(sha512_of(concat_all(keys) + keys[i])),
    }
}

/// The coefficient-weighted sum of the first `n` keys, as a compressed point.
pub open spec fn agg_key_prefix(keys: Seq<Seq<u8>>, primary: Option<Seq<u8>>, n: int) -> Seq<u8>
    decreases n,
{
    if n <= 1 {
        point_mul_of(musig_coefficient(keys, primary, 0), keys[0])
    } else {
        point_add_of(
            agg_key_prefix(keys, primary, n - 1),
            point_mul_of(musig_coefficient(keys, primary, n - 1), keys[n - 1]),
        )
    }
}

/// The aggregated public key of the whole key list.
pub open spec fn agg_key_of(keys: Seq<Seq<u8>>, primary: Option<Seq<u8>>) -> Seq<u8> {
    agg_key_prefix(keys, primary, keys.len() as int)
}

/// When aggregation succeeds: the list is non-empty and every input parses as
/// a curve point, the primary key included.
pub open spec fn key_agg_ok(keys: Seq<Seq<u8>>, primary: Option<Seq<u8>>) -> bool {
    &&& keys.len() > 0
    &&& forall|i: int| 0 <= i < keys.len() ==> is_point(#[trigger] keys[i])
    &&& match primary {
        Some(p) => is_point(p),
        None => true,
    }
}

proof fn lemma_concat_all_step(keys: Seq<Seq<u8>>, i: int)
    requires
        0 <= i < keys.len(),
    ensures
        concat_all(keys.subrange(0, i + 1)) == concat_all(keys.subrange(0, i)) + keys[i],
{
    assert(keys.subrange(0, i + 1).drop_last() =~= keys.subrange(0, i));
    assert(keys.subrange(0, i + 1).last() == keys[i]);
}

/// Concatenates the byte forms of all keys in order.
fn concat_keys(keys: &Vec<PublicKey>) -> (r: Vec<u8>)
    ensures
        r@ == concat_all(views_of(keys@)),
{
    let mut r: Vec<u8> = Vec::new();
    let mut i: usize = 0;
    while i < keys.len()
        invariant
            i <= keys@.len(),
            r@ == concat_all(views_of(keys@).subrange(0, i as int)),
        decreases keys@.len() - i,
    {
        push_all(&mut r, keys[i].as_bytes());
        proof {
            lemma_concat_all_step(views_of(keys@), i as int);
        }
        i = i + 1;
    }
    proof {
        assert(views_of(keys@).subrange(0, keys@.len() as int) =~= views_of(keys@));
    }
    r
}

/// The canonical encoding of the scalar one, as a vector.
fn scalar_one_vec() -> (r: Vec<u8>)
    ensures
        r@ == scalar_one(),
        r@.len() == 32,
{
    let mut r: Vec<u8> = Vec::new();
    r.push(1u8);
    let mut i: usize = 1;
    while i < 32
        invariant
            1 <= i <= 32,
            r@.len() == i,
            r@[0] == 1u8,
            forall|j: int| 1 <= j < i ==> r@[j] == 0u8,
        decreases 32 - i,
    {
        r.push(0u8);
        i = i + 1;
    }
    proof {
        assert(r@ =~= scalar_one());
    }
    r
}

/// Computes the aggregation coefficient of the key at position `idx`.
pub(crate) fn coefficient(keys: &Vec<PublicKey>, primary: Option<&PublicKey>, idx: usize) -> (r:
    Vec<u8>)
    requires
        idx < keys@.len(),
    ensures
        r@ == musig_coefficient(views_of(keys@), view_of_option(primary), idx as int),
        r@.len() == 32,
{
    let is_primary = match primary {
        Some(p) => bytes_eq(p.as_bytes(), keys[idx].as_bytes()),
        None => false,
    };
    if is_primary {
        scalar_one_vec()
    } else {
        let mut preimage = concat_keys(keys);
        push_all(&mut preimage, keys[idx].as_bytes());
        let digest = curve::sha512(&preimage);
        curve::wide_reduce(&digest)
    }
}

/// Combines the participants' public keys into the aggregated public key.
///
/// Fails exactly when the key list is empty or some input, the primary key
/// included, does not parse as a curve point.
pub fn key_agg(keys: &Vec<PublicKey>, primary: Option<&PublicKey>) -> (r: Result<
    PublicKey,
    Error,
>)
    ensures
        key_agg_ok(views_of(keys@), view_of_option(primary)) ==> (r matches Ok(k) && k@
            == agg_key_of(views_of(keys@), view_of_option(primary)) && is_point(k@)),
        !key_agg_ok(views_of(keys@), view_of_option(primary)) ==> (r matches Err(e) && e
            == Error::InvalidPubkey),
{
    if keys.len() == 0 {
        return Err(Error::InvalidPubkey);
    }
    let mut i: usize = 0;
    while i < keys.len()
        invariant
            i <= keys@.len(),
            forall|j: int| 0 <= j < i ==> is_point(#[trigger] views_of(keys@)[j]),
        decreases keys@.len() - i,
    {
        if !curve::point_check(keys[i].as_bytes()) {
            proof {
                assert(!is_point(views_of(keys@)[i as int]));
            }
            return Err(Error::InvalidPubkey);
        }
        i = i + 1;
    }
    if let Some(p) = primary {
        if !curve::point_check(p.as_bytes()) {
            return Err(Error::InvalidPubkey);
        }
    }
    let c0 = coefficient(keys, primary, 0);
    let mut acc = curve::point_scale(&c0, keys[0].as_bytes());
    let mut n: usize = 1;
    while n < keys.len()
        invariant
            1 <= n <= keys@.len(),
            forall|j: int| 0 <= j < keys@.len() ==> is_point(#[trigger] views_of(keys@)[j]),
            acc@ == agg_key_prefix(views_of(keys@), view_of_option(primary), n as int),
            acc@.len() == 32,
            is_point(acc@),
        decreases keys@.len() - n,
    {
        let c = coefficient(keys, primary, n);
        let term = curve::point_scale(&c, keys[n].as_bytes());
        acc = curve::point_sum(&acc, &term);
        n = n + 1;
    }
    Ok(PublicKey::from_raw(acc))
}

/// Key aggregation is deterministic: the aggregated key is a function of the
/// ordered key list and the primary-key choice alone, so repeated runs on
/// equal inputs always yield the identical aggregated key.
pub proof fn lemma_key_agg_deterministic(
    keys1: Seq<Seq<u8>>,
    primary1: Option<Seq<u8>>,
    keys2: Seq<Seq<u8>>,
    primary2: Option<Seq<u8>>,
)
    requires
        keys1 == keys2,
        primary1 == primary2,
    ensures
        agg_key_of(keys1, primary1) == agg_key_of(keys2, primary2),
{
}

} // verus!
