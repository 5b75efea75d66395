//! The receiver's first round, which both payload encodings share.
//!
//! The receiver draws a secret scalar `a` and sends two group elements. The
//! one on the side of its choice bit is the public key `g^a`; the other is a
//! decoy `g^b` for a second scalar `b` that is dropped at once.

use crate::curve::{
    generator, generator_bytes, is_power, point_bytes, random_scalar, scalar_mul,
    scalar_mul_bytes,
};
use crate::error::OtError;
use curv_kzen::elliptic::curves::ed25519::{FE, GE};
use vstd::prelude::*;

verus! {

/// A choice bit is 0 or 1.
pub open spec fn valid_choice(sigma: u8) -> bool {
    sigma == 0 || sigma == 1
}

/// Every entry of `sigmas` is a choice bit.
pub open spec fn valid_choices(sigmas: Seq<u8>) -> bool {
    forall|i: int| 0 <= i < sigmas.len() ==> valid_choice(#[trigger] sigmas[i])
}

/// `h` is the public key of the secret `a`: the generator raised to `a`, on
/// which a run of Diffie-Hellman agrees.
pub open spec fn is_public_key(h: GE, a: FE) -> bool {
    is_power(point_bytes(h), generator_bytes(), a)
}

/// What the first round hands out when it has drawn the secret `a` and the
/// decoy scalar `b`: the public key of `a` stands on the side of `sigma`,
/// the generator raised to `b` on the other.
pub open spec fn setup_of(sigma: u8, a: FE, b: FE, h_0: GE, h_1: GE) -> bool {
    let key = if sigma == 0 { h_0 } else { h_1 };
    let decoy = if sigma == 0 { h_1 } else { h_0 };
    &&& is_public_key(key, a)
    &&& point_bytes(decoy) == scalar_mul_bytes(generator_bytes(), b)
}

/// `(a, h_0, h_1)` is an outcome of the first round on `sigma`.
pub open spec fn first_round_post(sigma: u8, a: FE, h_0: GE, h_1: GE) -> bool {
    exists|b: FE| setup_of(sigma, a, b, h_0, h_1)
}

/// `(a, h_0, h_1)` is an outcome of the batched first round on `sigmas`:
/// one outcome of the first round at every index.
pub open spec fn first_round_batch_post(
    sigmas: Seq<u8>,
    a: Seq<FE>,
    h_0: Seq<GE>,
    h_1: Seq<GE>,
) -> bool {
    &&& a.len() == sigmas.len()
    &&& h_0.len() == sigmas.len()
    &&& h_1.len() == sigmas.len()
    &&& forall|i: int|
        0 <= i < sigmas.len() ==> first_round_post(#[trigger] sigmas[i], a[i], h_0[i], h_1[i])
}

/// The first round on scalars that the caller has drawn: `a_i` is the secret
/// and `b` the decoy scalar. Refuses a `sigma` that is no choice bit.
pub fn first_round_with(sigma: u8, a_i: FE, b: FE) -> (out: Result<(FE, GE, GE), OtError>)
    ensures
        out.is_ok() <==> valid_choice(sigma),
        out matches Err(e) ==> e == OtError::InvalidChoiceBit,
        out matches Ok((a, h_0, h_1)) ==> a == a_i && setup_of(sigma, a_i, b, h_0, h_1),
{
    if sigma > 1 {
        return Err(OtError::InvalidChoiceBit);
    }
    let g = generator();
    let h_i = scalar_mul(&g, &b);
    let key = scalar_mul(&g, &a_i);
    let (h_0, h_1) = if sigma == 0 {
        (key, h_i)
    } else {
        (h_i, key)
    };
    Ok((a_i, h_0, h_1))
}

/// The receiver's first round. Draws the secret and the decoy scalar, and
/// returns the secret with the two group elements for the sender. Refuses a
/// `sigma` that is no choice bit before it draws anything.
pub fn first_round(sigma: u8) -> (out: Result<(FE, GE, GE), OtError>)
    ensures
        out.is_ok() <==> valid_choice(sigma),
        out matches Err(e) ==> e == OtError::InvalidChoiceBit,
        out matches Ok((a, h_0, h_1)) ==> first_round_post(sigma, a, h_0, h_1),
{
    if sigma > 1 {
        return Err(OtError::InvalidChoiceBit);
    }
    let a_i = random_scalar();
    let b = random_scalar();
    first_round_with(sigma, a_i, b)
}

/// Whether every entry of `sigma_vec` is a choice bit.
pub fn valid_choice_bits(sigma_vec: &Vec<u8>) -> (ok: bool)
    ensures
        ok == valid_choices(sigma_vec@),
{
    let n: usize = sigma_vec.len();
    let mut i: usize = 0;
    while i < n
        invariant
            i <= n,
            n == sigma_vec@.len(),
            forall|j: int| 0 <= j < i ==> valid_choice(#[trigger] sigma_vec@[j]),
        decreases n - i,
    {
        if sigma_vec[i] > 1 {
            return false;
        }
        i += 1;
    }
    true
}

/// The first round for a sequence of independent instances: one first round
/// per choice bit, each with scalars of its own. Refuses the whole batch,
/// before it draws anything, if an entry is no choice bit.
pub fn first_round_batch(sigma_vec: Vec<u8>) -> (out: Result<(Vec<FE>, Vec<GE>, Vec<GE>), OtError>)
    ensures
        out.is_ok() <==> valid_choices(sigma_vec@),
        out matches Err(e) ==> e == OtError::InvalidChoiceBit,
        out matches Ok((a, h_0, h_1)) ==> first_round_batch_post(sigma_vec@, a@, h_0@, h_1@),
{
    if !valid_choice_bits(&sigma_vec) {
        return Err(OtError::InvalidChoiceBit);
    }
    let n: usize = sigma_vec.len();
    let mut a_i_vec: Vec<FE> = Vec::with_capacity(n);
    let mut h_0_vec: Vec<GE> = Vec::with_capacity(n);
    let mut h_1_vec: Vec<GE> = Vec::with_capacity(n);
    let mut i: usize = 0;
    while i < n
        invariant
            i <= n,
            n == sigma_vec@.len(),
            valid_choices(sigma_vec@),
            a_i_vec@.len() == i,
            h_0_vec@.len() == i,
            h_1_vec@.len() == i,
            forall|j: int|
                0 <= j < i ==> first_round_post(
                    #[trigger] sigma_vec@[j],
                    a_i_vec@[j],
                    h_0_vec@[j],
                    h_1_vec@[j],
                ),
        decreases n - i,
    {
        match first_round(sigma_vec[i]) {
            Ok((a_i, h_0, h_1)) => {
                a_i_vec.push(a_i);
                h_0_vec.push(h_0);
                h_1_vec.push(h_1);
            },
            Err(e) => {
                return Err(e);
            },
        }
        i += 1;
    }
    Ok((a_i_vec, h_0_vec, h_1_vec))
}

} // verus!
