//! The masked encoding: messages are byte strings as long as a derived key,
//! and the sender hides each under the hash of a shared secret.
//!
//! For the branch `b` the sender forms the secret `h_b^r`, derives a mask
//! from its encoding and sends the message under that mask. The receiver
//! forms `u^a`, which is the secret of its own branch, and takes the mask off.

use crate::batch::{check_arity, check_output_batch, output_batch_refusal, same_arity_4};
use crate::bytes::{lemma_xor_unmasks, xor, xor_bytes};
use crate::curve::{
    encode_point, generator, generator_bytes, point_bytes, random_scalar, scalar_mul,
    scalar_mul_bytes,
};
use crate::error::OtError;
use crate::kdf::{h, sha256, DIGEST_LEN};
use crate::setup::{first_round_batch_post, first_round_post, valid_choice, valid_choices};
use curv_kzen::elliptic::curves::ed25519::{FE, GE};
use vstd::prelude::*;

pub use crate::setup::{first_round, first_round_batch, first_round_with};

verus! {

/// A message of this encoding is as long as a derived key.
pub open spec fn valid_payload(x: Seq<u8>) -> bool {
    x.len() == DIGEST_LEN
}

/// The byte strings that the rows of `rows` hold.
pub open spec fn byte_rows(rows: Seq<Vec<u8>>) -> Seq<Seq<u8>> {
    Seq::new(rows.len(), |i: int| rows[i]@)
}

/// Every entry of `xs` is a message of this encoding.
pub open spec fn valid_payloads(xs: Seq<Seq<u8>>) -> bool {
    forall|i: int| 0 <= i < xs.len() ==> valid_payload(#[trigger] xs[i])
}

/// The mask derived from the secret that the point encoded by `h` and the
/// scalar `s` share.
pub open spec fn mask_of(h: Seq<u8>, s: FE) -> Seq<u8> {
    sha256(scalar_mul_bytes(h, s))
}

/// What the second round hands out when it has drawn the scalar `r`: the
/// generator raised to `r`, and each message under the mask of its branch,
/// which covers it.
pub open spec fn response_of(
    r: FE,
    x_0: Seq<u8>,
    h_0: GE,
    x_1: Seq<u8>,
    h_1: GE,
    u: GE,
    v_0: Seq<u8>,
    v_1: Seq<u8>,
) -> bool {
    &&& point_bytes(u) == scalar_mul_bytes(generator_bytes(), r)
    &&& v_0 == xor_bytes(mask_of(point_bytes(h_0), r), x_0)
    &&& v_1 == xor_bytes(mask_of(point_bytes(h_1), r), x_1)
    &&& v_0.len() == x_0.len()
    &&& v_1.len() == x_1.len()
}

/// `(u, v_0, v_1)` is an outcome of the second round on the messages
/// `x_0`, `x_1` and the receiver's elements `h_0`, `h_1`.
pub open spec fn second_round_post(
    x_0: Seq<u8>,
    h_0: GE,
    x_1: Seq<u8>,
    h_1: GE,
    u: GE,
    v_0: Seq<u8>,
    v_1: Seq<u8>,
) -> bool {
    exists|r: FE| response_of(r, x_0, h_0, x_1, h_1, u, v_0, v_1)
}

/// What the receiver computes from the sender's response: the ciphertext of
/// its branch with the mask of `u^a` taken off.
pub open spec fn output_of(sigma: u8, a: FE, u: GE, v_0: Seq<u8>, v_1: Seq<u8>) -> Seq<u8> {
    xor_bytes(if sigma == 0 { v_0 } else { v_1 }, mask_of(point_bytes(u), a))
}

/// Why the batched second round refuses its input, if it does: unequal
/// lengths come first, then a message of the wrong length.
pub open spec fn second_round_batch_refusal(
    x_0: Seq<Seq<u8>>,
    h_0: nat,
    x_1: Seq<Seq<u8>>,
    h_1: nat,
) -> Option<OtError> {
    if !same_arity_4(x_0.len(), h_0, x_1.len(), h_1) {
        Some(OtError::ArityMismatch)
    } else if !(valid_payloads(x_0) && valid_payloads(x_1)) {
        Some(OtError::PayloadLengthMismatch)
    } else {
        None
    }
}

/// `(u, v_0, v_1)` is an outcome of the batched second round: one outcome of
/// the second round at every index.
pub open spec fn second_round_batch_post(
    x_0: Seq<Seq<u8>>,
    h_0: Seq<GE>,
    x_1: Seq<Seq<u8>>,
    h_1: Seq<GE>,
    u: Seq<GE>,
    v_0: Seq<Seq<u8>>,
    v_1: Seq<Seq<u8>>,
) -> bool {
    &&& same_arity_4(x_0.len(), h_0.len(), x_1.len(), h_1.len())
    &&& u.len() == x_0.len()
    &&& v_0.len() == x_0.len()
    &&& v_1.len() == x_0.len()
    &&& forall|i: int|
        0 <= i < x_0.len() ==> second_round_post(
            x_0[i],
            h_0[i],
            x_1[i],
            h_1[i],
            #[trigger] u[i],
            v_0[i],
            v_1[i],
        )
}

/// What the batched output computation returns: the receiver's output at
/// every index.
pub open spec fn output_batch_of(
    sigmas: Seq<u8>,
    a: Seq<FE>,
    u: Seq<GE>,
    v_0: Seq<Seq<u8>>,
    v_1: Seq<Seq<u8>>,
) -> Seq<Seq<u8>> {
    Seq::new(sigmas.len(), |i: int| output_of(sigmas[i], a[i], u[i], v_0[i], v_1[i]))
}

/// The second round on a scalar `r` that the caller has drawn. Refuses a
/// message that is not as long as a derived key.
pub fn second_round_with(r: FE, x_0: &Vec<u8>, h_0: GE, x_1: &Vec<u8>, h_1: GE) -> (out: Result<
    (GE, Vec<u8>, Vec<u8>),
    OtError,
>)
    ensures
        out.is_ok() <==> valid_payload(x_0@) && valid_payload(x_1@),
        out matches Err(e) ==> e == OtError::PayloadLengthMismatch,
        out matches Ok((u, v_0, v_1)) ==> response_of(r, x_0@, h_0, x_1@, h_1, u, v_0@, v_1@),
{
    if x_0.len() != DIGEST_LEN || x_1.len() != DIGEST_LEN {
        return Err(OtError::PayloadLengthMismatch);
    }
    let g = generator();
    let u = scalar_mul(&g, &r);
    let k_0 = scalar_mul(&h_0, &r);
    let k_1 = scalar_mul(&h_1, &r);
    let kdf_0 = h(encode_point(&k_0));
    let v_0 = xor(&kdf_0, x_0);
    let kdf_1 = h(encode_point(&k_1));
    let v_1 = xor(&kdf_1, x_1);
    Ok((u, v_0, v_1))
}

/// The sender's second round. Draws one scalar for both branches and returns
/// its public key with the two masked messages. Refuses, before it draws
/// anything, a message that is not as long as a derived key.
pub fn second_round(x_0: &Vec<u8>, h_0: GE, x_1: &Vec<u8>, h_1: GE) -> (out: Result<
    (GE, Vec<u8>, Vec<u8>),
    OtError,
>)
    ensures
        out.is_ok() <==> valid_payload(x_0@) && valid_payload(x_1@),
        out matches Err(e) ==> e == OtError::PayloadLengthMismatch,
        out matches Ok((u, v_0, v_1)) ==> second_round_post(x_0@, h_0, x_1@, h_1, u, v_0@, v_1@),
{
    if x_0.len() != DIGEST_LEN || x_1.len() != DIGEST_LEN {
        return Err(OtError::PayloadLengthMismatch);
    }
    let r = random_scalar();
    second_round_with(r, x_0, h_0, x_1, h_1)
}

/// Whether every row of `x_vec` is as long as a derived key.
pub fn valid_payload_lengths(x_vec: &Vec<Vec<u8>>) -> (ok: bool)
    ensures
        ok == valid_payloads(byte_rows(x_vec@)),
{
    let n: usize = x_vec.len();
    let mut i: usize = 0;
    while i < n
        invariant
            i <= n,
            n == x_vec@.len(),
            forall|j: int| 0 <= j < i ==> valid_payload(#[trigger] byte_rows(x_vec@)[j]),
        decreases n - i,
    {
        if x_vec[i].len() != DIGEST_LEN {
            assert(!valid_payload(byte_rows(x_vec@)[i as int]));
            return false;
        }
        i += 1;
    }
    true
}

/// Checks the input of a batched second round: the lengths of the four
/// sequences, then the length of every message.
pub fn check_second_round_batch(
    x_0_vec: &Vec<Vec<u8>>,
    h_0: usize,
    x_1_vec: &Vec<Vec<u8>>,
    h_1: usize,
) -> (refusal: Option<OtError>)
    ensures
        refusal == second_round_batch_refusal(
            byte_rows(x_0_vec@),
            h_0 as nat,
            byte_rows(x_1_vec@),
            h_1 as nat,
        ),
{
    if check_arity(x_0_vec.len(), h_0, x_1_vec.len(), h_1).is_some() {
        Some(OtError::ArityMismatch)
    } else if !valid_payload_lengths(x_0_vec) || !valid_payload_lengths(x_1_vec) {
        Some(OtError::PayloadLengthMismatch)
    } else {
        None
    }
}

/// The second round for a sequence of independent instances, each with a
/// scalar of its own. Refuses the whole batch, before it draws anything, if
/// the four sequences are not equally long or a message has the wrong length.
pub fn second_round_batch(
    x_0_vec: Vec<Vec<u8>>,
    h_0_vec: Vec<GE>,
    x_1_vec: Vec<Vec<u8>>,
    h_1_vec: Vec<GE>,
) -> (out: Result<(Vec<GE>, Vec<Vec<u8>>, Vec<Vec<u8>>), OtError>)
    ensures
        out.is_ok() <==> second_round_batch_refusal(
            byte_rows(x_0_vec@),
            h_0_vec@.len(),
            byte_rows(x_1_vec@),
            h_1_vec@.len(),
        ) is None,
        out matches Err(e) ==> second_round_batch_refusal(
            byte_rows(x_0_vec@),
            h_0_vec@.len(),
            byte_rows(x_1_vec@),
            h_1_vec@.len(),
        ) == Some(e),
        out matches Ok((u, v_0, v_1)) ==> second_round_batch_post(
            byte_rows(x_0_vec@),
            h_0_vec@,
            byte_rows(x_1_vec@),
            h_1_vec@,
            u@,
            byte_rows(v_0@),
            byte_rows(v_1@),
        ),
{
    if let Some(e) = check_second_round_batch(&x_0_vec, h_0_vec.len(), &x_1_vec, h_1_vec.len()) {
        return Err(e);
    }
    let n: usize = x_0_vec.len();
    let mut u_vec: Vec<GE> = Vec::with_capacity(n);
    let mut v_0_vec: Vec<Vec<u8>> = Vec::with_capacity(n);
    let mut v_1_vec: Vec<Vec<u8>> = Vec::with_capacity(n);
    let mut i: usize = 0;
    while i < n
        invariant
            i <= n,
            n == x_0_vec@.len(),
            n == h_0_vec@.len(),
            n == x_1_vec@.len(),
            n == h_1_vec@.len(),
            valid_payloads(byte_rows(x_0_vec@)),
            valid_payloads(byte_rows(x_1_vec@)),
            u_vec@.len() == i,
            v_0_vec@.len() == i,
            v_1_vec@.len() == i,
            forall|j: int|
                0 <= j < i ==> second_round_post(
                    x_0_vec@[j]@,
                    h_0_vec@[j],
                    x_1_vec@[j]@,
                    h_1_vec@[j],
                    #[trigger] u_vec@[j],
                    v_0_vec@[j]@,
                    v_1_vec@[j]@,
                ),
        decreases n - i,
    {
        assert(valid_payload(byte_rows(x_0_vec@)[i as int]));
        assert(valid_payload(byte_rows(x_1_vec@)[i as int]));
        match second_round(&x_0_vec[i], h_0_vec[i], &x_1_vec[i], h_1_vec[i]) {
            Ok((u, v_0, v_1)) => {
                u_vec.push(u);
                v_0_vec.push(v_0);
                v_1_vec.push(v_1);
            },
            Err(e) => {
                return Err(e);
            },
        }
        i += 1;
    }
    Ok((u_vec, v_0_vec, v_1_vec))
}

/// The receiver's output computation. Forms the secret `u^a` and takes its
/// mask off the ciphertext of the branch `sigma`, as far as the mask reaches.
/// Refuses a `sigma` that is no choice bit.
pub fn output_computation(sigma: u8, a_i: FE, u: GE, v_0: Vec<u8>, v_1: Vec<u8>) -> (out: Result<
    Vec<u8>,
    OtError,
>)
    ensures
        out.is_ok() <==> valid_choice(sigma),
        out matches Err(e) ==> e == OtError::InvalidChoiceBit,
        out matches Ok(x) ==> x@ == output_of(sigma, a_i, u, v_0@, v_1@),
{
    if sigma > 1 {
        return Err(OtError::InvalidChoiceBit);
    }
    let v_sigma = if sigma == 0 {
        v_0
    } else {
        v_1
    };
    let k_sigma = scalar_mul(&u, &a_i);
    let kdf_sigma = h(encode_point(&k_sigma));
    let x_sigma = xor(&v_sigma, &kdf_sigma);
    Ok(x_sigma)
}

/// The output computation for a sequence of independent instances. Refuses
/// the whole batch if the five sequences are not equally long or an entry of
/// `sigma_vec` is no choice bit.
pub fn output_computation_batch(
    sigma_vec: Vec<u8>,
    a_i_vec: Vec<FE>,
    u_vec: Vec<GE>,
    v_0_vec: Vec<Vec<u8>>,
    v_1_vec: Vec<Vec<u8>>,
) -> (out: Result<Vec<Vec<u8>>, OtError>)
    ensures
        out.is_ok() <==> output_batch_refusal(
            sigma_vec@,
            a_i_vec@.len(),
            u_vec@.len(),
            v_0_vec@.len(),
            v_1_vec@.len(),
        ) is None,
        out matches Err(e) ==> output_batch_refusal(
            sigma_vec@,
            a_i_vec@.len(),
            u_vec@.len(),
            v_0_vec@.len(),
            v_1_vec@.len(),
        ) == Some(e),
        out matches Ok(x) ==> byte_rows(x@) == output_batch_of(
            sigma_vec@,
            a_i_vec@,
            u_vec@,
            byte_rows(v_0_vec@),
            byte_rows(v_1_vec@),
        ),
{
    if let Some(e) = check_output_batch(
        &sigma_vec,
        a_i_vec.len(),
        u_vec.len(),
        v_0_vec.len(),
        v_1_vec.len(),
    ) {
        return Err(e);
    }
    let n: usize = sigma_vec.len();
    let mut x_vec: Vec<Vec<u8>> = Vec::with_capacity(n);
    let mut i: usize = 0;
    while i < n
        invariant
            i <= n,
            n == sigma_vec@.len(),
            n == a_i_vec@.len(),
            n == u_vec@.len(),
            n == v_0_vec@.len(),
            n == v_1_vec@.len(),
            valid_choices(sigma_vec@),
            x_vec@.len() == i,
            forall|j: int|
                0 <= j < i ==> (#[trigger] x_vec@[j])@ == output_of(
                    sigma_vec@[j],
                    a_i_vec@[j],
                    u_vec@[j],
                    v_0_vec@[j]@,
                    v_1_vec@[j]@,
                ),
        decreases n - i,
    {
        let v_0 = v_0_vec[i].clone();
        let v_1 = v_1_vec[i].clone();
        match output_computation(sigma_vec[i], a_i_vec[i], u_vec[i], v_0, v_1) {
            Ok(x) => {
                x_vec.push(x);
            },
            Err(e) => {
                return Err(e);
            },
        }
        i += 1;
    }
    assert(byte_rows(x_vec@) =~= output_batch_of(
        sigma_vec@,
        a_i_vec@,
        u_vec@,
        byte_rows(v_0_vec@),
        byte_rows(v_1_vec@),
    ));
    Ok(x_vec)
}

/// The receiver learns the message of its choice: whatever scalars the two
/// parties drew, the output computed from an outcome of the first round and
/// an outcome of the second round on it is the message on the side of the
/// choice bit.
pub proof fn lemma_transfer_correct(
    sigma: u8,
    x_0: Seq<u8>,
    x_1: Seq<u8>,
    a: FE,
    h_0: GE,
    h_1: GE,
    u: GE,
    v_0: Seq<u8>,
    v_1: Seq<u8>,
)
    requires
        valid_choice(sigma),
        valid_payload(x_0),
        valid_payload(x_1),
        first_round_post(sigma, a, h_0, h_1),
        second_round_post(x_0, h_0, x_1, h_1, u, v_0, v_1),
    ensures
        output_of(sigma, a, u, v_0, v_1) == (if sigma == 0 {
            x_0
        } else {
            x_1
        }),
{
    let r = choose|r: FE| response_of(r, x_0, h_0, x_1, h_1, u, v_0, v_1);
    let key = if sigma == 0 { h_0 } else { h_1 };
    let x = if sigma == 0 { x_0 } else { x_1 };
    let v = if sigma == 0 { v_0 } else { v_1 };
    let shared = scalar_mul_bytes(point_bytes(key), r);
    assert(shared == scalar_mul_bytes(point_bytes(u), a));
    let mask = sha256(shared);
    assert(v == xor_bytes(mask, x));
    assert(x.len() <= mask.len());
    lemma_xor_unmasks(mask, x);
}

/// The batched rounds transfer at every index what the single rounds
/// transfer: the batched output computation accepts the outcomes of the
/// batched first and second round, and its output at an index is the output
/// of the single round there, which is the message that the choice bit at
/// that index selects.
pub proof fn lemma_batch_transfer_correct(
    sigmas: Seq<u8>,
    x_0: Seq<Seq<u8>>,
    x_1: Seq<Seq<u8>>,
    a: Seq<FE>,
    h_0: Seq<GE>,
    h_1: Seq<GE>,
    u: Seq<GE>,
    v_0: Seq<Seq<u8>>,
    v_1: Seq<Seq<u8>>,
)
    requires
        valid_choices(sigmas),
        valid_payloads(x_0),
        valid_payloads(x_1),
        first_round_batch_post(sigmas, a, h_0, h_1),
        second_round_batch_post(x_0, h_0, x_1, h_1, u, v_0, v_1),
    ensures
        output_batch_refusal(sigmas, a.len(), u.len(), v_0.len(), v_1.len()) is None,
        output_batch_of(sigmas, a, u, v_0, v_1).len() == sigmas.len(),
        forall|i: int|
            0 <= i < sigmas.len() ==> {
                &&& #[trigger] output_batch_of(sigmas, a, u, v_0, v_1)[i] == output_of(
                    sigmas[i],
                    a[i],
                    u[i],
                    v_0[i],
                    v_1[i],
                )
                &&& output_batch_of(sigmas, a, u, v_0, v_1)[i] == (if sigmas[i] == 0 {
                    x_0[i]
                } else {
                    x_1[i]
                })
            },
{
    assert forall|i: int| 0 <= i < sigmas.len() implies #[trigger] output_batch_of(
        sigmas,
        a,
        u,
        v_0,
        v_1,
    )[i] == (if sigmas[i] == 0 {
        x_0[i]
    } else {
        x_1[i]
    }) by {
        assert(first_round_post(sigmas[i], a[i], h_0[i], h_1[i]));
        assert(second_round_post(x_0[i], h_0[i], x_1[i], h_1[i], u[i], v_0[i], v_1[i]));
        assert(valid_choice(sigmas[i]));
        assert(valid_payload(x_0[i]));
        assert(valid_payload(x_1[i]));
        lemma_transfer_correct(
            sigmas[i],
            x_0[i],
            x_1[i],
            a[i],
            h_0[i],
            h_1[i],
            u[i],
            v_0[i],
            v_1[i],
        );
    }
}

} // verus!
