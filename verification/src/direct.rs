//! The direct encoding: messages are group elements, and the sender adds a
//! shared secret to each.
//!
//! For the branch `b` the sender forms the secret `h_b^r` and sends the
//! message with that secret added. The receiver forms `u^a`, which is the
//! secret of its own branch, and takes it away again. No hash is involved.

use crate::curve::{
    add_bytes, generator, generator_bytes, point_add, point_bytes, point_sub, random_scalar,
    scalar_mul, scalar_mul_bytes, sub_bytes,
};
use crate::batch::{arity_refusal, check_arity, check_output_batch, output_batch_refusal, same_arity_4};
use crate::error::OtError;
use crate::setup::{first_round_batch_post, first_round_post, valid_choice, valid_choices};
use curv_kzen::elliptic::curves::ed25519::{FE, GE};
use vstd::prelude::*;

pub use crate::setup::{first_round, first_round_batch, first_round_with};

verus! {

/// `v` is the message `x` with the secret `k` added, and taking `k` away
/// from `v` leaves `x`.
pub open spec fn blinds(v: Seq<u8>, k: Seq<u8>, x: Seq<u8>) -> bool {
    &&& v == add_bytes(k, x)
    &&& sub_bytes(v, k) == x
}

/// What the second round hands out when it has drawn the scalar `r`: the
/// generator raised to `r`, and each message with the secret of its branch
/// added.
pub open spec fn response_of(
    r: FE,
    x_0: GE,
    h_0: GE,
    x_1: GE,
    h_1: GE,
    u: GE,
    v_0: GE,
    v_1: GE,
) -> bool {
    &&& point_bytes(u) == scalar_mul_bytes(generator_bytes(), r)
    &&& blinds(
        point_bytes(v_0),
        scalar_mul_bytes(point_bytes(h_0), r),
        point_bytes(x_0),
    )
    &&& blinds(
        point_bytes(v_1),
        scalar_mul_bytes(point_bytes(h_1), r),
        point_bytes(x_1),
    )
}

/// `(u, v_0, v_1)` is an outcome of the second round on the messages
/// `x_0`, `x_1` and the receiver's elements `h_0`, `h_1`.
pub open spec fn second_round_post(
    x_0: GE,
    h_0: GE,
    x_1: GE,
    h_1: GE,
    u: GE,
    v_0: GE,
    v_1: GE,
) -> bool {
    exists|r: FE| response_of(r, x_0, h_0, x_1, h_1, u, v_0, v_1)
}

/// The encoding of what the receiver computes from the sender's response:
/// the ciphertext of its branch with `u^a` taken away.
pub open spec fn output_of(sigma: u8, a: FE, u: GE, v_0: GE, v_1: GE) -> Seq<u8> {
    sub_bytes(
        point_bytes(if sigma == 0 { v_0 } else { v_1 }),
        scalar_mul_bytes(point_bytes(u), a),
    )
}

/// `(u, v_0, v_1)` is an outcome of the batched second round: one outcome of
/// the second round at every index.
pub open spec fn second_round_batch_post(
    x_0: Seq<GE>,
    h_0: Seq<GE>,
    x_1: Seq<GE>,
    h_1: Seq<GE>,
    u: Seq<GE>,
    v_0: Seq<GE>,
    v_1: Seq<GE>,
) -> bool {
    &&& same_arity_4(x_0.len(), h_0.len(), x_1.len(), h_1.len())
    &&& u.len() == x_0.len()
    &&& v_0.len() == x_0.len()
    &&& v_1.len() == x_0.len()
    &&& forall|i: int|
        0 <= i < x_0.len() ==> second_round_post(
            x_0[i],
            h_0[i],
            x_1[i],
            h_1[i],
            #[trigger] u[i],
            v_0[i],
            v_1[i],
        )
}

/// `x` is what the batched output computation returns: the receiver's output
/// at every index.
pub open spec fn output_batch_post(
    sigmas: Seq<u8>,
    a: Seq<FE>,
    u: Seq<GE>,
    v_0: Seq<GE>,
    v_1: Seq<GE>,
    x: Seq<GE>,
) -> bool {
    &&& x.len() == sigmas.len()
    &&& forall|i: int|
        0 <= i < sigmas.len() ==> point_bytes(#[trigger] x[i]) == output_of(
            sigmas[i],
            a[i],
            u[i],
            v_0[i],
            v_1[i],
        )
}

/// The second round on a scalar `r` that the caller has drawn.
pub fn second_round_with(r: FE, x_0: GE, h_0: GE, x_1: GE, h_1: GE) -> (out: (GE, GE, GE))
    ensures
        response_of(r, x_0, h_0, x_1, h_1, out.0, out.1, out.2),
{
    let g = generator();
    let u = scalar_mul(&g, &r);
    let k_0 = scalar_mul(&h_0, &r);
    let k_1 = scalar_mul(&h_1, &r);
    let v_0 = point_add(&k_0, &x_0);
    let v_1 = point_add(&k_1, &x_1);
    (u, v_0, v_1)
}

/// The sender's second round. Draws one scalar for both branches and returns
/// its public key with the two blinded messages.
pub fn second_round(x_0: GE, h_0: GE, x_1: GE, h_1: GE) -> (out: (GE, GE, GE))
    ensures
        second_round_post(x_0, h_0, x_1, h_1, out.0, out.1, out.2),
{
    let r = random_scalar();
    second_round_with(r, x_0, h_0, x_1, h_1)
}

/// The second round for a sequence of independent instances, each with a
/// scalar of its own. Refuses the whole batch, before it draws anything, if
/// the four sequences are not equally long.
pub fn second_round_batch(
    x_0_vec: Vec<GE>,
    h_0_vec: Vec<GE>,
    x_1_vec: Vec<GE>,
    h_1_vec: Vec<GE>,
) -> (out: Result<(Vec<GE>, Vec<GE>, Vec<GE>), OtError>)
    ensures
        out.is_ok() <==> arity_refusal(
            x_0_vec@.len(),
            h_0_vec@.len(),
            x_1_vec@.len(),
            h_1_vec@.len(),
        ) is None,
        out matches Err(e) ==> arity_refusal(
            x_0_vec@.len(),
            h_0_vec@.len(),
            x_1_vec@.len(),
            h_1_vec@.len(),
        ) == Some(e),
        out matches Ok((u, v_0, v_1)) ==> second_round_batch_post(
            x_0_vec@,
            h_0_vec@,
            x_1_vec@,
            h_1_vec@,
            u@,
            v_0@,
            v_1@,
        ),
{
    if let Some(e) = check_arity(x_0_vec.len(), h_0_vec.len(), x_1_vec.len(), h_1_vec.len()) {
        return Err(e);
    }
    let n: usize = x_0_vec.len();
    let mut u_vec: Vec<GE> = Vec::with_capacity(n);
    let mut v_0_vec: Vec<GE> = Vec::with_capacity(n);
    let mut v_1_vec: Vec<GE> = Vec::with_capacity(n);
    let mut i: usize = 0;
    while i < n
        invariant
            i <= n,
            n == x_0_vec@.len(),
            n == h_0_vec@.len(),
            n == x_1_vec@.len(),
            n == h_1_vec@.len(),
            u_vec@.len() == i,
            v_0_vec@.len() == i,
            v_1_vec@.len() == i,
            forall|j: int|
                0 <= j < i ==> second_round_post(
                    x_0_vec@[j],
                    h_0_vec@[j],
                    x_1_vec@[j],
                    h_1_vec@[j],
                    #[trigger] u_vec@[j],
                    v_0_vec@[j],
                    v_1_vec@[j],
                ),
        decreases n - i,
    {
        let (u, v_0, v_1) = second_round(x_0_vec[i], h_0_vec[i], x_1_vec[i], h_1_vec[i]);
        u_vec.push(u);
        v_0_vec.push(v_0);
        v_1_vec.push(v_1);
        i += 1;
    }
    Ok((u_vec, v_0_vec, v_1_vec))
}

/// The receiver's output computation. Forms the secret `u^a` and takes it
/// away from the ciphertext of the branch `sigma`. Refuses a `sigma` that is
/// no choice bit.
pub fn output_computation(sigma: u8, a_i: FE, u: GE, v_0: GE, v_1: GE) -> (out: Result<
    GE,
    OtError,
>)
    ensures
        out.is_ok() <==> valid_choice(sigma),
        out matches Err(e) ==> e == OtError::InvalidChoiceBit,
        out matches Ok(x) ==> point_bytes(x) == output_of(sigma, a_i, u, v_0, v_1),
{
    if sigma > 1 {
        return Err(OtError::InvalidChoiceBit);
    }
    let v_sigma = if sigma == 0 {
        v_0
    } else {
        v_1
    };
    let k_sigma = scalar_mul(&u, &a_i);
    let x_sigma = point_sub(&v_sigma, &k_sigma);
    Ok(x_sigma)
}

/// The output computation for a sequence of independent instances. Refuses
/// the whole batch if the five sequences are not equally long or an entry of
/// `sigma_vec` is no choice bit.
pub fn output_computation_batch(
    sigma_vec: Vec<u8>,
    a_i_vec: Vec<FE>,
    u_vec: Vec<GE>,
    v_0_vec: Vec<GE>,
    v_1_vec: Vec<GE>,
) -> (out: Result<Vec<GE>, OtError>)
    ensures
        out.is_ok() <==> output_batch_refusal(
            sigma_vec@,
            a_i_vec@.len(),
            u_vec@.len(),
            v_0_vec@.len(),
            v_1_vec@.len(),
        ) is None,
        out matches Err(e) ==> output_batch_refusal(
            sigma_vec@,
            a_i_vec@.len(),
            u_vec@.len(),
            v_0_vec@.len(),
            v_1_vec@.len(),
        ) == Some(e),
        out matches Ok(x) ==> output_batch_post(
            sigma_vec@,
            a_i_vec@,
            u_vec@,
            v_0_vec@,
            v_1_vec@,
            x@,
        ),
{
    if let Some(e) = check_output_batch(
        &sigma_vec,
        a_i_vec.len(),
        u_vec.len(),
        v_0_vec.len(),
        v_1_vec.len(),
    ) {
        return Err(e);
    }
    let n: usize = sigma_vec.len();
    let mut x_vec: Vec<GE> = Vec::with_capacity(n);
    let mut i: usize = 0;
    while i < n
        invariant
            i <= n,
            n == sigma_vec@.len(),
            n == a_i_vec@.len(),
            n == u_vec@.len(),
            n == v_0_vec@.len(),
            n == v_1_vec@.len(),
            valid_choices(sigma_vec@),
            x_vec@.len() == i,
            forall|j: int|
                0 <= j < i ==> point_bytes(#[trigger] x_vec@[j]) == output_of(
                    sigma_vec@[j],
                    a_i_vec@[j],
                    u_vec@[j],
                    v_0_vec@[j],
                    v_1_vec@[j],
                ),
        decreases n - i,
    {
        match output_computation(sigma_vec[i], a_i_vec[i], u_vec[i], v_0_vec[i], v_1_vec[i]) {
            Ok(x) => {
                x_vec.push(x);
            },
            Err(e) => {
                return Err(e);
            },
        }
        i += 1;
    }
    Ok(x_vec)
}

/// The receiver learns the message of its choice: whatever scalars the two
/// parties drew, the output computed from an outcome of the first round and
/// an outcome of the second round on it is, as a group element, the message
/// on the side of the choice bit.
pub proof fn lemma_transfer_correct(
    sigma: u8,
    x_0: GE,
    x_1: GE,
    a: FE,
    h_0: GE,
    h_1: GE,
    u: GE,
    v_0: GE,
    v_1: GE,
)
    requires
        valid_choice(sigma),
        first_round_post(sigma, a, h_0, h_1),
        second_round_post(x_0, h_0, x_1, h_1, u, v_0, v_1),
    ensures
        output_of(sigma, a, u, v_0, v_1) == point_bytes(if sigma == 0 {
            x_0
        } else {
            x_1
        }),
{
    let r = choose|r: FE| response_of(r, x_0, h_0, x_1, h_1, u, v_0, v_1);
    let key = if sigma == 0 { h_0 } else { h_1 };
    let shared = scalar_mul_bytes(point_bytes(key), r);
    assert(shared == scalar_mul_bytes(point_bytes(u), a));
}

/// The batched rounds transfer at every index what the single rounds
/// transfer: the batched output computation accepts the outcomes of the
/// batched first and second round, and its output at an index is the output
/// of the single round there, which is, as a group element, the message that
/// the choice bit at that index selects.
pub proof fn lemma_batch_transfer_correct(
    sigmas: Seq<u8>,
    x_0: Seq<GE>,
    x_1: Seq<GE>,
    a: Seq<FE>,
    h_0: Seq<GE>,
    h_1: Seq<GE>,
    u: Seq<GE>,
    v_0: Seq<GE>,
    v_1: Seq<GE>,
    x: Seq<GE>,
)
    requires
        valid_choices(sigmas),
        first_round_batch_post(sigmas, a, h_0, h_1),
        second_round_batch_post(x_0, h_0, x_1, h_1, u, v_0, v_1),
        output_batch_post(sigmas, a, u, v_0, v_1, x),
    ensures
        output_batch_refusal(sigmas, a.len(), u.len(), v_0.len(), v_1.len()) is None,
        forall|i: int|
            0 <= i < sigmas.len() ==> {
                &&& point_bytes(#[trigger] x[i]) == output_of(
                    sigmas[i],
                    a[i],
                    u[i],
                    v_0[i],
                    v_1[i],
                )
                &&& point_bytes(x[i]) == point_bytes(
                    if sigmas[i] == 0 {
                        x_0[i]
                    } else {
                        x_1[i]
                    },
                )
            },
{
    assert forall|i: int| 0 <= i < sigmas.len() implies point_bytes(#[trigger] x[i])
        == point_bytes(if sigmas[i] == 0 {
        x_0[i]
    } else {
        x_1[i]
    }) by {
        assert(first_round_post(sigmas[i], a[i], h_0[i], h_1[i]));
        assert(second_round_post(x_0[i], h_0[i], x_1[i], h_1[i], u[i], v_0[i], v_1[i]));
        assert(valid_choice(sigmas[i]));
        lemma_transfer_correct(
            sigmas[i],
            x_0[i],
            x_1[i],
            a[i],
            h_0[i],
            h_1[i],
            u[i],
            v_0[i],
            v_1[i],
        );
    }
}

} // verus!
