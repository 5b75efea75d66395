//! What a batched round checks before it starts on its instances.
//!
//! A batch is a number of sequences, one per argument of the single round,
//! and index `i` of each belongs to instance `i`. Sequences of unequal length
//! are refused, never cut to the shortest.

use crate::error::OtError;
use crate::setup::{valid_choice_bits, valid_choices};
use vstd::prelude::*;

verus! {

/// The four sequences of a batched second round are equally long.
pub open spec fn same_arity_4(a: nat, b: nat, c: nat, d: nat) -> bool {
    a == b && a == c && a == d
}

/// The five sequences of a batched output computation are equally long.
pub open spec fn same_arity_5(a: nat, b: nat, c: nat, d: nat, e: nat) -> bool {
    a == b && a == c && a == d && a == e
}

/// Why a batched second round refuses sequences of these lengths, if it does.
pub open spec fn arity_refusal(x_0: nat, h_0: nat, x_1: nat, h_1: nat) -> Option<OtError> {
    if same_arity_4(x_0, h_0, x_1, h_1) {
        None
    } else {
        Some(OtError::ArityMismatch)
    }
}

/// Why a batched output computation refuses the choice bits `sigmas` beside
/// four sequences of the given lengths, if it does: unequal lengths come
/// first, then an entry that is no choice bit.
pub open spec fn output_batch_refusal(sigmas: Seq<u8>, a: nat, u: nat, v_0: nat, v_1: nat) -> Option<
    OtError,
> {
    if !same_arity_5(sigmas.len(), a, u, v_0, v_1) {
        Some(OtError::ArityMismatch)
    } else if !valid_choices(sigmas) {
        Some(OtError::InvalidChoiceBit)
    } else {
        None
    }
}

/// Checks the lengths of the four sequences of a batched second round.
pub fn check_arity(x_0: usize, h_0: usize, x_1: usize, h_1: usize) -> (refusal: Option<OtError>)
    ensures
        refusal == arity_refusal(x_0 as nat, h_0 as nat, x_1 as nat, h_1 as nat),
{
    if h_0 != x_0 || x_1 != x_0 || h_1 != x_0 {
        Some(OtError::ArityMismatch)
    } else {
        None
    }
}

/// Checks the input of a batched output computation: the choice bits and the
/// lengths of the four sequences beside them.
pub fn check_output_batch(sigma_vec: &Vec<u8>, a: usize, u: usize, v_0: usize, v_1: usize) -> (refusal:
    Option<OtError>)
    ensures
        refusal == output_batch_refusal(sigma_vec@, a as nat, u as nat, v_0 as nat, v_1 as nat),
{
    let n: usize = sigma_vec.len();
    if a != n || u != n || v_0 != n || v_1 != n {
        Some(OtError::ArityMismatch)
    } else if !valid_choice_bits(sigma_vec) {
        Some(OtError::InvalidChoiceBit)
    } else {
        None
    }
}

} // verus!
