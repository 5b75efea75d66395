//! Byte strings under exclusive or.

use vstd::prelude::*;

verus! {

/// The shorter of two lengths.
pub open spec fn shorter(a: nat, b: nat) -> nat {
    if a <= b {
        a
    } else {
        b
    }
}

/// The bytes of `x` and `y` combined position by position under exclusive or,
/// as far as both reach.
pub open spec fn xor_bytes(x: Seq<u8>, y: Seq<u8>) -> Seq<u8> {
    Seq::new(shorter(x.len(), y.len()), |i: int| x[i] ^ y[i])
}

/// Exclusive or of two byte strings, cut to the shorter one.
pub fn xor(x: &Vec<u8>, y: &Vec<u8>) -> (out: Vec<u8>)
    ensures
        out@ == xor_bytes(x@, y@),
{
    let n: usize = if x.len() <= y.len() {
        x.len()
    } else {
        y.len()
    };
    let mut out: Vec<u8> = Vec::with_capacity(n);
    let mut i: usize = 0;
    while i < n
        invariant
            i <= n,
            n == shorter(x@.len(), y@.len()),
            out@.len() == i,
            forall|j: int| 0 <= j < i ==> out@[j] == x@[j] ^ y@[j],
        decreases n - i,
    {
        out.push(x[i] ^ y[i]);
        i += 1;
    }
    out
}

/// Masking twice with the same mask gives the message back, as long as the
/// mask is at least as long as the message.
pub proof fn lemma_xor_unmasks(mask: Seq<u8>, message: Seq<u8>)
    requires
        message.len() <= mask.len(),
    ensures
        xor_bytes(xor_bytes(mask, message), mask) == message,
{
    assert forall|i: int| 0 <= i < message.len() implies (mask[i] ^ message[i]) ^ mask[i]
        == message[i] by {
        let a: u8 = mask[i];
        let b: u8 = message[i];
        assert((a ^ b) ^ a == b) by (bit_vector);
    }
    assert(xor_bytes(xor_bytes(mask, message), mask) =~= message);
}

} // verus!
