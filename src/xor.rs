//! Byte-wise exclusive or over sequences.

use vstd::prelude::*;

verus! {

/// The byte-wise exclusive or of `a` and `b`, as long as the shorter of them.
pub open spec fn xor_seq(a: Seq<u8>, b: Seq<u8>) -> Seq<u8> {
    let n = if a.len() <= b.len() { a.len() } else { b.len() };
    Seq::new(n, |i: int| a[i] ^ b[i])
}

/// `a` with `b` XORed into it: the first `min(|a|, |b|)` bytes are combined,
/// the rest of `a` stays as it is.
pub open spec fn xor_onto(a: Seq<u8>, b: Seq<u8>) -> Seq<u8> {
    Seq::new(a.len(), |i: int| if i < b.len() { a[i] ^ b[i] } else { a[i] })
}

/// XORing the same bytes in twice gives back the starting sequence.
pub proof fn lemma_xor_onto_twice(a: Seq<u8>, b: Seq<u8>)
    ensures
        xor_onto(xor_onto(a, b), b) == a,
{
    assert forall|i: int| 0 <= i < a.len() implies #[trigger] xor_onto(xor_onto(a, b), b)[i]
        == a[i] by {
        if i < b.len() {
            let (x, y) = (a[i], b[i]);
            assert((x ^ y) ^ y == x) by (bit_vector);
        }
    }
    assert(xor_onto(xor_onto(a, b), b) =~= a);
}

/// XOR `b` into `a`, position by position, over the shorter of the two.
pub fn xor_in_place(a: &mut [u8], b: &[u8])
    ensures
        final(a)@ == xor_onto(old(a)@, b@),
{
    let n = if a.len() <= b.len() { a.len() } else { b.len() };
    let mut i: usize = 0;
    while i < n
        invariant
            n <= old(a)@.len(),
            n <= b@.len(),
            n == old(a)@.len() || n == b@.len(),
            i <= n,
            a@.len() == old(a)@.len(),
            forall|j: int| 0 <= j < i ==> a@[j] == old(a)@[j] ^ b@[j],
            forall|j: int| i <= j < a@.len() ==> a@[j] == old(a)@[j],
        decreases n - i,
    {
        a[i] = a[i] ^ b[i];
        i = i + 1;
    }
    assert(a@ =~= xor_onto(old(a)@, b@));
}

/// The byte-wise exclusive or of `a` and `b`, as long as the shorter of them.
pub fn xor(a: &[u8], b: &[u8]) -> (r: Vec<u8>)
    ensures
        r@ == xor_seq(a@, b@),
{
    let n = if a.len() <= b.len() { a.len() } else { b.len() };
    let mut r: Vec<u8> = Vec::with_capacity(n);
    let mut i: usize = 0;
    while i < n
        invariant
            n == xor_seq(a@, b@).len(),
            i <= n,
            r@ == xor_seq(a@, b@).subrange(0, i as int),
        decreases n - i,
    {
        r.push(a[i] ^ b[i]);
        i = i + 1;
        assert(r@ =~= xor_seq(a@, b@).subrange(0, i as int));
    }
    assert(r@ =~= xor_seq(a@, b@));
    r
}

} // verus!
