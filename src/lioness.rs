//! The LIONESS construction: key schedule, the two round functions and the
//! four-round unbalanced Feistel network over one block.

use vstd::prelude::*;
use core::marker::PhantomData;
use crate::primitives::{MacPrimitive, StreamPrimitive};
use crate::xor::{lemma_xor_onto_twice, xor, xor_in_place, xor_onto, xor_seq};

verus! {

/// A block was no longer than the MAC's digest, so its right half would be empty.
#[derive(Debug, PartialEq, Eq, Structural)]
pub struct InvalidBlockLength;

/// Length of a master key: `2 * (stream key size + MAC key size)`.
pub open spec fn spec_master_key_size<S: StreamPrimitive, H: MacPrimitive>() -> nat {
    2 * (S::spec_key_size() + H::spec_key_size())
}

/// The right half after it is XORed with the keystream keyed by the left half
/// XOR `k`; only the first `|k|` bytes of the left half take part.
pub open spec fn stream_round<S: StreamPrimitive>(left: Seq<u8>, right: Seq<u8>, k: Seq<u8>) -> Seq<u8> {
    xor_onto(right, S::keystream(xor_seq(left, k), right.len()))
}

/// The left half after it is XORed with the digest of the right half under `k`.
pub open spec fn digest_round<H: MacPrimitive>(left: Seq<u8>, right: Seq<u8>, k: Seq<u8>) -> Seq<u8> {
    xor_onto(left, H::digest(k, right))
}

/// Encryption of `block` under the subkeys `k1`..`k4`: with `L` the first
/// digest-length bytes and `R` the rest,
/// `R ^= S(L ^ k1); L ^= H(k2, R); R ^= S(L ^ k3); L ^= H(k4, R)`.
pub open spec fn lioness_encrypt<S: StreamPrimitive, H: MacPrimitive>(
    k1: Seq<u8>,
    k2: Seq<u8>,
    k3: Seq<u8>,
    k4: Seq<u8>,
    block: Seq<u8>,
) -> Seq<u8> {
    let m = H::spec_output_size() as int;
    let l0 = block.subrange(0, m);
    let r0 = block.subrange(m, block.len() as int);
    let r1 = stream_round::<S>(l0, r0, k1);
    let l1 = digest_round::<H>(l0, r1, k2);
    let r2 = stream_round::<S>(l1, r1, k3);
    let l2 = digest_round::<H>(l1, r2, k4);
    l2 + r2
}

/// Decryption of `block` under the subkeys `k1`..`k4`: the rounds of
/// encryption in reverse order,
/// `L ^= H(k4, R); R ^= S(L ^ k3); L ^= H(k2, R); R ^= S(L ^ k1)`.
pub open spec fn lioness_decrypt<S: StreamPrimitive, H: MacPrimitive>(
    k1: Seq<u8>,
    k2: Seq<u8>,
    k3: Seq<u8>,
    k4: Seq<u8>,
    block: Seq<u8>,
) -> Seq<u8> {
    let m = H::spec_output_size() as int;
    let l0 = block.subrange(0, m);
    let r0 = block.subrange(m, block.len() as int);
    let l1 = digest_round::<H>(l0, r0, k4);
    let r1 = stream_round::<S>(l1, r0, k3);
    let l2 = digest_round::<H>(l1, r1, k2);
    let r2 = stream_round::<S>(l2, r1, k1);
    l2 + r2
}

/// `left ^= MAC(digest_key, right)`.
fn left_xor_assign_digest<H: MacPrimitive>(left: &mut [u8], right: &[u8], digest_key: &[u8])
    requires
        digest_key@.len() == H::spec_key_size(),
    ensures
        final(left)@ == digest_round::<H>(old(left)@, right@, digest_key@),
{
    let tmp = H::mac(digest_key, right);
    xor_in_place(left, tmp.as_slice());
}

/// `right ^= Stream(left ^ stream_key_half)`, where the stream key is as long
/// as `stream_key_half`.
fn right_xor_assign_stream<S: StreamPrimitive>(left: &[u8], right: &mut [u8], stream_key_half: &[u8])
    requires
        stream_key_half@.len() == S::spec_key_size(),
        left@.len() >= S::spec_key_size(),
        old(right)@.len() <= S::spec_max_len(),
    ensures
        final(right)@ == stream_round::<S>(left@, old(right)@, stream_key_half@),
{
    let stream_key = xor(left, stream_key_half);
    S::apply_keystream(stream_key.as_slice(), right);
}

/// LIONESS keyed by four subkeys: `k1` and `k3` for the stream cipher `S`,
/// `k2` and `k4` for the MAC `H`.
pub struct Lioness<S: StreamPrimitive, H: MacPrimitive> {
    k1: Vec<u8>,
    k2: Vec<u8>,
    k3: Vec<u8>,
    k4: Vec<u8>,
    stream: PhantomData<S>,
    mac: PhantomData<H>,
}

impl<S: StreamPrimitive, H: MacPrimitive> Lioness<S, H> {
    /// First stream subkey.
    pub closed spec fn k1(&self) -> Seq<u8> {
        self.k1@
    }

    /// First MAC subkey.
    pub closed spec fn k2(&self) -> Seq<u8> {
        self.k2@
    }

    /// Second stream subkey.
    pub closed spec fn k3(&self) -> Seq<u8> {
        self.k3@
    }

    /// Second MAC subkey.
    pub closed spec fn k4(&self) -> Seq<u8> {
        self.k4@
    }

    /// The subkeys have the primitives' key sizes, and a digest is at least
    /// as long as a stream key.
    pub open spec fn wf(&self) -> bool {
        &&& self.k1().len() == S::spec_key_size()
        &&& self.k2().len() == H::spec_key_size()
        &&& self.k3().len() == S::spec_key_size()
        &&& self.k4().len() == H::spec_key_size()
        &&& H::spec_output_size() >= S::spec_key_size()
    }

    /// The subkeys are the master key `key` cut into `k1 || k2 || k3 || k4`,
    /// with stream subkeys of the stream cipher's key size and MAC subkeys of
    /// the MAC's key size.
    pub open spec fn keyed_by(&self, key: Seq<u8>) -> bool {
        let s = S::spec_key_size() as int;
        let h = H::spec_key_size() as int;
        &&& self.k1() == key.subrange(0, s)
        &&& self.k2() == key.subrange(s, s + h)
        &&& self.k3() == key.subrange(s + h, 2 * s + h)
        &&& self.k4() == key.subrange(2 * s + h, key.len() as int)
    }

    /// What encryption makes of `block`.
    pub open spec fn spec_encrypt(&self, block: Seq<u8>) -> Seq<u8> {
        lioness_encrypt::<S, H>(self.k1(), self.k2(), self.k3(), self.k4(), block)
    }

    /// What decryption makes of `block`.
    pub open spec fn spec_decrypt(&self, block: Seq<u8>) -> Seq<u8> {
        lioness_decrypt::<S, H>(self.k1(), self.k2(), self.k3(), self.k4(), block)
    }

    /// Split a master key into `k1 || k2 || k3 || k4`, in that order.
    pub fn new(key: &[u8]) -> (r: Self)
        requires
            key@.len() == spec_master_key_size::<S, H>(),
            H::spec_output_size() >= S::spec_key_size(),
        ensures
            r.wf(),
            r.keyed_by(key@),
    {
        let sck = S::key_size();
        let hk = H::key_size();
        let n = key.len();
        assert(n == 2 * (sck + hk));
        let a = sck + hk;
        let b = a + sck;
        Lioness {
            k1: copy_range(key, 0, sck),
            k2: copy_range(key, sck, a),
            k3: copy_range(key, a, b),
            k4: copy_range(key, b, n),
            stream: PhantomData,
            mac: PhantomData,
        }
    }

    /// The four subkeys `(k1, k2, k3, k4)`.
    pub fn subkeys(&self) -> (r: (&[u8], &[u8], &[u8], &[u8]))
        ensures
            r.0@ == self.k1(),
            r.1@ == self.k2(),
            r.2@ == self.k3(),
            r.3@ == self.k4(),
    {
        (self.k1.as_slice(), self.k2.as_slice(), self.k3.as_slice(), self.k4.as_slice())
    }

    /// Encrypt `block` in place. A block no longer than a digest is refused
    /// and left as it is.
    pub fn encrypt_block(&self, block: &mut [u8]) -> (r: Result<(), InvalidBlockLength>)
        requires
            self.wf(),
            old(block)@.len() <= H::spec_output_size() + S::spec_max_len(),
        ensures
            old(block)@.len() <= H::spec_output_size() ==> r == Err::<(), _>(InvalidBlockLength)
                && final(block)@ == old(block)@,
            old(block)@.len() > H::spec_output_size() ==> r == Ok::<(), InvalidBlockLength>(())
                && final(block)@ == self.spec_encrypt(old(block)@),
    {
        let m = H::output_size();
        if block.len() <= m {
            return Err(InvalidBlockLength);
        }
        let (left, right) = block.split_at_mut(m);

        // R = R ^ S(L ^ K1)
        right_xor_assign_stream::<S>(left, right, self.k1.as_slice());
        // L = L ^ H(K2, R)
        left_xor_assign_digest::<H>(left, right, self.k2.as_slice());
        // R = R ^ S(L ^ K3)
        right_xor_assign_stream::<S>(left, right, self.k3.as_slice());
        // L = L ^ H(K4, R)
        left_xor_assign_digest::<H>(left, right, self.k4.as_slice());
        Ok(())
    }

    /// Decrypt `block` in place. A block no longer than a digest is refused
    /// and left as it is.
    pub fn decrypt_block(&self, block: &mut [u8]) -> (r: Result<(), InvalidBlockLength>)
        requires
            self.wf(),
            old(block)@.len() <= H::spec_output_size() + S::spec_max_len(),
        ensures
            old(block)@.len() <= H::spec_output_size() ==> r == Err::<(), _>(InvalidBlockLength)
                && final(block)@ == old(block)@,
            old(block)@.len() > H::spec_output_size() ==> r == Ok::<(), InvalidBlockLength>(())
                && final(block)@ == self.spec_decrypt(old(block)@),
    {
        let m = H::output_size();
        if block.len() <= m {
            return Err(InvalidBlockLength);
        }
        let (left, right) = block.split_at_mut(m);

        // L = L ^ H(K4, R)
        left_xor_assign_digest::<H>(left, right, self.k4.as_slice());
        // R = R ^ S(L ^ K3)
        right_xor_assign_stream::<S>(left, right, self.k3.as_slice());
        // L = L ^ H(K2, R)
        left_xor_assign_digest::<H>(left, right, self.k2.as_slice());
        // R = R ^ S(L ^ K1)
        right_xor_assign_stream::<S>(left, right, self.k1.as_slice());
        Ok(())
    }
}

/// A copy of `s[start..end]`.
fn copy_range(s: &[u8], start: usize, end: usize) -> (r: Vec<u8>)
    requires
        start <= end <= s@.len(),
    ensures
        r@ == s@.subrange(start as int, end as int),
{
    let mut r: Vec<u8> = Vec::with_capacity(end - start);
    let mut i: usize = start;
    while i < end
        invariant
            start <= i <= end,
            end <= s@.len(),
            r@ == s@.subrange(start as int, i as int),
        decreases end - i,
    {
        r.push(s[i]);
        i = i + 1;
        assert(r@ =~= s@.subrange(start as int, i as int));
    }
    r
}

/// Decryption undoes encryption: for every well-formed key schedule and every
/// block longer than a digest, decrypting the encrypted block gives the block.
pub proof fn lemma_decrypt_encrypt<S: StreamPrimitive, H: MacPrimitive>(
    c: Lioness<S, H>,
    block: Seq<u8>,
)
    requires
        c.wf(),
        block.len() > H::spec_output_size(),
    ensures
        c.spec_decrypt(c.spec_encrypt(block)) == block,
{
    let m = H::spec_output_size() as int;
    let l0 = block.subrange(0, m);
    let r0 = block.subrange(m, block.len() as int);
    let r1 = stream_round::<S>(l0, r0, c.k1());
    let l1 = digest_round::<H>(l0, r1, c.k2());
    let r2 = stream_round::<S>(l1, r1, c.k3());
    let l2 = digest_round::<H>(l1, r2, c.k4());
    let e = c.spec_encrypt(block);
    assert(e == l2 + r2);
    assert(e.subrange(0, m) =~= l2);
    assert(e.subrange(m, e.len() as int) =~= r2);
    lemma_xor_onto_twice(l1, H::digest(c.k4(), r2));
    lemma_xor_onto_twice(r1, S::keystream(xor_seq(l1, c.k3()), r1.len()));
    lemma_xor_onto_twice(l0, H::digest(c.k2(), r1));
    lemma_xor_onto_twice(r0, S::keystream(xor_seq(l0, c.k1()), r0.len()));
    assert(l0 + r0 =~= block);
}

/// Encryption undoes decryption: for every well-formed key schedule and every
/// block longer than a digest, encrypting the decrypted block gives the block.
pub proof fn lemma_encrypt_decrypt<S: StreamPrimitive, H: MacPrimitive>(
    c: Lioness<S, H>,
    block: Seq<u8>,
)
    requires
        c.wf(),
        block.len() > H::spec_output_size(),
    ensures
        c.spec_encrypt(c.spec_decrypt(block)) == block,
{
    let m = H::spec_output_size() as int;
    let l0 = block.subrange(0, m);
    let r0 = block.subrange(m, block.len() as int);
    let l1 = digest_round::<H>(l0, r0, c.k4());
    let r1 = stream_round::<S>(l1, r0, c.k3());
    let l2 = digest_round::<H>(l1, r1, c.k2());
    let r2 = stream_round::<S>(l2, r1, c.k1());
    let d = c.spec_decrypt(block);
    assert(d == l2 + r2);
    assert(d.subrange(0, m) =~= l2);
    assert(d.subrange(m, d.len() as int) =~= r2);
    lemma_xor_onto_twice(r1, S::keystream(xor_seq(l2, c.k1()), r1.len()));
    lemma_xor_onto_twice(l1, H::digest(c.k2(), r1));
    lemma_xor_onto_twice(r0, S::keystream(xor_seq(l1, c.k3()), r0.len()));
    lemma_xor_onto_twice(l0, H::digest(c.k4(), r0));
    assert(l0 + r0 =~= block);
}

} // verus!
