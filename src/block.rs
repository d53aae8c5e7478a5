//! LIONESS at one fixed block size, as an infallible block cipher.

use vstd::prelude::*;
use crate::lioness::{spec_master_key_size, Lioness};
use crate::primitives::{MacPrimitive, StreamPrimitive};

verus! {

/// LIONESS over blocks of exactly `N` bytes, where `N` is longer than a digest.
pub struct BlockLioness<S: StreamPrimitive, H: MacPrimitive, const N: usize> {
    inner: Lioness<S, H>,
}

impl<S: StreamPrimitive, H: MacPrimitive, const N: usize> BlockLioness<S, H, N> {
    /// The variable-length cipher underneath.
    pub closed spec fn inner(&self) -> Lioness<S, H> {
        self.inner
    }

    /// The cipher underneath is well formed, and an `N`-byte block has a
    /// non-empty right half that one keystream covers.
    pub open spec fn wf(&self) -> bool {
        &&& self.inner().wf()
        &&& N > H::spec_output_size()
        &&& N <= H::spec_output_size() + S::spec_max_len()
    }

    /// Key the cipher with a master key, split as `Lioness::new` splits it.
    pub fn new(key: &[u8]) -> (r: Self)
        requires
            key@.len() == spec_master_key_size::<S, H>(),
            H::spec_output_size() >= S::spec_key_size(),
            N > H::spec_output_size(),
            N <= H::spec_output_size() + S::spec_max_len(),
        ensures
            r.wf(),
            r.inner().keyed_by(key@),
    {
        BlockLioness { inner: Lioness::new(key) }
    }

    /// Encrypt one `N`-byte block in place.
    pub fn encrypt_block(&self, block: &mut [u8; N])
        requires
            self.wf(),
        ensures
            final(block)@ == self.inner().spec_encrypt(old(block)@),
    {
        let r = self.inner.encrypt_block(block);
        match r {
            Ok(()) => {},
            Err(_) => {},
        }
    }

    /// Decrypt one `N`-byte block in place.
    pub fn decrypt_block(&self, block: &mut [u8; N])
        requires
            self.wf(),
        ensures
            final(block)@ == self.inner().spec_decrypt(old(block)@),
    {
        let r = self.inner.decrypt_block(block);
        match r {
            Ok(()) => {},
            Err(_) => {},
        }
    }
}

} // verus!
