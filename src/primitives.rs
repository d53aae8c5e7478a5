//! The two keyed primitives that LIONESS is built from, and the pair it is
//! most often used with: the ChaCha20 stream cipher and keyed BLAKE3.

use vstd::prelude::*;
use crate::xor::xor_onto;

verus! {

/// A keyed stream cipher, used with a fixed all-zero initialisation vector.
pub trait StreamPrimitive {
    /// Length of a key, in bytes.
    spec fn spec_key_size() -> nat;

    /// Length of the longest data that one fresh keystream can cover.
    spec fn spec_max_len() -> nat;

    /// The first `n` bytes of the keystream for `key` and the all-zero IV.
    spec fn keystream(key: Seq<u8>, n: nat) -> Seq<u8>;

    fn key_size() -> (r: usize)
        ensures
            r == Self::spec_key_size(),
    ;

    /// XOR the keystream for `key` into `data`, from the keystream's start.
    fn apply_keystream(key: &[u8], data: &mut [u8])
        requires
            key@.len() == Self::spec_key_size(),
            old(data)@.len() <= Self::spec_max_len(),
        ensures
            final(data)@ == xor_onto(old(data)@, Self::keystream(key@, old(data)@.len())),
    ;
}

/// A keyed message authentication code with a digest of fixed length.
pub trait MacPrimitive {
    /// Length of a key, in bytes.
    spec fn spec_key_size() -> nat;

    /// Length of a digest, in bytes.
    spec fn spec_output_size() -> nat;

    /// The digest of `msg` under `key`.
    spec fn digest(key: Seq<u8>, msg: Seq<u8>) -> Seq<u8>;

    fn key_size() -> (r: usize)
        ensures
            r == Self::spec_key_size(),
    ;

    fn output_size() -> (r: usize)
        ensures
            r == Self::spec_output_size(),
    ;

    /// The digest of `msg` under `key`.
    fn mac(key: &[u8], msg: &[u8]) -> (r: Vec<u8>)
        requires
            key@.len() == Self::spec_key_size(),
        ensures
            r@ == Self::digest(key@, msg@),
            r@.len() == Self::spec_output_size(),
    ;
}

/// The ChaCha20 stream cipher (IETF variant: 32-byte key, 12-byte nonce,
/// 32-bit block counter).
pub struct ChaCha20;

/// ChaCha20 keys are 32 bytes long.
pub const CHACHA20_KEY_SIZE: usize = 32;

/// ChaCha20 nonces are 12 bytes long.
pub const CHACHA20_NONCE_SIZE: usize = 12;

/// A fresh ChaCha20 keystream has 2^32 blocks of 64 bytes.
pub const CHACHA20_MAX_LEN: u64 = 274877906944;

/// The first `n` bytes of the ChaCha20 keystream for `key` and `nonce`.
pub uninterp spec fn chacha20_keystream(key: Seq<u8>, nonce: Seq<u8>, n: nat) -> Seq<u8>;

/// The initialisation vector that LIONESS keys its stream cipher with.
pub open spec fn zero_nonce() -> Seq<u8> {
    Seq::new(CHACHA20_NONCE_SIZE as nat, |i: int| 0u8)
}

/// Relies on `chacha20::ChaCha20` through cipher's `NewCipher::new` and
/// `StreamCipher::apply_keystream`: a fresh instance XORs its keystream for
/// `key` and `nonce` into `data`, from the keystream's start. It panics when
/// `data` runs past the end of the keystream, so longer data is left out.
#[verifier::external_body]
#[allow(deprecated)]
fn chacha20_apply_keystream(key: &[u8], nonce: &[u8], data: &mut [u8])
    requires
        key@.len() == CHACHA20_KEY_SIZE,
        nonce@.len() == CHACHA20_NONCE_SIZE,
        old(data)@.len() <= CHACHA20_MAX_LEN,
    ensures
        final(data)@ == xor_onto(old(data)@, chacha20_keystream(key@, nonce@, old(data)@.len())),
{
    let key = generic_array::GenericArray::from_slice(key);
    let nonce = generic_array::GenericArray::from_slice(nonce);
    let mut s = <chacha20::ChaCha20 as cipher::NewCipher>::new(key, nonce);
    cipher::StreamCipher::apply_keystream(&mut s, data);
}

impl StreamPrimitive for ChaCha20 {
    open spec fn spec_key_size() -> nat {
        CHACHA20_KEY_SIZE as nat
    }

    open spec fn spec_max_len() -> nat {
        CHACHA20_MAX_LEN as nat
    }

    open spec fn keystream(key: Seq<u8>, n: nat) -> Seq<u8> {
        chacha20_keystream(key, zero_nonce(), n)
    }

    fn key_size() -> (r: usize) {
        CHACHA20_KEY_SIZE
    }

    fn apply_keystream(key: &[u8], data: &mut [u8]) {
        let nonce = [0u8; CHACHA20_NONCE_SIZE];
        assert(nonce@ =~= zero_nonce());
        chacha20_apply_keystream(key, &nonce, data);
    }
}

/// Keyed BLAKE3 as a MAC: 32-byte key, 32-byte digest.
pub struct Blake3;

/// Keyed BLAKE3 keys are 32 bytes long.
pub const BLAKE3_KEY_SIZE: usize = 32;

/// Keyed BLAKE3 digests are 32 bytes long.
pub const BLAKE3_OUTPUT_SIZE: usize = 32;

/// The keyed BLAKE3 digest of `msg` under `key`.
pub uninterp spec fn blake3_keyed_digest(key: Seq<u8>, msg: Seq<u8>) -> Seq<u8>;

/// Relies on `blake3::Hasher` through crypto-mac's `NewMac::new`, `Mac::update`
/// and `Mac::finalize`: the keyed BLAKE3 digest of `msg`, whose length is the
/// hasher's `OutputSize`, 32 bytes.
#[verifier::external_body]
#[allow(deprecated)]
fn blake3_mac(key: &[u8], msg: &[u8]) -> (r: Vec<u8>)
    requires
        key@.len() == BLAKE3_KEY_SIZE,
    ensures
        r@ == blake3_keyed_digest(key@, msg@),
        r@.len() == BLAKE3_OUTPUT_SIZE,
{
    let key = generic_array::GenericArray::from_slice(key);
    let mut h = <blake3::Hasher as crypto_mac::NewMac>::new(key);
    crypto_mac::Mac::update(&mut h, msg);
    crypto_mac::Mac::finalize(h).into_bytes().to_vec()
}

impl MacPrimitive for Blake3 {
    open spec fn spec_key_size() -> nat {
        BLAKE3_KEY_SIZE as nat
    }

    open spec fn spec_output_size() -> nat {
        BLAKE3_OUTPUT_SIZE as nat
    }

    open spec fn digest(key: Seq<u8>, msg: Seq<u8>) -> Seq<u8> {
        blake3_keyed_digest(key, msg)
    }

    fn key_size() -> (r: usize) {
        BLAKE3_KEY_SIZE
    }

    fn output_size() -> (r: usize) {
        BLAKE3_OUTPUT_SIZE
    }

    fn mac(key: &[u8], msg: &[u8]) -> (r: Vec<u8>) {
        blake3_mac(key, msg)
    }
}

} // verus!
