use lioness::{Blake3, BlockLioness, ChaCha20, InvalidBlockLength, Lioness};

const KEY: &[u8; 128] = b"my-awesome-key-that-is-perfect-length-to-work-with-chacha20-and-blake3-lioness-cipher-after-adding-a-little-bit-of-extra-padding";

fn pattern_key() -> Vec<u8> {
    (0..128u32).map(|i| (i * 7 + 3) as u8).collect()
}

#[test]
fn cipher_creation_works_for_chacha20_blake3_variant() {
    type Cipher = Lioness<ChaCha20, Blake3>;
    let zero_key = [0u8; 128];
    Cipher::new(&zero_key);
}

#[test]
fn encryption_is_reciprocal_to_decryption_for_chacha20_blake3_variant() {
    type Cipher = Lioness<ChaCha20, Blake3>;

    let data = b"Hello there! This is some test data that has length at least as long as the digest size of Blake3.";
    let mut block = *data;

    let cipher = Cipher::new(KEY);
    cipher.encrypt_block(&mut block).unwrap();

    // make sure encryption actually did something
    assert_ne!(data.to_vec(), block.to_vec());

    cipher.decrypt_block(&mut block).unwrap();
    assert_eq!(data.to_vec(), block.to_vec());
}

#[test]
fn cipher_creation_works_for_block_chacha20_blake3_variant() {
    type Cipher = BlockLioness<ChaCha20, Blake3, 64>;
    let zero_key = [0u8; 128];
    Cipher::new(&zero_key);
}

#[test]
fn encryption_is_reciprocal_to_decryption_for_block_chacha20_blake3_variant() {
    type Cipher = BlockLioness<ChaCha20, Blake3, 64>;

    let data = b"This is some test data of the same length as specified blockSize".to_owned();
    let mut block = data;

    let cipher = Cipher::new(KEY);
    cipher.encrypt_block(&mut block);

    // make sure encryption actually did something
    assert_ne!(data.to_vec(), block.to_vec());

    cipher.decrypt_block(&mut block);
    assert_eq!(data.to_vec(), block.to_vec());
}

#[test]
fn subkeys_are_consecutive_slices_of_the_master_key() {
    let key = pattern_key();
    let cipher = Lioness::<ChaCha20, Blake3>::new(&key);
    let (k1, k2, k3, k4) = cipher.subkeys();
    assert_eq!(k1, &key[0..32]);
    assert_eq!(k2, &key[32..64]);
    assert_eq!(k3, &key[64..96]);
    assert_eq!(k4, &key[96..128]);
}

#[test]
fn shortest_accepted_block_round_trips() {
    let cipher = Lioness::<ChaCha20, Blake3>::new(&pattern_key());
    let data: Vec<u8> = (0..33u8).collect();
    let mut block = data.clone();
    assert_eq!(cipher.encrypt_block(&mut block), Ok(()));
    assert_ne!(block, data);
    assert_eq!(block.len(), data.len());
    assert_eq!(cipher.decrypt_block(&mut block), Ok(()));
    assert_eq!(block, data);
}

#[test]
fn decryption_then_encryption_is_identity() {
    let cipher = Lioness::<ChaCha20, Blake3>::new(&pattern_key());
    let data: Vec<u8> = (0..200u32).map(|i| (i * 13) as u8).collect();
    let mut block = data.clone();
    cipher.decrypt_block(&mut block).unwrap();
    assert_ne!(block, data);
    cipher.encrypt_block(&mut block).unwrap();
    assert_eq!(block, data);
}

#[test]
fn block_of_digest_length_is_rejected_unchanged() {
    let cipher = Lioness::<ChaCha20, Blake3>::new(&pattern_key());
    let data: Vec<u8> = (0..32u8).collect();
    let mut block = data.clone();
    assert_eq!(cipher.encrypt_block(&mut block), Err(InvalidBlockLength));
    assert_eq!(block, data);
    assert_eq!(cipher.decrypt_block(&mut block), Err(InvalidBlockLength));
    assert_eq!(block, data);
}

#[test]
fn empty_block_is_rejected() {
    let cipher = Lioness::<ChaCha20, Blake3>::new(&pattern_key());
    let mut block: Vec<u8> = Vec::new();
    assert_eq!(cipher.encrypt_block(&mut block), Err(InvalidBlockLength));
    assert_eq!(cipher.decrypt_block(&mut block), Err(InvalidBlockLength));
    assert!(block.is_empty());
}

#[test]
fn flipping_one_bit_changes_most_of_the_ciphertext() {
    let cipher = Lioness::<ChaCha20, Blake3>::new(KEY);
    let data: Vec<u8> = (0..100u8).collect();
    let mut a = data.clone();
    cipher.encrypt_block(&mut a).unwrap();
    for pos in [0usize, 31, 32, 99] {
        let mut b = data.clone();
        b[pos] ^= 0x01;
        cipher.encrypt_block(&mut b).unwrap();
        let differing = a.iter().zip(b.iter()).filter(|(x, y)| x != y).count();
        assert!(differing > a.len() / 2, "flip at {} changed only {} bytes", pos, differing);
    }
}

#[test]
fn different_keys_give_different_ciphertexts() {
    let data: Vec<u8> = (0..64u8).collect();
    let mut a = data.clone();
    let mut b = data.clone();
    Lioness::<ChaCha20, Blake3>::new(KEY).encrypt_block(&mut a).unwrap();
    Lioness::<ChaCha20, Blake3>::new(&pattern_key()).encrypt_block(&mut b).unwrap();
    assert_ne!(a, b);
}

#[test]
fn fixed_block_cipher_matches_variable_length_cipher() {
    let data: [u8; 48] = [0x5a; 48];
    let mut fixed = data;
    BlockLioness::<ChaCha20, Blake3, 48>::new(KEY).encrypt_block(&mut fixed);
    let mut var = data.to_vec();
    Lioness::<ChaCha20, Blake3>::new(KEY).encrypt_block(&mut var).unwrap();
    assert_eq!(fixed.to_vec(), var);
}
