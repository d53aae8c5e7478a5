use lioness::{xor, xor_in_place, Blake3, ChaCha20, MacPrimitive, StreamPrimitive};

#[test]
fn xor_stops_at_the_shorter_input() {
    assert_eq!(xor(&[1, 2, 3], &[3, 2]), vec![2, 0]);
    assert_eq!(xor(&[0xff], &[0x0f, 0xf0]), vec![0xf0]);
    assert!(xor(&[], &[1, 2]).is_empty());
}

#[test]
fn xor_in_place_leaves_the_tail_alone() {
    let mut a = [1u8, 2, 3, 4];
    xor_in_place(&mut a, &[0xff, 0x02]);
    assert_eq!(a, [0xfe, 0, 3, 4]);
    let mut b = [0x0fu8];
    xor_in_place(&mut b, &[0xf0, 0xaa]);
    assert_eq!(b, [0xff]);
}

#[test]
fn chacha20_keystream_for_zero_key_and_nonce() {
    let key = [0u8; 32];
    let mut data = [0u8; 16];
    ChaCha20::apply_keystream(&key, &mut data);
    assert_eq!(
        data,
        [
            0x76, 0xb8, 0xe0, 0xad, 0xa0, 0xf1, 0x3d, 0x90, 0x40, 0x5d, 0x6a, 0xe5, 0x53, 0x86,
            0xbd, 0x28
        ]
    );
    ChaCha20::apply_keystream(&key, &mut data);
    assert_eq!(data, [0u8; 16]);
}

#[test]
fn blake3_mac_is_keyed_and_32_bytes_long() {
    let k1 = [1u8; 32];
    let k2 = [2u8; 32];
    let d1 = Blake3::mac(&k1, b"message");
    assert_eq!(d1.len(), 32);
    assert_eq!(Blake3::mac(&k1, b"message"), d1);
    assert_ne!(Blake3::mac(&k2, b"message"), d1);
    assert_ne!(Blake3::mac(&k1, b"messagf"), d1);
    assert_ne!(&d1[..], &b"message"[..]);
    assert_eq!(Blake3::output_size(), 32);
    assert_eq!(Blake3::key_size(), 32);
    assert_eq!(ChaCha20::key_size(), 32);
}
