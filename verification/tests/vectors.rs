use weak_sha3::WeakSha3256;

const SHA3_256_OF_NOTHING: [u8; 32] = [
    0xa7, 0xff, 0xc6, 0xf8, 0xbf, 0x1e, 0xd7, 0x66, 0x51, 0xc1, 0x47, 0x56, 0xa0, 0x61, 0xd6, 0x62,
    0xf5, 0x80, 0xff, 0x4d, 0xe4, 0x3b, 0x49, 0xfa, 0x82, 0xd8, 0x0a, 0x4b, 0x80, 0xf8, 0x43, 0x4a,
];

const SHA3_256_OF_1_2: [u8; 32] = [
    0x76, 0xe8, 0xbb, 0x05, 0x21, 0x4d, 0x1e, 0x77, 0x6c, 0x2a, 0x48, 0x36, 0xf6, 0xc1, 0xa7, 0x44,
    0x6c, 0x90, 0xa2, 0x74, 0xb9, 0xae, 0x71, 0x9c, 0x3c, 0x6c, 0x8a, 0x72, 0x7d, 0x86, 0x2c, 0x12,
];

const SHA3_256_OF_2_2: [u8; 32] = [
    0xbe, 0xcd, 0x6f, 0xac, 0x61, 0x3a, 0x44, 0x2b, 0x49, 0xee, 0xec, 0x3e, 0x9f, 0x95, 0x8d, 0xf0,
    0x72, 0x34, 0x0d, 0xe4, 0xe7, 0x4c, 0x00, 0x1a, 0x81, 0x6d, 0xcc, 0xa2, 0x2d, 0xdb, 0xf3, 0x3d,
];

const SHA3_256_OF_130_2: [u8; 32] = [
    0x21, 0xf8, 0xb5, 0xcd, 0xcf, 0xcd, 0x1f, 0x67, 0xb2, 0xa9, 0x14, 0x4f, 0x83, 0x94, 0x0d, 0x93,
    0xbb, 0x3b, 0x75, 0x12, 0x4c, 0xc1, 0x87, 0x12, 0x29, 0xfb, 0xe9, 0x41, 0x83, 0xea, 0x61, 0x17,
];

const SHA3_256_OF_2_2_8_6: [u8; 32] = [
    0xb7, 0xe4, 0xab, 0x47, 0x8f, 0xb9, 0xc5, 0x60, 0xd7, 0x8d, 0x74, 0x81, 0xa7, 0x20, 0x09, 0x55,
    0x1a, 0x31, 0x56, 0x03, 0x76, 0xc1, 0xcc, 0xba, 0xf8, 0x89, 0x64, 0x06, 0x28, 0xe0, 0xc1, 0xed,
];

#[test]
fn vector_of_a_new_hasher() {
    assert_eq!(WeakSha3256::new().finalize(), SHA3_256_OF_NOTHING);
}

#[test]
fn vector_of_1_2() {
    assert_eq!(WeakSha3256::digest(&[1, 2]), Ok(SHA3_256_OF_1_2));
}

#[test]
fn vector_of_130_2() {
    assert_eq!(WeakSha3256::digest(&[130, 2]), Ok(SHA3_256_OF_2_2));
    assert_ne!(WeakSha3256::digest(&[130, 2]), Ok(SHA3_256_OF_130_2));
}

#[test]
fn vector_of_two_chunks() {
    let mut hasher = WeakSha3256::new();
    hasher.update(&[130, 2]).unwrap();
    hasher.update(&[200, 6]).unwrap();
    assert_eq!(hasher.finalize(), SHA3_256_OF_2_2_8_6);
}

#[test]
fn vector_of_a_prefix() {
    let hasher = WeakSha3256::new_with_prefix(&[130, 2]).unwrap();
    assert_eq!(hasher.finalize(), SHA3_256_OF_2_2);
}

#[test]
fn vector_of_a_chain() {
    let hasher = WeakSha3256::new().chain_update(&[130, 2]).unwrap();
    assert_eq!(hasher.chain_update(&[200, 6]).unwrap().finalize(), SHA3_256_OF_2_2_8_6);
}

#[test]
fn vector_after_reset() {
    let mut hasher = WeakSha3256::new();
    hasher.update(&[200, 6]).unwrap();
    hasher.reset();
    hasher.update(&[1, 2]).unwrap();
    assert_eq!(hasher.finalize_reset(), SHA3_256_OF_1_2);
    let mut out = [0u8; 32];
    hasher.finalize_into_reset(&mut out);
    assert_eq!(out, SHA3_256_OF_NOTHING);
    hasher.update(&[130, 2]).unwrap();
    hasher.finalize_into(&mut out);
    assert_eq!(out, SHA3_256_OF_2_2);
}
