use cipher::BlockDecrypt;
use cipher::BlockEncrypt;
use cipher::KeyInit;

use aes128::decipher;
use aes128::key_expansion::key_expansion;
use aes128::mix_columns::{inverse_mix_columns, mix_columns};
use aes128::shift_rows::{inverse_shift_rows, shift_rows};
use aes128::substitution::{inv_sub_byte, sub_byte};
use aes128::transform_byte_order;

#[test]
fn test_mix_columns() {
    let mut input: [u8; 16] = [
        0x33, 0x51, 0x79, 0x0A, 0x8B, 0x66, 0x8F, 0x3F, 0x76, 0x7D, 0xEB, 0xBE, 0x20, 0x92, 0xC2,
        0x67,
    ];
    mix_columns(&mut input);
    assert_eq!(
        input,
        [
            0xB6, 0xE7, 0x51, 0x8C, 0x84, 0x88, 0x98, 0xCA, 0x34, 0x60, 0x66, 0xFB, 0xE8, 0xD7,
            0x70, 0x51
        ]
    );
}

#[test]
fn test_inverse_mix_columns() {
    let mut input: [u8; 16] = [
        0xB6, 0xE7, 0x51, 0x8C, 0x84, 0x88, 0x98, 0xCA, 0x34, 0x60, 0x66, 0xFB, 0xE8, 0xD7, 0x70,
        0x51,
    ];
    inverse_mix_columns(&mut input);
    assert_eq!(
        input,
        [
            0x33, 0x51, 0x79, 0x0A, 0x8B, 0x66, 0x8F, 0x3F, 0x76, 0x7D, 0xEB, 0xBE, 0x20, 0x92,
            0xC2, 0x67
        ]
    );
}

#[test]
fn test_transpose() {
    let input: [u8; 16] = [
        0x1, 0x2, 0x3, 0x4, 0x5, 0x6, 0x7, 0x8, 0x9, 0xA, 0xB, 0xC, 0xD, 0xE, 0xF, 0x10,
    ];

    let result = transform_byte_order(&input);
    assert_eq!(
        result,
        [0x1, 0x5, 0x9, 0xD, 0x2, 0x6, 0xA, 0xE, 0x3, 0x7, 0xB, 0xF, 0x4, 0x8, 0xC, 0x10]
    );
}

#[test]
fn test_cipher() {
    let test_key: [u8; 16] = [
        0x54, 0x68, 0x61, 0x74, 0x73, 0x20, 0x6D, 0x79, 0x20, 0x4B, 0x75, 0x6E, 0x67, 0x20, 0x46,
        0x75,
    ];
    let input: [u8; 16] = *b"Two One Nine Two";
    let cipher = aes128::cipher(input, test_key);

    // Test against Rust's AES library.
    let mut block = cipher::generic_array::GenericArray::from(input);
    let cipher_aes = aes::Aes128::new(cipher::generic_array::GenericArray::from_slice(&test_key));
    cipher_aes.encrypt_block(&mut block);

    assert_eq!(
        cipher,
        [
            0x29, 0xC3, 0x50, 0x5F, 0x57, 0x14, 0x20, 0xF6, 0x40, 0x22, 0x99, 0xB3, 0x1A, 0x02,
            0xD7, 0x3A
        ]
    );
    assert_eq!(block.to_vec(), cipher);
}

#[test]
fn test_decipher() {
    let test_key: [u8; 16] = [
        0x54, 0x68, 0x61, 0x74, 0x73, 0x20, 0x6D, 0x79, 0x20, 0x4B, 0x75, 0x6E, 0x67, 0x20, 0x46,
        0x75,
    ];
    let cipher: [u8; 16] = [
        0x29, 0xC3, 0x50, 0x5F, 0x57, 0x14, 0x20, 0xF6, 0x40, 0x22, 0x99, 0xB3, 0x1A, 0x02, 0xD7,
        0x3A,
    ];
    let secret = decipher(cipher, test_key);

    // Test against Rust's AES library.
    let mut block = cipher::generic_array::GenericArray::from(cipher);
    let cipher_aes = aes::Aes128::new(cipher::generic_array::GenericArray::from_slice(&test_key));
    cipher_aes.decrypt_block(&mut block);

    assert_eq!(block.to_vec(), *b"Two One Nine Two");
    assert_eq!(block.to_vec(), secret);
}

#[test]
fn test_round_trip() {
    let key: [u8; 16] = [
        0x00, 0x11, 0x22, 0x33, 0x44, 0x55, 0x66, 0x77, 0x88, 0x99, 0xAA, 0xBB, 0xCC, 0xDD, 0xEE,
        0xFF,
    ];
    let plaintext: [u8; 16] = *b"sixteen byte msg";
    let encrypted = aes128::cipher(plaintext, key);
    assert_ne!(encrypted, plaintext);
    assert_eq!(decipher(encrypted, key), plaintext);
}

#[test]
fn test_substitution_involution_all_bytes() {
    for b in 0..=255u8 {
        assert_eq!(inv_sub_byte(sub_byte(b)), b);
        assert_eq!(sub_byte(inv_sub_byte(b)), b);
    }
    // A known S-box entry and its inverse.
    assert_eq!(sub_byte(0x53), 0xED);
    assert_eq!(inv_sub_byte(0xED), 0x53);
}

#[test]
fn test_mix_columns_inverse_round_trip() {
    let original: [u8; 16] = [
        0xDB, 0x13, 0x53, 0x45, 0xF2, 0x0A, 0x22, 0x5C, 0x01, 0x01, 0x01, 0x01, 0xC6, 0xC6, 0xC6,
        0xC6,
    ];
    let mut state = original;
    mix_columns(&mut state);
    inverse_mix_columns(&mut state);
    assert_eq!(state, original);
}

#[test]
fn test_shift_rows_inverse_round_trip() {
    let original: [u8; 16] = [
        0x00, 0x01, 0x02, 0x03, 0x10, 0x11, 0x12, 0x13, 0x20, 0x21, 0x22, 0x23, 0x30, 0x31, 0x32,
        0x33,
    ];
    let mut state = original;
    shift_rows(&mut state);
    assert_eq!(
        state,
        [
            0x00, 0x01, 0x02, 0x03, 0x11, 0x12, 0x13, 0x10, 0x22, 0x23, 0x20, 0x21, 0x33, 0x30,
            0x31, 0x32
        ]
    );
    inverse_shift_rows(&mut state);
    assert_eq!(state, original);
}

#[test]
fn test_key_schedule_deterministic() {
    let key: [u8; 16] = [
        0x54, 0x68, 0x61, 0x74, 0x73, 0x20, 0x6D, 0x79, 0x20, 0x4B, 0x75, 0x6E, 0x67, 0x20, 0x46,
        0x75,
    ];
    let first = key_expansion(&key);
    let second = key_expansion(&key);
    assert_eq!(first.len(), 11);
    assert_eq!(first, second);
    // Round key 0 is the cipher key itself.
    assert_eq!(first[0], key);
}

fn bit_difference(a: &[u8; 16], b: &[u8; 16]) -> u32 {
    let mut count = 0u32;
    for i in 0..16 {
        count += (a[i] ^ b[i]).count_ones();
    }
    count
}

#[test]
fn test_avalanche() {
    let key: [u8; 16] = [
        0x54, 0x68, 0x61, 0x74, 0x73, 0x20, 0x6D, 0x79, 0x20, 0x4B, 0x75, 0x6E, 0x67, 0x20, 0x46,
        0x75,
    ];
    let plaintext: [u8; 16] = *b"Two One Nine Two";
    let base = aes128::cipher(plaintext, key);

    // Flip each plaintext bit in turn: on average about half of the 128
    // output bits change.
    let mut total = 0u32;
    for byte in 0..16 {
        for bit in 0..8 {
            let mut flipped = plaintext;
            flipped[byte] ^= 1u8 << bit;
            total += bit_difference(&base, &aes128::cipher(flipped, key));
        }
    }
    let mean_times_128 = total;
    assert!(mean_times_128 > 128 * 44, "plaintext avalanche too weak: {total}");
    assert!(mean_times_128 < 128 * 84, "plaintext avalanche too strong: {total}");

    // The same for each key bit.
    let mut key_total = 0u32;
    for byte in 0..16 {
        for bit in 0..8 {
            let mut flipped_key = key;
            flipped_key[byte] ^= 1u8 << bit;
            key_total += bit_difference(&base, &aes128::cipher(plaintext, flipped_key));
        }
    }
    assert!(key_total > 128 * 44, "key avalanche too weak: {key_total}");
    assert!(key_total < 128 * 84, "key avalanche too strong: {key_total}");
}
