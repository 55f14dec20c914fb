//! AES-128 block cipher: encryption and decryption of a single 16-byte block
//! under a 16-byte key, with the round pipeline, key schedule, and each
//! layer's inverse proved correct, up to the theorem that deciphering an
//! enciphered block returns the original for every block and key.

use vstd::prelude::*;

pub mod key_expansion;
pub mod mix_columns;
pub mod shift_rows;
pub mod substitution;

use crate::key_expansion::{
    add_round_key, add_round_key_spec, key_expansion, lemma_add_round_key_involution,
    round_key_spec,
};
use crate::mix_columns::{inverse_mix_columns, inverse_mix_columns_spec, lemma_mix_columns_inverse,
    mix_columns, mix_columns_spec};
use crate::shift_rows::{inverse_shift_rows, inverse_shift_rows_spec, lemma_shift_rows_inverse,
    shift_rows, shift_rows_spec};
use crate::substitution::{inverse_substitute, inverse_substitute_spec, lemma_substitute_inverse,
    substitute, substitute_spec};

verus! {

pub const BLOCK_SIZE: usize = 16;
pub const NUM_ROUNDS: usize = 10;

/// Transposition of a 4x4 byte matrix held in a flat 16-byte sequence:
/// entry `i` moves to position `(i % 4) * 4 + i / 4`. The map is its own
/// inverse, so the same function converts in both directions between the
/// external row-major byte order and the internal column-major state.
pub open spec fn transpose_spec(s: Seq<u8>) -> Seq<u8> {
    Seq::new(16, |i: int| s[(i % 4) * 4 + i / 4])
}

/// Transposing twice returns the original block.
pub proof fn lemma_transpose_involution(s: Seq<u8>)
    requires
        s.len() == 16,
    ensures
        transpose_spec(transpose_spec(s)) == s,
{
    let t = transpose_spec(transpose_spec(s));
    assert forall|i: int| 0 <= i < 16 implies t[i] == s[i] by {
        assert(t[i] == s[(((i % 4) * 4 + i / 4) % 4) * 4 + ((i % 4) * 4 + i / 4) / 4]);
    }
    assert(t =~= s);
}

/// Transpose matrix to switch between row- and column-ordered block matrix.
pub fn transform_byte_order(input: &[u8; BLOCK_SIZE]) -> (result: [u8; BLOCK_SIZE])
    ensures
        result@ == transpose_spec(input@),
{
    let mut result: [u8; BLOCK_SIZE] = [0u8; BLOCK_SIZE];
    for i in 0..BLOCK_SIZE
        invariant
            forall|j: int| 0 <= j < i ==> result@[(j % 4) * 4 + j / 4] == input@[j],
    {
        let row = i % 4;
        let column = i / 4;
        result[row * 4 + column] = input[i];
    }
    assert forall|k: int| 0 <= k < 16 implies result@[k] == transpose_spec(input@)[k] by {
        let j = (k % 4) * 4 + k / 4;
        assert(result@[(j % 4) * 4 + j / 4] == input@[j]);
    }
    assert(result@ =~= transpose_spec(input@));
    result
}

/// Round key `r`, transposed into the column-major order of the state.
pub open spec fn round_key_t_spec(key: Seq<u8>, r: int) -> Seq<u8> {
    transpose_spec(round_key_spec(key, r))
}

/// One middle encryption round: substitute, shift rows, mix columns, add
/// the round key.
pub open spec fn enc_round_spec(s: Seq<u8>, rk: Seq<u8>) -> Seq<u8> {
    add_round_key_spec(mix_columns_spec(shift_rows_spec(substitute_spec(s))), rk)
}

/// The state after the middle encryption rounds 1 through `r`.
pub open spec fn enc_rounds_spec(s: Seq<u8>, key: Seq<u8>, r: int) -> Seq<u8>
    decreases r,
{
    if r < 1 {
        s
    } else {
        enc_round_spec(enc_rounds_spec(s, key, r - 1), round_key_t_spec(key, r))
    }
}

/// One middle decryption round: add the round key, then invert mix
/// columns, shift rows and substitution.
pub open spec fn dec_round_spec(s: Seq<u8>, rk: Seq<u8>) -> Seq<u8> {
    inverse_substitute_spec(
        inverse_shift_rows_spec(inverse_mix_columns_spec(add_round_key_spec(s, rk))),
    )
}

/// The state after the middle decryption rounds `r` down through 1.
pub open spec fn dec_rounds_spec(s: Seq<u8>, key: Seq<u8>, r: int) -> Seq<u8>
    decreases r,
{
    if r < 1 {
        s
    } else {
        dec_rounds_spec(dec_round_spec(s, round_key_t_spec(key, r)), key, r - 1)
    }
}

/// The full encryption pipeline: transpose in, add round key 0, nine
/// middle rounds, the final round without mix columns, transpose out.
pub open spec fn cipher_spec(p: Seq<u8>, key: Seq<u8>) -> Seq<u8> {
    let s0 = add_round_key_spec(transpose_spec(p), round_key_t_spec(key, 0));
    let s9 = enc_rounds_spec(s0, key, 9);
    transpose_spec(add_round_key_spec(shift_rows_spec(substitute_spec(s9)), round_key_t_spec(key, 10)))
}

/// The full decryption pipeline: transpose in, undo the final round, nine
/// middle rounds in reverse, remove round key 0, transpose out.
pub open spec fn decipher_spec(c: Seq<u8>, key: Seq<u8>) -> Seq<u8> {
    let s1 = inverse_substitute_spec(
        inverse_shift_rows_spec(add_round_key_spec(transpose_spec(c), round_key_t_spec(key, 10))),
    );
    let s2 = dec_rounds_spec(s1, key, 9);
    transpose_spec(add_round_key_spec(s2, round_key_t_spec(key, 0)))
}

/// The middle rounds keep the state a 16-byte block.
proof fn lemma_enc_rounds_len(s: Seq<u8>, key: Seq<u8>, r: int)
    requires
        s.len() == 16,
    ensures
        enc_rounds_spec(s, key, r).len() == 16,
    decreases r,
{
    if r >= 1 {
        lemma_enc_rounds_len(s, key, r - 1);
    }
}

/// One decryption round undoes one encryption round under the same round
/// key.
proof fn lemma_round_inverse(s: Seq<u8>, rk: Seq<u8>)
    requires
        s.len() == 16,
    ensures
        dec_round_spec(enc_round_spec(s, rk), rk) == s,
{
    let a = substitute_spec(s);
    let b = shift_rows_spec(a);
    let c = mix_columns_spec(b);
    lemma_add_round_key_involution(c, rk);
    lemma_mix_columns_inverse(b);
    lemma_shift_rows_inverse(a);
    lemma_substitute_inverse(s);
}

/// The reversed middle rounds undo the middle rounds under the same key.
proof fn lemma_rounds_inverse(s: Seq<u8>, key: Seq<u8>, r: int)
    requires
        s.len() == 16,
    ensures
        dec_rounds_spec(enc_rounds_spec(s, key, r), key, r) == s,
    decreases r,
{
    if r >= 1 {
        lemma_enc_rounds_len(s, key, r - 1);
        lemma_round_inverse(enc_rounds_spec(s, key, r - 1), round_key_t_spec(key, r));
        lemma_rounds_inverse(s, key, r - 1);
    }
}

/// Round trip: deciphering an enciphered block with the same key returns
/// the original block, for every 16-byte block and key.
pub proof fn lemma_cipher_decipher_round_trip(p: Seq<u8>, key: Seq<u8>)
    requires
        p.len() == 16,
    ensures
        decipher_spec(cipher_spec(p, key), key) == p,
{
    let rk0 = round_key_t_spec(key, 0);
    let rk10 = round_key_t_spec(key, 10);
    let s0 = add_round_key_spec(transpose_spec(p), rk0);
    let e9 = enc_rounds_spec(s0, key, 9);
    let sub9 = substitute_spec(e9);
    let sr9 = shift_rows_spec(sub9);
    let sf = add_round_key_spec(sr9, rk10);
    let c = transpose_spec(sf);
    assert(cipher_spec(p, key) == c);

    lemma_enc_rounds_len(s0, key, 9);
    lemma_transpose_involution(sf);
    lemma_add_round_key_involution(sr9, rk10);
    lemma_shift_rows_inverse(sub9);
    lemma_substitute_inverse(e9);
    lemma_rounds_inverse(s0, key, 9);
    lemma_add_round_key_involution(transpose_spec(p), rk0);
    lemma_transpose_involution(p);
}

/// Encrypt one 16-byte block under a 16-byte key.
pub fn cipher(input_block: [u8; BLOCK_SIZE], key: [u8; BLOCK_SIZE]) -> (output: [u8; BLOCK_SIZE])
    ensures
        output@ == cipher_spec(input_block@, key@),
{
    let mut state = transform_byte_order(&input_block);
    let round_keys = key_expansion(&key);

    let rk0 = transform_byte_order(&round_keys[0]);
    add_round_key(&mut state, &rk0);

    for round in 1..NUM_ROUNDS
        invariant
            round_keys@.len() == 11,
            forall|r: int| 0 <= r < 11 ==> round_keys@[r]@ == round_key_spec(key@, r),
            state@ == enc_rounds_spec(
                add_round_key_spec(transpose_spec(input_block@), round_key_t_spec(key@, 0)),
                key@,
                round - 1,
            ),
    {
        substitute(&mut state);
        shift_rows(&mut state);
        mix_columns(&mut state);
        let rk = transform_byte_order(&round_keys[round]);
        add_round_key(&mut state, &rk);
        assert(rk@ == round_key_t_spec(key@, round as int));
    }

    substitute(&mut state);
    shift_rows(&mut state);
    let rkf = transform_byte_order(&round_keys[NUM_ROUNDS]);
    add_round_key(&mut state, &rkf);

    let output = transform_byte_order(&state);
    assert(output@ == cipher_spec(input_block@, key@));
    output
}

/// Decrypt one 16-byte block under a 16-byte key.
pub fn decipher(input_block: [u8; BLOCK_SIZE], key: [u8; BLOCK_SIZE]) -> (output: [u8; BLOCK_SIZE])
    ensures
        output@ == decipher_spec(input_block@, key@),
{
    let mut state = transform_byte_order(&input_block);
    let round_keys = key_expansion(&key);

    let rkf = transform_byte_order(&round_keys[NUM_ROUNDS]);
    add_round_key(&mut state, &rkf);
    inverse_shift_rows(&mut state);
    inverse_substitute(&mut state);

    let ghost s1 = state@;

    let mut round: usize = NUM_ROUNDS - 1;
    while round >= 1
        invariant
            round <= 9,
            round_keys@.len() == 11,
            forall|r: int| 0 <= r < 11 ==> round_keys@[r]@ == round_key_spec(key@, r),
            state@.len() == 16,
            dec_rounds_spec(state@, key@, round as int) == dec_rounds_spec(s1, key@, 9),
        decreases round,
    {
        let ghost entry = state@;
        let rk = transform_byte_order(&round_keys[round]);
        add_round_key(&mut state, &rk);
        inverse_mix_columns(&mut state);
        inverse_shift_rows(&mut state);
        inverse_substitute(&mut state);
        assert(state@ == dec_round_spec(entry, round_key_t_spec(key@, round as int)));
        round -= 1;
    }

    let rk0 = transform_byte_order(&round_keys[0]);
    add_round_key(&mut state, &rk0);

    let output = transform_byte_order(&state);
    assert(output@ == decipher_spec(input_block@, key@));
    output
}

} // verus!
