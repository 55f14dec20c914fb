//! The MixColumns diffusion layer and the GF(2^8) arithmetic it is built on.
//!
//! Bytes are elements of GF(2^8) with reduction polynomial
//! x^8 + x^4 + x^3 + x + 1 (0x11B). Doubling (`xtime`) is a left shift
//! followed by a conditional XOR with 0x1B; multiplication by the fixed
//! matrix coefficients 2, 3, 9, 11, 13 and 14 is composed from doublings
//! and XORs. Each column of the state is multiplied by the matrix
//! [[2,3,1,1],[1,2,3,1],[1,1,2,3],[3,1,1,2]], or for the inverse direction
//! by [[14,11,13,9],[9,14,11,13],[13,9,14,11],[11,13,9,14]].

use vstd::prelude::*;

verus! {

/// Doubling in GF(2^8): shift left one bit and reduce by 0x1B if the high
/// bit was set before the shift.
pub open spec fn mul2_spec(b: u8) -> u8 {
    if b & 0x80 != 0 {
        (b << 1) ^ 0x1b
    } else {
        b << 1
    }
}

/// Multiplication by 3 in GF(2^8): 3·b = 2·b + b.
pub open spec fn mul3_spec(b: u8) -> u8 {
    mul2_spec(b) ^ b
}

/// Multiplication by 9 in GF(2^8): 9·b = 8·b + b.
pub open spec fn mul9_spec(b: u8) -> u8 {
    mul2_spec(mul2_spec(mul2_spec(b))) ^ b
}

/// Multiplication by 11 in GF(2^8): 11·b = 2·(4·b + b) + b.
pub open spec fn mul11_spec(b: u8) -> u8 {
    mul2_spec(mul2_spec(mul2_spec(b)) ^ b) ^ b
}

/// Multiplication by 13 in GF(2^8): 13·b = 4·(2·b + b) + b.
pub open spec fn mul13_spec(b: u8) -> u8 {
    mul2_spec(mul2_spec(mul2_spec(b) ^ b)) ^ b
}

/// Multiplication by 14 in GF(2^8): 14·b = 2·(2·(2·b + b) + b).
pub open spec fn mul14_spec(b: u8) -> u8 {
    mul2_spec(mul2_spec(mul2_spec(b) ^ b) ^ b)
}

pub fn mul2(byte: u8) -> (r: u8)
    ensures
        r == mul2_spec(byte),
{
    if byte & 0x80 != 0 {
        (byte << 1u8) ^ 0x1b
    } else {
        byte << 1u8
    }
}

pub fn mul3(byte: u8) -> (r: u8)
    ensures
        r == mul3_spec(byte),
{
    mul2(byte) ^ byte
}

pub fn mul9(byte: u8) -> (r: u8)
    ensures
        r == mul9_spec(byte),
{
    mul2(mul2(mul2(byte))) ^ byte
}

pub fn mul11(byte: u8) -> (r: u8)
    ensures
        r == mul11_spec(byte),
{
    mul2(mul2(mul2(byte)) ^ byte) ^ byte
}

pub fn mul13(byte: u8) -> (r: u8)
    ensures
        r == mul13_spec(byte),
{
    mul2(mul2(mul2(byte) ^ byte)) ^ byte
}

pub fn mul14(byte: u8) -> (r: u8)
    ensures
        r == mul14_spec(byte),
{
    mul2(mul2(mul2(byte) ^ byte) ^ byte)
}

/// Rows of the forward diffusion matrix [[2,3,1,1],[1,2,3,1],[1,1,2,3],
/// [3,1,1,2]], each applied to one column (s0, s1, s2, s3) of the state.
pub open spec fn mix_row0_spec(s0: u8, s1: u8, s2: u8, s3: u8) -> u8 {
    mul2_spec(s0) ^ mul3_spec(s1) ^ s2 ^ s3
}

pub open spec fn mix_row1_spec(s0: u8, s1: u8, s2: u8, s3: u8) -> u8 {
    s0 ^ mul2_spec(s1) ^ mul3_spec(s2) ^ s3
}

pub open spec fn mix_row2_spec(s0: u8, s1: u8, s2: u8, s3: u8) -> u8 {
    s0 ^ s1 ^ mul2_spec(s2) ^ mul3_spec(s3)
}

pub open spec fn mix_row3_spec(s0: u8, s1: u8, s2: u8, s3: u8) -> u8 {
    mul3_spec(s0) ^ s1 ^ s2 ^ mul2_spec(s3)
}

/// Rows of the inverse diffusion matrix [[14,11,13,9],[9,14,11,13],
/// [13,9,14,11],[11,13,9,14]], each applied to one column of the state.
pub open spec fn inv_mix_row0_spec(s0: u8, s1: u8, s2: u8, s3: u8) -> u8 {
    mul14_spec(s0) ^ mul11_spec(s1) ^ mul13_spec(s2) ^ mul9_spec(s3)
}

pub open spec fn inv_mix_row1_spec(s0: u8, s1: u8, s2: u8, s3: u8) -> u8 {
    mul9_spec(s0) ^ mul14_spec(s1) ^ mul11_spec(s2) ^ mul13_spec(s3)
}

pub open spec fn inv_mix_row2_spec(s0: u8, s1: u8, s2: u8, s3: u8) -> u8 {
    mul13_spec(s0) ^ mul9_spec(s1) ^ mul14_spec(s2) ^ mul11_spec(s3)
}

pub open spec fn inv_mix_row3_spec(s0: u8, s1: u8, s2: u8, s3: u8) -> u8 {
    mul11_spec(s0) ^ mul13_spec(s1) ^ mul9_spec(s2) ^ mul14_spec(s3)
}

/// One byte of a column after forward mixing: row `r` of the forward
/// matrix applied to the column (s0, s1, s2, s3).
pub open spec fn mix_entry_spec(s0: u8, s1: u8, s2: u8, s3: u8, r: int) -> u8 {
    if r == 0 {
        mix_row0_spec(s0, s1, s2, s3)
    } else if r == 1 {
        mix_row1_spec(s0, s1, s2, s3)
    } else if r == 2 {
        mix_row2_spec(s0, s1, s2, s3)
    } else {
        mix_row3_spec(s0, s1, s2, s3)
    }
}

/// One byte of a column after inverse mixing: row `r` of the inverse
/// matrix applied to the column (s0, s1, s2, s3).
pub open spec fn inv_mix_entry_spec(s0: u8, s1: u8, s2: u8, s3: u8, r: int) -> u8 {
    if r == 0 {
        inv_mix_row0_spec(s0, s1, s2, s3)
    } else if r == 1 {
        inv_mix_row1_spec(s0, s1, s2, s3)
    } else if r == 2 {
        inv_mix_row2_spec(s0, s1, s2, s3)
    } else {
        inv_mix_row3_spec(s0, s1, s2, s3)
    }
}

/// The whole state after forward mixing. Position `j` sits in column
/// `j % 4` and row `j / 4`; the column occupies positions `j % 4`,
/// `j % 4 + 4`, `j % 4 + 8` and `j % 4 + 12`.
pub open spec fn mix_columns_spec(s: Seq<u8>) -> Seq<u8> {
    Seq::new(16, |j: int| mix_entry_spec(s[j % 4], s[j % 4 + 4], s[j % 4 + 8], s[j % 4 + 12], j / 4))
}

/// The whole state after inverse mixing.
pub open spec fn inverse_mix_columns_spec(s: Seq<u8>) -> Seq<u8> {
    Seq::new(
        16,
        |j: int| inv_mix_entry_spec(s[j % 4], s[j % 4 + 4], s[j % 4 + 8], s[j % 4 + 12], j / 4),
    )
}

/// XOR-linearity of multiplication by 9 in GF(2^8).
proof fn lemma_mul9_linear(x: u8, y: u8)
    by (bit_vector)
    ensures
        mul9_spec(x ^ y) == mul9_spec(x) ^ mul9_spec(y),
{
}

/// XOR-linearity of multiplication by 11 in GF(2^8).
proof fn lemma_mul11_linear(x: u8, y: u8)
    by (bit_vector)
    ensures
        mul11_spec(x ^ y) == mul11_spec(x) ^ mul11_spec(y),
{
}

/// XOR-linearity of multiplication by 13 in GF(2^8).
proof fn lemma_mul13_linear(x: u8, y: u8)
    by (bit_vector)
    ensures
        mul13_spec(x ^ y) == mul13_spec(x) ^ mul13_spec(y),
{
}

/// XOR-linearity of multiplication by 14 in GF(2^8).
proof fn lemma_mul14_linear(x: u8, y: u8)
    by (bit_vector)
    ensures
        mul14_spec(x ^ y) == mul14_spec(x) ^ mul14_spec(y),
{
}

/// Product of the two matrices, diagonal entry: 14*2 + 11 + 13 + 9*3 = 1
/// in GF(2^8).
proof fn lemma_coeff_diagonal(s: u8)
    by (bit_vector)
    ensures
        mul14_spec(mul2_spec(s)) ^ mul11_spec(s) ^ mul13_spec(s) ^ mul9_spec(mul3_spec(s)) == s,
{
}

/// Product of the two matrices, first off-diagonal entry:
/// 14*3 + 11*2 + 13 + 9 = 0 in GF(2^8).
proof fn lemma_coeff_off1(s: u8)
    by (bit_vector)
    ensures
        mul14_spec(mul3_spec(s)) ^ mul11_spec(mul2_spec(s)) ^ mul13_spec(s) ^ mul9_spec(s) == 0,
{
}

/// Product of the two matrices, second off-diagonal entry:
/// 14 + 11*3 + 13*2 + 9 = 0 in GF(2^8).
proof fn lemma_coeff_off2(s: u8)
    by (bit_vector)
    ensures
        mul14_spec(s) ^ mul11_spec(mul3_spec(s)) ^ mul13_spec(mul2_spec(s)) ^ mul9_spec(s) == 0,
{
}

/// Product of the two matrices, third off-diagonal entry:
/// 14 + 11 + 13*3 + 9*2 = 0 in GF(2^8).
proof fn lemma_coeff_off3(s: u8)
    by (bit_vector)
    ensures
        mul14_spec(s) ^ mul11_spec(s) ^ mul13_spec(mul3_spec(s)) ^ mul9_spec(mul2_spec(s)) == 0,
{
}

/// Row 0 of the inverse matrix applied to a forward-mixed column
/// recovers the column's byte 0: the product of the two matrices is
/// the identity over GF(2^8).
proof fn lemma_column_inverse_row0(s0: u8, s1: u8, s2: u8, s3: u8)
    ensures
        inv_mix_row0_spec(
            mix_row0_spec(s0, s1, s2, s3),
            mix_row1_spec(s0, s1, s2, s3),
            mix_row2_spec(s0, s1, s2, s3),
            mix_row3_spec(s0, s1, s2, s3),
        ) == s0,
{
    let p20 = mul2_spec(s0);
    let p21 = mul2_spec(s1);
    let p22 = mul2_spec(s2);
    let p23 = mul2_spec(s3);
    let p30 = mul3_spec(s0);
    let p31 = mul3_spec(s1);
    let p32 = mul3_spec(s2);
    let p33 = mul3_spec(s3);
    let m0 = mix_row0_spec(s0, s1, s2, s3);
    let m1 = mix_row1_spec(s0, s1, s2, s3);
    let m2 = mix_row2_spec(s0, s1, s2, s3);
    let m3 = mix_row3_spec(s0, s1, s2, s3);
    assert(m0 == p20 ^ p31 ^ s2 ^ s3);
    assert(m1 == s0 ^ p21 ^ p32 ^ s3);
    assert(m2 == s0 ^ s1 ^ p22 ^ p33);
    assert(m3 == p30 ^ s1 ^ s2 ^ p23);

    lemma_mul14_linear(p20 ^ p31 ^ s2, s3);
    lemma_mul14_linear(p20 ^ p31, s2);
    lemma_mul14_linear(p20, p31);
    lemma_mul11_linear(s0 ^ p21 ^ p32, s3);
    lemma_mul11_linear(s0 ^ p21, p32);
    lemma_mul11_linear(s0, p21);
    lemma_mul13_linear(s0 ^ s1 ^ p22, p33);
    lemma_mul13_linear(s0 ^ s1, p22);
    lemma_mul13_linear(s0, s1);
    lemma_mul9_linear(p30 ^ s1 ^ s2, p23);
    lemma_mul9_linear(p30 ^ s1, s2);
    lemma_mul9_linear(p30, s1);

    let f14_p20 = mul14_spec(p20);
    let f14_p31 = mul14_spec(p31);
    let f14_s2 = mul14_spec(s2);
    let f14_s3 = mul14_spec(s3);
    let f11_s0 = mul11_spec(s0);
    let f11_p21 = mul11_spec(p21);
    let f11_p32 = mul11_spec(p32);
    let f11_s3 = mul11_spec(s3);
    let f13_s0 = mul13_spec(s0);
    let f13_s1 = mul13_spec(s1);
    let f13_p22 = mul13_spec(p22);
    let f13_p33 = mul13_spec(p33);
    let f9_p30 = mul9_spec(p30);
    let f9_s1 = mul9_spec(s1);
    let f9_s2 = mul9_spec(s2);
    let f9_p23 = mul9_spec(p23);
    let q14 = mul14_spec(m0);
    let q11 = mul11_spec(m1);
    let q13 = mul13_spec(m2);
    let q9 = mul9_spec(m3);
    assert(q14 == f14_p20 ^ f14_p31 ^ f14_s2 ^ f14_s3);
    assert(q11 == f11_s0 ^ f11_p21 ^ f11_p32 ^ f11_s3);
    assert(q13 == f13_s0 ^ f13_s1 ^ f13_p22 ^ f13_p33);
    assert(q9 == f9_p30 ^ f9_s1 ^ f9_s2 ^ f9_p23);

    lemma_coeff_diagonal(s0);
    lemma_coeff_off1(s1);
    lemma_coeff_off2(s2);
    lemma_coeff_off3(s3);

    assert(q14 ^ q11 ^ q13 ^ q9 == s0) by (bit_vector)
        requires
            q14 == f14_p20 ^ f14_p31 ^ f14_s2 ^ f14_s3,
            q11 == f11_s0 ^ f11_p21 ^ f11_p32 ^ f11_s3,
            q13 == f13_s0 ^ f13_s1 ^ f13_p22 ^ f13_p33,
            q9 == f9_p30 ^ f9_s1 ^ f9_s2 ^ f9_p23,
            f14_p20 ^ f11_s0 ^ f13_s0 ^ f9_p30 == s0,
            f14_p31 ^ f11_p21 ^ f13_s1 ^ f9_s1 == 0,
            f14_s2 ^ f11_p32 ^ f13_p22 ^ f9_s2 == 0,
            f14_s3 ^ f11_s3 ^ f13_p33 ^ f9_p23 == 0,
    ;
}

/// Row 1 of the inverse matrix applied to a forward-mixed column
/// recovers the column's byte 1: the product of the two matrices is
/// the identity over GF(2^8).
proof fn lemma_column_inverse_row1(s0: u8, s1: u8, s2: u8, s3: u8)
    ensures
        inv_mix_row1_spec(
            mix_row0_spec(s0, s1, s2, s3),
            mix_row1_spec(s0, s1, s2, s3),
            mix_row2_spec(s0, s1, s2, s3),
            mix_row3_spec(s0, s1, s2, s3),
        ) == s1,
{
    let p20 = mul2_spec(s0);
    let p21 = mul2_spec(s1);
    let p22 = mul2_spec(s2);
    let p23 = mul2_spec(s3);
    let p30 = mul3_spec(s0);
    let p31 = mul3_spec(s1);
    let p32 = mul3_spec(s2);
    let p33 = mul3_spec(s3);
    let m0 = mix_row0_spec(s0, s1, s2, s3);
    let m1 = mix_row1_spec(s0, s1, s2, s3);
    let m2 = mix_row2_spec(s0, s1, s2, s3);
    let m3 = mix_row3_spec(s0, s1, s2, s3);
    assert(m0 == p20 ^ p31 ^ s2 ^ s3);
    assert(m1 == s0 ^ p21 ^ p32 ^ s3);
    assert(m2 == s0 ^ s1 ^ p22 ^ p33);
    assert(m3 == p30 ^ s1 ^ s2 ^ p23);

    lemma_mul9_linear(p20 ^ p31 ^ s2, s3);
    lemma_mul9_linear(p20 ^ p31, s2);
    lemma_mul9_linear(p20, p31);
    lemma_mul14_linear(s0 ^ p21 ^ p32, s3);
    lemma_mul14_linear(s0 ^ p21, p32);
    lemma_mul14_linear(s0, p21);
    lemma_mul11_linear(s0 ^ s1 ^ p22, p33);
    lemma_mul11_linear(s0 ^ s1, p22);
    lemma_mul11_linear(s0, s1);
    lemma_mul13_linear(p30 ^ s1 ^ s2, p23);
    lemma_mul13_linear(p30 ^ s1, s2);
    lemma_mul13_linear(p30, s1);

    let f9_p20 = mul9_spec(p20);
    let f9_p31 = mul9_spec(p31);
    let f9_s2 = mul9_spec(s2);
    let f9_s3 = mul9_spec(s3);
    let f14_s0 = mul14_spec(s0);
    let f14_p21 = mul14_spec(p21);
    let f14_p32 = mul14_spec(p32);
    let f14_s3 = mul14_spec(s3);
    let f11_s0 = mul11_spec(s0);
    let f11_s1 = mul11_spec(s1);
    let f11_p22 = mul11_spec(p22);
    let f11_p33 = mul11_spec(p33);
    let f13_p30 = mul13_spec(p30);
    let f13_s1 = mul13_spec(s1);
    let f13_s2 = mul13_spec(s2);
    let f13_p23 = mul13_spec(p23);
    let q9 = mul9_spec(m0);
    let q14 = mul14_spec(m1);
    let q11 = mul11_spec(m2);
    let q13 = mul13_spec(m3);
    assert(q9 == f9_p20 ^ f9_p31 ^ f9_s2 ^ f9_s3);
    assert(q14 == f14_s0 ^ f14_p21 ^ f14_p32 ^ f14_s3);
    assert(q11 == f11_s0 ^ f11_s1 ^ f11_p22 ^ f11_p33);
    assert(q13 == f13_p30 ^ f13_s1 ^ f13_s2 ^ f13_p23);

    lemma_coeff_off3(s0);
    lemma_coeff_diagonal(s1);
    lemma_coeff_off1(s2);
    lemma_coeff_off2(s3);

    assert(q9 ^ q14 ^ q11 ^ q13 == s1) by (bit_vector)
        requires
            q9 == f9_p20 ^ f9_p31 ^ f9_s2 ^ f9_s3,
            q14 == f14_s0 ^ f14_p21 ^ f14_p32 ^ f14_s3,
            q11 == f11_s0 ^ f11_s1 ^ f11_p22 ^ f11_p33,
            q13 == f13_p30 ^ f13_s1 ^ f13_s2 ^ f13_p23,
            f14_s0 ^ f11_s0 ^ f13_p30 ^ f9_p20 == 0,
            f14_p21 ^ f11_s1 ^ f13_s1 ^ f9_p31 == s1,
            f14_p32 ^ f11_p22 ^ f13_s2 ^ f9_s2 == 0,
            f14_s3 ^ f11_p33 ^ f13_p23 ^ f9_s3 == 0,
    ;
}

/// Row 2 of the inverse matrix applied to a forward-mixed column
/// recovers the column's byte 2: the product of the two matrices is
/// the identity over GF(2^8).
proof fn lemma_column_inverse_row2(s0: u8, s1: u8, s2: u8, s3: u8)
    ensures
        inv_mix_row2_spec(
            mix_row0_spec(s0, s1, s2, s3),
            mix_row1_spec(s0, s1, s2, s3),
            mix_row2_spec(s0, s1, s2, s3),
            mix_row3_spec(s0, s1, s2, s3),
        ) == s2,
{
    let p20 = mul2_spec(s0);
    let p21 = mul2_spec(s1);
    let p22 = mul2_spec(s2);
    let p23 = mul2_spec(s3);
    let p30 = mul3_spec(s0);
    let p31 = mul3_spec(s1);
    let p32 = mul3_spec(s2);
    let p33 = mul3_spec(s3);
    let m0 = mix_row0_spec(s0, s1, s2, s3);
    let m1 = mix_row1_spec(s0, s1, s2, s3);
    let m2 = mix_row2_spec(s0, s1, s2, s3);
    let m3 = mix_row3_spec(s0, s1, s2, s3);
    assert(m0 == p20 ^ p31 ^ s2 ^ s3);
    assert(m1 == s0 ^ p21 ^ p32 ^ s3);
    assert(m2 == s0 ^ s1 ^ p22 ^ p33);
    assert(m3 == p30 ^ s1 ^ s2 ^ p23);

    lemma_mul13_linear(p20 ^ p31 ^ s2, s3);
    lemma_mul13_linear(p20 ^ p31, s2);
    lemma_mul13_linear(p20, p31);
    lemma_mul9_linear(s0 ^ p21 ^ p32, s3);
    lemma_mul9_linear(s0 ^ p21, p32);
    lemma_mul9_linear(s0, p21);
    lemma_mul14_linear(s0 ^ s1 ^ p22, p33);
    lemma_mul14_linear(s0 ^ s1, p22);
    lemma_mul14_linear(s0, s1);
    lemma_mul11_linear(p30 ^ s1 ^ s2, p23);
    lemma_mul11_linear(p30 ^ s1, s2);
    lemma_mul11_linear(p30, s1);

    let f13_p20 = mul13_spec(p20);
    let f13_p31 = mul13_spec(p31);
    let f13_s2 = mul13_spec(s2);
    let f13_s3 = mul13_spec(s3);
    let f9_s0 = mul9_spec(s0);
    let f9_p21 = mul9_spec(p21);
    let f9_p32 = mul9_spec(p32);
    let f9_s3 = mul9_spec(s3);
    let f14_s0 = mul14_spec(s0);
    let f14_s1 = mul14_spec(s1);
    let f14_p22 = mul14_spec(p22);
    let f14_p33 = mul14_spec(p33);
    let f11_p30 = mul11_spec(p30);
    let f11_s1 = mul11_spec(s1);
    let f11_s2 = mul11_spec(s2);
    let f11_p23 = mul11_spec(p23);
    let q13 = mul13_spec(m0);
    let q9 = mul9_spec(m1);
    let q14 = mul14_spec(m2);
    let q11 = mul11_spec(m3);
    assert(q13 == f13_p20 ^ f13_p31 ^ f13_s2 ^ f13_s3);
    assert(q9 == f9_s0 ^ f9_p21 ^ f9_p32 ^ f9_s3);
    assert(q14 == f14_s0 ^ f14_s1 ^ f14_p22 ^ f14_p33);
    assert(q11 == f11_p30 ^ f11_s1 ^ f11_s2 ^ f11_p23);

    lemma_coeff_off2(s0);
    lemma_coeff_off3(s1);
    lemma_coeff_diagonal(s2);
    lemma_coeff_off1(s3);

    assert(q13 ^ q9 ^ q14 ^ q11 == s2) by (bit_vector)
        requires
            q13 == f13_p20 ^ f13_p31 ^ f13_s2 ^ f13_s3,
            q9 == f9_s0 ^ f9_p21 ^ f9_p32 ^ f9_s3,
            q14 == f14_s0 ^ f14_s1 ^ f14_p22 ^ f14_p33,
            q11 == f11_p30 ^ f11_s1 ^ f11_s2 ^ f11_p23,
            f14_s0 ^ f11_p30 ^ f13_p20 ^ f9_s0 == 0,
            f14_s1 ^ f11_s1 ^ f13_p31 ^ f9_p21 == 0,
            f14_p22 ^ f11_s2 ^ f13_s2 ^ f9_p32 == s2,
            f14_p33 ^ f11_p23 ^ f13_s3 ^ f9_s3 == 0,
    ;
}

/// Row 3 of the inverse matrix applied to a forward-mixed column
/// recovers the column's byte 3: the product of the two matrices is
/// the identity over GF(2^8).
proof fn lemma_column_inverse_row3(s0: u8, s1: u8, s2: u8, s3: u8)
    ensures
        inv_mix_row3_spec(
            mix_row0_spec(s0, s1, s2, s3),
            mix_row1_spec(s0, s1, s2, s3),
            mix_row2_spec(s0, s1, s2, s3),
            mix_row3_spec(s0, s1, s2, s3),
        ) == s3,
{
    let p20 = mul2_spec(s0);
    let p21 = mul2_spec(s1);
    let p22 = mul2_spec(s2);
    let p23 = mul2_spec(s3);
    let p30 = mul3_spec(s0);
    let p31 = mul3_spec(s1);
    let p32 = mul3_spec(s2);
    let p33 = mul3_spec(s3);
    let m0 = mix_row0_spec(s0, s1, s2, s3);
    let m1 = mix_row1_spec(s0, s1, s2, s3);
    let m2 = mix_row2_spec(s0, s1, s2, s3);
    let m3 = mix_row3_spec(s0, s1, s2, s3);
    assert(m0 == p20 ^ p31 ^ s2 ^ s3);
    assert(m1 == s0 ^ p21 ^ p32 ^ s3);
    assert(m2 == s0 ^ s1 ^ p22 ^ p33);
    assert(m3 == p30 ^ s1 ^ s2 ^ p23);

    lemma_mul11_linear(p20 ^ p31 ^ s2, s3);
    lemma_mul11_linear(p20 ^ p31, s2);
    lemma_mul11_linear(p20, p31);
    lemma_mul13_linear(s0 ^ p21 ^ p32, s3);
    lemma_mul13_linear(s0 ^ p21, p32);
    lemma_mul13_linear(s0, p21);
    lemma_mul9_linear(s0 ^ s1 ^ p22, p33);
    lemma_mul9_linear(s0 ^ s1, p22);
    lemma_mul9_linear(s0, s1);
    lemma_mul14_linear(p30 ^ s1 ^ s2, p23);
    lemma_mul14_linear(p30 ^ s1, s2);
    lemma_mul14_linear(p30, s1);

    let f11_p20 = mul11_spec(p20);
    let f11_p31 = mul11_spec(p31);
    let f11_s2 = mul11_spec(s2);
    let f11_s3 = mul11_spec(s3);
    let f13_s0 = mul13_spec(s0);
    let f13_p21 = mul13_spec(p21);
    let f13_p32 = mul13_spec(p32);
    let f13_s3 = mul13_spec(s3);
    let f9_s0 = mul9_spec(s0);
    let f9_s1 = mul9_spec(s1);
    let f9_p22 = mul9_spec(p22);
    let f9_p33 = mul9_spec(p33);
    let f14_p30 = mul14_spec(p30);
    let f14_s1 = mul14_spec(s1);
    let f14_s2 = mul14_spec(s2);
    let f14_p23 = mul14_spec(p23);
    let q11 = mul11_spec(m0);
    let q13 = mul13_spec(m1);
    let q9 = mul9_spec(m2);
    let q14 = mul14_spec(m3);
    assert(q11 == f11_p20 ^ f11_p31 ^ f11_s2 ^ f11_s3);
    assert(q13 == f13_s0 ^ f13_p21 ^ f13_p32 ^ f13_s3);
    assert(q9 == f9_s0 ^ f9_s1 ^ f9_p22 ^ f9_p33);
    assert(q14 == f14_p30 ^ f14_s1 ^ f14_s2 ^ f14_p23);

    lemma_coeff_off1(s0);
    lemma_coeff_off2(s1);
    lemma_coeff_off3(s2);
    lemma_coeff_diagonal(s3);

    assert(q11 ^ q13 ^ q9 ^ q14 == s3) by (bit_vector)
        requires
            q11 == f11_p20 ^ f11_p31 ^ f11_s2 ^ f11_s3,
            q13 == f13_s0 ^ f13_p21 ^ f13_p32 ^ f13_s3,
            q9 == f9_s0 ^ f9_s1 ^ f9_p22 ^ f9_p33,
            q14 == f14_p30 ^ f14_s1 ^ f14_s2 ^ f14_p23,
            f14_p30 ^ f11_p20 ^ f13_s0 ^ f9_s0 == 0,
            f14_s1 ^ f11_p31 ^ f13_p21 ^ f9_s1 == 0,
            f14_s2 ^ f11_s2 ^ f13_p32 ^ f9_p22 == 0,
            f14_p23 ^ f11_s3 ^ f13_s3 ^ f9_p33 == s3,
    ;
}

/// The inverse matrix really is the inverse of the forward matrix over
/// GF(2^8), column by column.
proof fn lemma_column_inverse(s0: u8, s1: u8, s2: u8, s3: u8)
    ensures
        inv_mix_entry_spec(
            mix_entry_spec(s0, s1, s2, s3, 0),
            mix_entry_spec(s0, s1, s2, s3, 1),
            mix_entry_spec(s0, s1, s2, s3, 2),
            mix_entry_spec(s0, s1, s2, s3, 3),
            0,
        ) == s0,
        inv_mix_entry_spec(
            mix_entry_spec(s0, s1, s2, s3, 0),
            mix_entry_spec(s0, s1, s2, s3, 1),
            mix_entry_spec(s0, s1, s2, s3, 2),
            mix_entry_spec(s0, s1, s2, s3, 3),
            1,
        ) == s1,
        inv_mix_entry_spec(
            mix_entry_spec(s0, s1, s2, s3, 0),
            mix_entry_spec(s0, s1, s2, s3, 1),
            mix_entry_spec(s0, s1, s2, s3, 2),
            mix_entry_spec(s0, s1, s2, s3, 3),
            2,
        ) == s2,
        inv_mix_entry_spec(
            mix_entry_spec(s0, s1, s2, s3, 0),
            mix_entry_spec(s0, s1, s2, s3, 1),
            mix_entry_spec(s0, s1, s2, s3, 2),
            mix_entry_spec(s0, s1, s2, s3, 3),
            3,
        ) == s3,
{
    lemma_column_inverse_row0(s0, s1, s2, s3);
    lemma_column_inverse_row1(s0, s1, s2, s3);
    lemma_column_inverse_row2(s0, s1, s2, s3);
    lemma_column_inverse_row3(s0, s1, s2, s3);
}

/// Inverse mixing undoes forward mixing on every 16-byte block.
pub proof fn lemma_mix_columns_inverse(s: Seq<u8>)
    requires
        s.len() == 16,
    ensures
        inverse_mix_columns_spec(mix_columns_spec(s)) == s,
{
    let m = mix_columns_spec(s);
    assert forall|j: int| 0 <= j < 16 implies inverse_mix_columns_spec(m)[j] == s[j] by {
        let c = j % 4;
        lemma_column_inverse(s[c], s[c + 4], s[c + 8], s[c + 12]);
        assert(m[c] == mix_entry_spec(s[c], s[c + 4], s[c + 8], s[c + 12], 0));
        assert(m[c + 4] == mix_entry_spec(s[c], s[c + 4], s[c + 8], s[c + 12], 1));
        assert(m[c + 8] == mix_entry_spec(s[c], s[c + 4], s[c + 8], s[c + 12], 2));
        assert(m[c + 12] == mix_entry_spec(s[c], s[c + 4], s[c + 8], s[c + 12], 3));
    }
    assert(inverse_mix_columns_spec(mix_columns_spec(s)) =~= s);
}

/// Multiply each column of the state by the forward diffusion matrix.
#[verifier::rlimit(100)]
pub fn mix_columns(input: &mut [u8; 16])
    ensures
        final(input)@ == mix_columns_spec(old(input)@),
{
    for i in 0..4
        invariant
            forall|j: int|
                0 <= j < 16 && j % 4 < i ==> input@[j] == mix_columns_spec(old(input)@)[j],
            forall|j: int| 0 <= j < 16 && j % 4 >= i ==> input@[j] == old(input)@[j],
    {
        let s0 = input[i];
        let s1 = input[i + 4];
        let s2 = input[i + 8];
        let s3 = input[i + 12];

        input[i] = mul2(s0) ^ mul3(s1) ^ s2 ^ s3;
        input[i + 4] = s0 ^ mul2(s1) ^ mul3(s2) ^ s3;
        input[i + 8] = s0 ^ s1 ^ mul2(s2) ^ mul3(s3);
        input[i + 12] = mul3(s0) ^ s1 ^ s2 ^ mul2(s3);

        assert(input@[i as int] == mix_row0_spec(s0, s1, s2, s3));
        assert(input@[i + 4] == mix_row1_spec(s0, s1, s2, s3));
        assert(input@[i + 8] == mix_row2_spec(s0, s1, s2, s3));
        assert(input@[i + 12] == mix_row3_spec(s0, s1, s2, s3));
    }
    assert(input@ =~= mix_columns_spec(old(input)@));
}

/// Multiply each column of the state by the inverse diffusion matrix.
#[verifier::rlimit(100)]
pub fn inverse_mix_columns(input: &mut [u8; 16])
    ensures
        final(input)@ == inverse_mix_columns_spec(old(input)@),
{
    for i in 0..4
        invariant
            forall|j: int|
                0 <= j < 16 && j % 4 < i ==> input@[j] == inverse_mix_columns_spec(old(input)@)[j],
            forall|j: int| 0 <= j < 16 && j % 4 >= i ==> input@[j] == old(input)@[j],
    {
        let s0 = input[i];
        let s1 = input[i + 4];
        let s2 = input[i + 8];
        let s3 = input[i + 12];

        input[i] = mul14(s0) ^ mul11(s1) ^ mul13(s2) ^ mul9(s3);
        input[i + 4] = mul9(s0) ^ mul14(s1) ^ mul11(s2) ^ mul13(s3);
        input[i + 8] = mul13(s0) ^ mul9(s1) ^ mul14(s2) ^ mul11(s3);
        input[i + 12] = mul11(s0) ^ mul13(s1) ^ mul9(s2) ^ mul14(s3);

        assert(input@[i as int] == inv_mix_row0_spec(s0, s1, s2, s3));
        assert(input@[i + 4] == inv_mix_row1_spec(s0, s1, s2, s3));
        assert(input@[i + 8] == inv_mix_row2_spec(s0, s1, s2, s3));
        assert(input@[i + 12] == inv_mix_row3_spec(s0, s1, s2, s3));
    }
    assert(input@ =~= inverse_mix_columns_spec(old(input)@));
}

} // verus!
