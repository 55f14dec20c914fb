//! The Rijndael key schedule: a 16-byte cipher key is stretched into 44
//! four-byte words, read off as 11 round keys, and the AddRoundKey step
//! that XORs a round key into the state.

use crate::substitution::{sub_byte, sub_byte_spec};
use vstd::prelude::*;

verus! {

/// Round constant for word group `r`: the powers of 2 in GF(2^8),
/// starting at 1 for the first group past the cipher key.
pub open spec fn round_constant_spec(r: int) -> u8 {
    if r == 1 {
        0x01
    } else if r == 2 {
        0x02
    } else if r == 3 {
        0x04
    } else if r == 4 {
        0x08
    } else if r == 5 {
        0x10
    } else if r == 6 {
        0x20
    } else if r == 7 {
        0x40
    } else if r == 8 {
        0x80
    } else if r == 9 {
        0x1b
    } else {
        0x36
    }
}

fn round_constant(r: usize) -> (c: u8)
    requires
        1 <= r <= 10,
    ensures
        c == round_constant_spec(r as int),
{
    match r {
        1 => 0x01,
        2 => 0x02,
        3 => 0x04,
        4 => 0x08,
        5 => 0x10,
        6 => 0x20,
        7 => 0x40,
        8 => 0x80,
        9 => 0x1b,
        _ => 0x36,
    }
}

/// Word `i` of the expanded key, as a 4-byte sequence. The first four
/// words are the cipher key itself; from then on `w[i] = w[i-4] XOR
/// T(w[i-1])`, where `T` is the identity except at every fourth word,
/// where the previous word is rotated left one byte, substituted
/// byte-wise, and its first byte XORed with the round constant.
pub open spec fn word_spec(key: Seq<u8>, i: int) -> Seq<u8>
    decreases i,
{
    if i < 4 {
        key.subrange(4 * i, 4 * i + 4)
    } else {
        let prev = word_spec(key, i - 1);
        let back = word_spec(key, i - 4);
        let t = if i % 4 == 0 {
            seq![
                sub_byte_spec(prev[1]) ^ round_constant_spec(i / 4),
                sub_byte_spec(prev[2]),
                sub_byte_spec(prev[3]),
                sub_byte_spec(prev[0]),
            ]
        } else {
            prev
        };
        seq![back[0] ^ t[0], back[1] ^ t[1], back[2] ^ t[2], back[3] ^ t[3]]
    }
}

/// Every word of the schedule is 4 bytes long.
pub proof fn lemma_word_len(key: Seq<u8>, i: int)
    requires
        key.len() == 16,
        0 <= i,
    ensures
        word_spec(key, i).len() == 4,
    decreases i,
{
    if i >= 4 {
        lemma_word_len(key, i - 1);
        lemma_word_len(key, i - 4);
    }
}

/// Round key `r`: words `4r` through `4r + 3` laid end to end.
pub open spec fn round_key_spec(key: Seq<u8>, r: int) -> Seq<u8> {
    word_spec(key, 4 * r) + word_spec(key, 4 * r + 1) + word_spec(key, 4 * r + 2) + word_spec(
        key,
        4 * r + 3,
    )
}

/// Derive the 11 round keys from a cipher key. The schedule is a pure
/// function of the key: two expansions of the same key give the same
/// sequence of round keys.
pub fn key_expansion(key: &[u8; 16]) -> (round_keys: Vec<[u8; 16]>)
    ensures
        round_keys@.len() == 11,
        forall|r: int| 0 <= r < 11 ==> round_keys@[r]@ == round_key_spec(key@, r),
{
    let mut words: Vec<[u8; 4]> = Vec::new();
    let mut i: usize = 0;
    while i < 4
        invariant
            words@.len() == i,
            i <= 4,
            forall|k: int| 0 <= k < i ==> words@[k]@ == word_spec(key@, k),
        decreases 4 - i,
    {
        let w = [key[4 * i], key[4 * i + 1], key[4 * i + 2], key[4 * i + 3]];
        assert(w@ =~= word_spec(key@, i as int));
        words.push(w);
        i += 1;
    }
    while i < 44
        invariant
            words@.len() == i,
            4 <= i <= 44,
            forall|k: int| 0 <= k < i ==> words@[k]@ == word_spec(key@, k),
        decreases 44 - i,
    {
        let prev = words[i - 1];
        let back = words[i - 4];
        proof {
            assert(prev@ == word_spec(key@, i as int - 1));
            assert(back@ == word_spec(key@, i as int - 4));
            lemma_word_len(key@, i as int - 1);
            lemma_word_len(key@, i as int - 4);
        }
        let t: [u8; 4] = if i % 4 == 0 {
            [
                sub_byte(prev[1]) ^ round_constant(i / 4),
                sub_byte(prev[2]),
                sub_byte(prev[3]),
                sub_byte(prev[0]),
            ]
        } else {
            prev
        };
        let w = [back[0] ^ t[0], back[1] ^ t[1], back[2] ^ t[2], back[3] ^ t[3]];
        proof {
            let ti = if i as int % 4 == 0 {
                seq![
                    sub_byte_spec(word_spec(key@, i as int - 1)[1]) ^ round_constant_spec(
                        i as int / 4,
                    ),
                    sub_byte_spec(word_spec(key@, i as int - 1)[2]),
                    sub_byte_spec(word_spec(key@, i as int - 1)[3]),
                    sub_byte_spec(word_spec(key@, i as int - 1)[0]),
                ]
            } else {
                word_spec(key@, i as int - 1)
            };
            assert(t@ =~= ti);
            assert(i as int % 4 == 0 ==> i as int / 4 == (i / 4) as int);
        }
        assert(w@ =~= word_spec(key@, i as int));
        words.push(w);
        i += 1;
    }
    let mut round_keys: Vec<[u8; 16]> = Vec::new();
    let mut r: usize = 0;
    while r < 11
        invariant
            words@.len() == 44,
            forall|k: int| 0 <= k < 44 ==> words@[k]@ == word_spec(key@, k),
            round_keys@.len() == r,
            r <= 11,
            forall|t: int| 0 <= t < r ==> round_keys@[t]@ == round_key_spec(key@, t),
        decreases 11 - r,
    {
        let w0 = words[4 * r];
        let w1 = words[4 * r + 1];
        let w2 = words[4 * r + 2];
        let w3 = words[4 * r + 3];
        let rk = [
            w0[0], w0[1], w0[2], w0[3],
            w1[0], w1[1], w1[2], w1[3],
            w2[0], w2[1], w2[2], w2[3],
            w3[0], w3[1], w3[2], w3[3],
        ];
        proof {
            lemma_word_len(key@, 4 * r as int);
            lemma_word_len(key@, 4 * r as int + 1);
            lemma_word_len(key@, 4 * r as int + 2);
            lemma_word_len(key@, 4 * r as int + 3);
        }
        assert(rk@ =~= round_key_spec(key@, r as int));
        round_keys.push(rk);
        r += 1;
    }
    round_keys
}

/// The state XORed byte-wise with a round key.
pub open spec fn add_round_key_spec(s: Seq<u8>, rk: Seq<u8>) -> Seq<u8> {
    Seq::new(16, |i: int| s[i] ^ rk[i])
}

/// XORing the same round key twice returns the original state.
pub proof fn lemma_add_round_key_involution(s: Seq<u8>, rk: Seq<u8>)
    requires
        s.len() == 16,
    ensures
        add_round_key_spec(add_round_key_spec(s, rk), rk) == s,
{
    assert forall|i: int| 0 <= i < 16 implies add_round_key_spec(add_round_key_spec(s, rk), rk)[i]
        == s[i] by {
        let a = s[i];
        let b = rk[i];
        assert((a ^ b) ^ b == a) by (bit_vector);
    }
    assert(add_round_key_spec(add_round_key_spec(s, rk), rk) =~= s);
}

/// XOR the state byte-wise with a round key.
pub fn add_round_key(state: &mut [u8; 16], round_key: &[u8; 16])
    ensures
        final(state)@ == add_round_key_spec(old(state)@, round_key@),
{
    for i in 0..16
        invariant
            forall|j: int| 0 <= j < i ==> state@[j] == old(state)@[j] ^ round_key@[j],
            forall|j: int| i <= j < 16 ==> state@[j] == old(state)@[j],
    {
        state[i] = state[i] ^ round_key[i];
    }
    assert(state@ =~= add_round_key_spec(old(state)@, round_key@));
}

} // verus!
