//! The ShiftRows layer: row `r` of the state matrix (positions `4r..4r+4`)
//! is rotated left by `r` places, or right by `r` places for the inverse;
//! row 0 is unchanged in both directions.

use vstd::prelude::*;

verus! {

/// The state after ShiftRows: position `j` in row `j / 4` and column
/// `j % 4` takes the byte that sat `j / 4` columns to the right.
pub open spec fn shift_rows_spec(s: Seq<u8>) -> Seq<u8> {
    Seq::new(16, |j: int| s[(j / 4) * 4 + (j % 4 + j / 4) % 4])
}

/// The state after InverseShiftRows: each row rotated right by its index.
pub open spec fn inverse_shift_rows_spec(s: Seq<u8>) -> Seq<u8> {
    Seq::new(16, |j: int| s[(j / 4) * 4 + (j % 4 + 4 - j / 4 % 4) % 4])
}

/// Rotating each row right by its index undoes rotating it left by its
/// index: the two permutations are mutually inverse.
pub proof fn lemma_shift_rows_inverse(s: Seq<u8>)
    requires
        s.len() == 16,
    ensures
        inverse_shift_rows_spec(shift_rows_spec(s)) == s,
{
    assert forall|j: int| 0 <= j < 16 implies inverse_shift_rows_spec(shift_rows_spec(s))[j]
        == s[j] by {
        let k = (j / 4) * 4 + (j % 4 + 4 - j / 4 % 4) % 4;
        assert(inverse_shift_rows_spec(shift_rows_spec(s))[j] == shift_rows_spec(s)[k]);
        assert(shift_rows_spec(s)[k] == s[(k / 4) * 4 + (k % 4 + k / 4) % 4]);
        assert((k / 4) * 4 + (k % 4 + k / 4) % 4 == j);
    }
    assert(inverse_shift_rows_spec(shift_rows_spec(s)) =~= s);
}

/// Rotate row `r` of the state left by `r` places.
pub fn shift_rows(state: &mut [u8; 16])
    ensures
        final(state)@ == shift_rows_spec(old(state)@),
{
    let s = *state;
    *state = [
        s[0], s[1], s[2], s[3],
        s[5], s[6], s[7], s[4],
        s[10], s[11], s[8], s[9],
        s[15], s[12], s[13], s[14],
    ];
    assert(state@ =~= shift_rows_spec(old(state)@));
}

/// Rotate row `r` of the state right by `r` places.
pub fn inverse_shift_rows(state: &mut [u8; 16])
    ensures
        final(state)@ == inverse_shift_rows_spec(old(state)@),
{
    let s = *state;
    *state = [
        s[0], s[1], s[2], s[3],
        s[7], s[4], s[5], s[6],
        s[10], s[11], s[8], s[9],
        s[13], s[14], s[15], s[12],
    ];
    assert(state@ =~= inverse_shift_rows_spec(old(state)@));
}

} // verus!
