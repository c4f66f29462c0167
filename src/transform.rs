use vstd::prelude::*;

use vstd::arithmetic::div_mod::{lemma_mod_add_multiples_vanish, lemma_small_mod};
use vstd::slice::slice_subrange;

use crate::block::AESBlock;
use crate::gf::{inv_mix_row, lemma_inv_mix_row, mix_row, xtime};
use crate::tables::tables_inverse;

verus! {

/// Byte-wise xor of a block with a round key.
pub open spec fn add_round_key(s: Seq<u8>, key: Seq<u8>) -> Seq<u8> {
    Seq::new(s.len(), |i: int| s[i] ^ key[i])
}

/// Each byte of the block replaced by its entry in `table`.
pub open spec fn sub_bytes(s: Seq<u8>, table: Seq<u8>) -> Seq<u8> {
    Seq::new(s.len(), |i: int| table[s[i] as int])
}

/// A row rotated cyclically `k` places to the left.
pub open spec fn rotate_left(row: Seq<u8>, k: int) -> Seq<u8> {
    Seq::new(row.len(), |i: int| row[(i + k) % (row.len() as int)])
}

/// Row `r` of the grid rotated `r` places to the left.
pub open spec fn shift_rows(s: Seq<u8>) -> Seq<u8> {
    Seq::new(16, |i: int| s[4 * (i / 4) + (i % 4 + i / 4) % 4])
}

/// Row `r` of the grid rotated `r` places to the right.
pub open spec fn inv_shift_rows(s: Seq<u8>) -> Seq<u8> {
    Seq::new(16, |i: int| s[4 * (i / 4) + (i % 4 + 4 - i / 4) % 4])
}

/// Column `c` of the grid, top to bottom.
pub open spec fn column(s: Seq<u8>, c: int) -> Seq<u8> {
    seq![s[c], s[4 + c], s[8 + c], s[12 + c]]
}

/// A column times the MixColumns matrix.
pub open spec fn mix_column(a: Seq<u8>) -> Seq<u8> {
    seq![
        mix_row(a[0], a[1], a[2], a[3]),
        mix_row(a[1], a[2], a[3], a[0]),
        mix_row(a[2], a[3], a[0], a[1]),
        mix_row(a[3], a[0], a[1], a[2]),
    ]
}

/// A column times the inverse of the MixColumns matrix.
pub open spec fn inv_mix_column(a: Seq<u8>) -> Seq<u8> {
    seq![
        inv_mix_row(a[0], a[1], a[2], a[3]),
        inv_mix_row(a[1], a[2], a[3], a[0]),
        inv_mix_row(a[2], a[3], a[0], a[1]),
        inv_mix_row(a[3], a[0], a[1], a[2]),
    ]
}

/// Every column of the grid mixed.
pub open spec fn mix_columns(s: Seq<u8>) -> Seq<u8> {
    Seq::new(16, |i: int| mix_column(column(s, i % 4))[i / 4])
}

/// Every column of the grid unmixed.
pub open spec fn inv_mix_columns(s: Seq<u8>) -> Seq<u8> {
    Seq::new(16, |i: int| inv_mix_column(column(s, i % 4))[i / 4])
}

/// Adding the same round key twice gives the block back.
pub proof fn lemma_add_round_key_involution(s: Seq<u8>, key: Seq<u8>)
    requires
        key.len() >= s.len(),
    ensures
        add_round_key(add_round_key(s, key), key) == s,
{
    assert forall|i: int| 0 <= i < s.len() implies #[trigger] add_round_key(
        add_round_key(s, key),
        key,
    )[i] == s[i] by {
        let (x, k) = (s[i], key[i]);
        assert((x ^ k) ^ k == x) by (bit_vector);
    }
    assert(add_round_key(add_round_key(s, key), key) =~= s);
}

/// Substituting through a table and then through its inverse gives the
/// block back.
pub proof fn lemma_inv_sub_bytes(s: Seq<u8>, table: Seq<u8>, inv: Seq<u8>)
    requires
        tables_inverse(table, inv),
    ensures
        sub_bytes(sub_bytes(s, table), inv) == s,
{
    assert forall|i: int| 0 <= i < s.len() implies #[trigger] sub_bytes(
        sub_bytes(s, table),
        inv,
    )[i] == s[i] by {
        assert(inv[table[s[i] as int] as int] == s[i] as int);
    }
    assert(sub_bytes(sub_bytes(s, table), inv) =~= s);
}

/// Rotating the rows right undoes rotating them left.
pub proof fn lemma_inv_shift_rows(s: Seq<u8>)
    requires
        s.len() == 16,
    ensures
        inv_shift_rows(shift_rows(s)) == s,
{
    assert forall|i: int| 0 <= i < 16 implies #[trigger] inv_shift_rows(shift_rows(s))[i]
        == s[i] by {
        let r = i / 4;
        let c = i % 4;
        let j = 4 * r + (c + 4 - r) % 4;
        assert(j / 4 == r && j % 4 == (c + 4 - r) % 4);
        assert(((c + 4 - r) % 4 + r) % 4 == c);
    }
    assert(inv_shift_rows(shift_rows(s)) =~= s);
}

/// Unmixing a mixed column gives the column back.
pub proof fn lemma_inv_mix_column(a: Seq<u8>)
    requires
        a.len() == 4,
    ensures
        inv_mix_column(mix_column(a)) == a,
{
    lemma_inv_mix_row(a[0], a[1], a[2], a[3]);
    lemma_inv_mix_row(a[1], a[2], a[3], a[0]);
    lemma_inv_mix_row(a[2], a[3], a[0], a[1]);
    lemma_inv_mix_row(a[3], a[0], a[1], a[2]);
    assert(inv_mix_column(mix_column(a)) =~= a);
}

/// Unmixing the columns undoes mixing them.
pub proof fn lemma_inv_mix_columns(s: Seq<u8>)
    requires
        s.len() == 16,
    ensures
        inv_mix_columns(mix_columns(s)) == s,
{
    let m = mix_columns(s);
    assert forall|c: int| 0 <= c < 4 implies #[trigger] column(m, c) == mix_column(
        column(s, c),
    ) by {
        assert(m[c] == mix_column(column(s, c))[0]);
        assert(m[4 + c] == mix_column(column(s, c))[1]);
        assert(m[8 + c] == mix_column(column(s, c))[2]);
        assert(m[12 + c] == mix_column(column(s, c))[3]);
        assert(column(m, c) =~= mix_column(column(s, c)));
    }
    assert forall|i: int| 0 <= i < 16 implies #[trigger] inv_mix_columns(m)[i] == s[i] by {
        let c = i % 4;
        lemma_inv_mix_column(column(s, c));
        assert(column(m, c) == mix_column(column(s, c)));
    }
    assert(inv_mix_columns(m) =~= s);
}

/// `inv_mix_row` computed from repeated doubling.
fn inv_mix_row_of(a: u8, b: u8, c: u8, d: u8) -> (r: u8)
    ensures
        r == inv_mix_row(a, b, c, d),
{
    let (a2, b2, c2, d2) = (xtime(a), xtime(b), xtime(c), xtime(d));
    let (a4, b4, c4, d4) = (xtime(a2), xtime(b2), xtime(c2), xtime(d2));
    let (a8, b8, c8, d8) = (xtime(a4), xtime(b4), xtime(c4), xtime(d4));
    // 14·a ⊕ 11·b ⊕ 13·c ⊕ 9·d
    (a8 ^ a4 ^ a2) ^ (b8 ^ b2 ^ b) ^ (c8 ^ c4 ^ c) ^ (d8 ^ d)
}

impl<State> AESBlock<State> {
    /// Xors `data` with `roundkey`, byte by byte.
    pub fn add_roundkey(&self, data: &[u8], roundkey: &[u8]) -> (r: Vec<u8>)
        requires
            data@.len() == 16,
            roundkey@.len() == 16,
        ensures
            r@ == add_round_key(data@, roundkey@),
    {
        let mut result: Vec<u8> = Vec::new();
        let mut i: usize = 0;
        while i < data.len()
            invariant
                data@.len() == 16,
                roundkey@.len() == 16,
                i <= 16,
                result@.len() == i,
                forall|j: int| 0 <= j < i ==> result@[j] == data@[j] ^ roundkey@[j],
            decreases 16 - i,
        {
            result.push(data[i] ^ roundkey[i]);
            i += 1;
        }
        assert(result@ =~= add_round_key(data@, roundkey@));
        result
    }

    /// Replaces each byte of `data` by its entry in `table`.
    pub fn sub_bytes(&self, data: &[u8], table: &[u8]) -> (r: Vec<u8>)
        requires
            data@.len() == 16,
            table@.len() >= 256,
        ensures
            r@ == sub_bytes(data@, table@),
    {
        let mut result: Vec<u8> = Vec::new();
        let mut i: usize = 0;
        while i < data.len()
            invariant
                data@.len() == 16,
                table@.len() >= 256,
                i <= 16,
                result@.len() == i,
                forall|j: int| 0 <= j < i ==> result@[j] == table@[data@[j] as int],
            decreases 16 - i,
        {
            result.push(table[data[i] as usize]);
            i += 1;
        }
        assert(result@ =~= sub_bytes(data@, table@));
        result
    }

    /// Rotates `row` cyclically `shift` places to the left.
    pub fn shift_row(&self, row: &[u8], shift: &usize) -> (r: Vec<u8>)
        requires
            *shift <= row@.len(),
        ensures
            r@ == rotate_left(row@, *shift as int),
    {
        let n = row.len();
        let k = *shift;
        let mut result: Vec<u8> = Vec::new();
        let mut j: usize = 0;
        while j < n
            invariant
                n == row@.len(),
                k <= n,
                j <= n,
                result@.len() == j,
                forall|t: int| 0 <= t < j ==> result@[t] == row@[(t + k) % (n as int)],
            decreases n - j,
        {
            let src: usize = if k < n - j {
                j + k
            } else {
                j - (n - k)
            };
            proof {
                if k < n - j {
                    lemma_small_mod((j + k) as nat, n as nat);
                } else {
                    lemma_small_mod(src as nat, n as nat);
                    lemma_mod_add_multiples_vanish(src as int, n as int);
                }
            }
            result.push(row[src]);
            j += 1;
        }
        assert(result@ =~= rotate_left(row@, k as int));
        result
    }

    /// Rotates row `r` of the grid `r` places to the left.
    pub fn shift_grid(&self, data: &[u8]) -> (r: Vec<u8>)
        requires
            data@.len() == 16,
        ensures
            r@ == shift_rows(data@),
    {
        let mut result: Vec<u8> = Vec::new();
        let mut r: usize = 0;
        while r < 4
            invariant
                data@.len() == 16,
                r <= 4,
                result@.len() == 4 * r,
                forall|t: int| 0 <= t < 4 * r ==> result@[t] == shift_rows(data@)[t],
            decreases 4 - r,
        {
            let row = slice_subrange(data, 4 * r, 4 * r + 4);
            let shifted = self.shift_row(row, &r);
            let mut j: usize = 0;
            while j < 4
                invariant
                    data@.len() == 16,
                    r < 4,
                    j <= 4,
                    row@ == data@.subrange(4 * r as int, 4 * r + 4),
                    shifted@ == rotate_left(row@, r as int),
                    result@.len() == 4 * r + j,
                    forall|t: int| 0 <= t < 4 * r + j ==> result@[t] == shift_rows(data@)[t],
                decreases 4 - j,
            {
                proof {
                    let t = 4 * r + j;
                    assert(t / 4 == r && t % 4 == j);
                }
                result.push(shifted[j]);
                j += 1;
            }
            r += 1;
        }
        assert(result@ =~= shift_rows(data@));
        result
    }

    /// Rotates row `r` of the grid `r` places to the right.
    pub fn inv_shift_grid(&self, data: &[u8]) -> (r: Vec<u8>)
        requires
            data@.len() == 16,
        ensures
            r@ == inv_shift_rows(data@),
    {
        let mut result: Vec<u8> = Vec::new();
        let mut r: usize = 0;
        while r < 4
            invariant
                data@.len() == 16,
                r <= 4,
                result@.len() == 4 * r,
                forall|t: int| 0 <= t < 4 * r ==> result@[t] == inv_shift_rows(data@)[t],
            decreases 4 - r,
        {
            let row = slice_subrange(data, 4 * r, 4 * r + 4);
            // A right rotation by `r` is a left rotation by `4 - r`.
            let shifted = self.shift_row(row, &(4 - r));
            let mut j: usize = 0;
            while j < 4
                invariant
                    data@.len() == 16,
                    r < 4,
                    j <= 4,
                    row@ == data@.subrange(4 * r as int, 4 * r + 4),
                    shifted@ == rotate_left(row@, 4 - r),
                    result@.len() == 4 * r + j,
                    forall|t: int| 0 <= t < 4 * r + j ==> result@[t] == inv_shift_rows(data@)[t],
                decreases 4 - j,
            {
                proof {
                    let t = 4 * r + j;
                    assert(t / 4 == r && t % 4 == j);
                }
                result.push(shifted[j]);
                j += 1;
            }
            r += 1;
        }
        assert(result@ =~= inv_shift_rows(data@));
        result
    }

    /// Multiplies one column by the MixColumns matrix over GF(2^8).
    pub fn mix_column(&self, data: &Vec<&u8>) -> (r: Vec<u8>)
        requires
            data@.len() == 4,
        ensures
            r@ == mix_column(data@.map_values(|x: &u8| *x)),
    {
        let (a0, a1, a2, a3) = (*data[0], *data[1], *data[2], *data[3]);
        let (b0, b1, b2, b3) = (xtime(a0), xtime(a1), xtime(a2), xtime(a3));
        let result: Vec<u8> = vec![
            b0 ^ (b1 ^ a1) ^ a2 ^ a3,  // 2·a0 ⊕ 3·a1 ⊕ a2 ⊕ a3
            b1 ^ (b2 ^ a2) ^ a3 ^ a0,  // 2·a1 ⊕ 3·a2 ⊕ a3 ⊕ a0
            b2 ^ (b3 ^ a3) ^ a0 ^ a1,  // 2·a2 ⊕ 3·a3 ⊕ a0 ⊕ a1
            b3 ^ (b0 ^ a0) ^ a1 ^ a2,  // 2·a3 ⊕ 3·a0 ⊕ a1 ⊕ a2
        ];
        assert(result@ =~= mix_column(data@.map_values(|x: &u8| *x)));
        result
    }

    /// Multiplies one column by the inverse of the MixColumns matrix.
    pub fn inv_mix_column(&self, data: &Vec<&u8>) -> (r: Vec<u8>)
        requires
            data@.len() == 4,
        ensures
            r@ == inv_mix_column(data@.map_values(|x: &u8| *x)),
    {
        let (a0, a1, a2, a3) = (*data[0], *data[1], *data[2], *data[3]);
        let result: Vec<u8> = vec![
            inv_mix_row_of(a0, a1, a2, a3),
            inv_mix_row_of(a1, a2, a3, a0),
            inv_mix_row_of(a2, a3, a0, a1),
            inv_mix_row_of(a3, a0, a1, a2),
        ];
        assert(result@ =~= inv_mix_column(data@.map_values(|x: &u8| *x)));
        result
    }

    /// Mixes each of the four columns of the grid.
    pub fn mix_columns(&self, data: &[u8]) -> (r: Vec<u8>)
        requires
            data@.len() == 16,
        ensures
            r@ == mix_columns(data@),
    {
        let col1 = self.mix_column(&vec![&data[0], &data[4], &data[8], &data[12]]);
        let col2 = self.mix_column(&vec![&data[1], &data[5], &data[9], &data[13]]);
        let col3 = self.mix_column(&vec![&data[2], &data[6], &data[10], &data[14]]);
        let col4 = self.mix_column(&vec![&data[3], &data[7], &data[11], &data[15]]);
        let result: Vec<u8> = vec![
            col1[0], col2[0], col3[0], col4[0],
            col1[1], col2[1], col3[1], col4[1],
            col1[2], col2[2], col3[2], col4[2],
            col1[3], col2[3], col3[3], col4[3],
        ];
        proof {
            assert(col1@ == mix_column(column(data@, 0)));
            assert(col2@ == mix_column(column(data@, 1)));
            assert(col3@ == mix_column(column(data@, 2)));
            assert(col4@ == mix_column(column(data@, 3)));
        }
        assert(result@ =~= mix_columns(data@));
        result
    }

    /// Unmixes each of the four columns of the grid.
    pub fn inv_mix_columns(&self, data: &[u8]) -> (r: Vec<u8>)
        requires
            data@.len() == 16,
        ensures
            r@ == inv_mix_columns(data@),
    {
        let col1 = self.inv_mix_column(&vec![&data[0], &data[4], &data[8], &data[12]]);
        let col2 = self.inv_mix_column(&vec![&data[1], &data[5], &data[9], &data[13]]);
        let col3 = self.inv_mix_column(&vec![&data[2], &data[6], &data[10], &data[14]]);
        let col4 = self.inv_mix_column(&vec![&data[3], &data[7], &data[11], &data[15]]);
        let result: Vec<u8> = vec![
            col1[0], col2[0], col3[0], col4[0],
            col1[1], col2[1], col3[1], col4[1],
            col1[2], col2[2], col3[2], col4[2],
            col1[3], col2[3], col3[3], col4[3],
        ];
        proof {
            assert(col1@ == inv_mix_column(column(data@, 0)));
            assert(col2@ == inv_mix_column(column(data@, 1)));
            assert(col3@ == inv_mix_column(column(data@, 2)));
            assert(col4@ == inv_mix_column(column(data@, 3)));
        }
        assert(result@ =~= inv_mix_columns(data@));
        result
    }
}

} // verus!
