use vstd::prelude::*;

use crate::block::{AESBlock, AesError, DecryptedState, EncryptedState};
use crate::tables::{inv_sbox_table, lemma_tables_inverse, sbox_table, tables_inverse};
use crate::transform::{
    add_round_key, inv_mix_columns, inv_shift_rows, lemma_add_round_key_involution,
    lemma_inv_mix_columns, lemma_inv_shift_rows, lemma_inv_sub_bytes, mix_columns, shift_rows,
    sub_bytes,
};

verus! {

/// The round keys of a schedule, as byte sequences.
pub open spec fn schedule_view(roundkeys: Seq<Vec<u8>>) -> Seq<Seq<u8>> {
    roundkeys.map_values(|k: Vec<u8>| k@)
}

/// A schedule for a 128-, 192- or 256-bit key holds 11, 13 or 15 round keys.
pub open spec fn schedule_len_ok(n: int) -> bool {
    n == 11 || n == 13 || n == 15
}

/// Every round key is 16 bytes long.
pub open spec fn round_keys_ok(ks: Seq<Seq<u8>>) -> bool {
    forall|i: int| 0 <= i < ks.len() ==> (#[trigger] ks[i]).len() == 16
}

/// A schedule that encryption and decryption accept.
pub open spec fn valid_schedule(ks: Seq<Seq<u8>>) -> bool {
    schedule_len_ok(ks.len() as int) && round_keys_ok(ks)
}

/// The error that encryption or decryption reports for a schedule and a
/// table length, if any: the number of round keys is checked first, then
/// their lengths, then the table.
pub open spec fn cipher_error(ks: Seq<Seq<u8>>, table_len: int) -> Option<AesError> {
    if !schedule_len_ok(ks.len() as int) {
        Some(AesError::InvalidKeySchedule)
    } else if !round_keys_ok(ks) {
        Some(AesError::InvalidLength)
    } else if table_len != 256 {
        Some(AesError::InvalidTable)
    } else {
        None
    }
}

/// The state of the forward cipher after the initial key addition and
/// rounds `1..=i`. Every round substitutes, shifts, mixes and adds its round
/// key, except the last, which does not mix.
pub open spec fn cipher_state(p: Seq<u8>, ks: Seq<Seq<u8>>, table: Seq<u8>, i: nat) -> Seq<u8>
    decreases i,
{
    if i == 0 {
        add_round_key(p, ks[0])
    } else {
        let s = shift_rows(sub_bytes(cipher_state(p, ks, table, (i - 1) as nat), table));
        if i < ks.len() - 1 {
            add_round_key(mix_columns(s), ks[i as int])
        } else {
            add_round_key(s, ks[i as int])
        }
    }
}

/// The forward cipher: a plaintext block encrypted under the schedule `ks`
/// with the substitution table `table`.
pub open spec fn cipher(p: Seq<u8>, ks: Seq<Seq<u8>>, table: Seq<u8>) -> Seq<u8> {
    cipher_state(p, ks, table, (ks.len() - 1) as nat)
}

/// The state of the inverse cipher when it starts on round `i`, counting
/// down: the last round key added, then for each round from the one before
/// the last down to `i`, the rows shifted back, the bytes substituted
/// through `inv`, the round key added and the columns unmixed.
pub open spec fn inv_cipher_state(c: Seq<u8>, ks: Seq<Seq<u8>>, inv: Seq<u8>, i: int) -> Seq<u8>
    decreases ks.len() - 1 - i,
{
    if i >= ks.len() - 1 {
        add_round_key(c, ks[ks.len() - 1])
    } else {
        let s = inv_cipher_state(c, ks, inv, i + 1);
        inv_mix_columns(add_round_key(sub_bytes(inv_shift_rows(s), inv), ks[i]))
    }
}

/// The inverse cipher: a ciphertext block decrypted under the schedule `ks`
/// with the inverse substitution table `inv`.
pub open spec fn inv_cipher(c: Seq<u8>, ks: Seq<Seq<u8>>, inv: Seq<u8>) -> Seq<u8> {
    add_round_key(sub_bytes(inv_shift_rows(inv_cipher_state(c, ks, inv, 1)), inv), ks[0])
}

/// Every state of the forward cipher is a 16-byte block.
proof fn lemma_cipher_state_len(p: Seq<u8>, ks: Seq<Seq<u8>>, table: Seq<u8>, i: nat)
    requires
        p.len() == 16,
    ensures
        cipher_state(p, ks, table, i).len() == 16,
    decreases i,
{
    if i > 0 {
        lemma_cipher_state_len(p, ks, table, (i - 1) as nat);
    }
}

/// Run on a ciphertext, the inverse cipher reaches at round `i` the state
/// that the forward cipher had in round `i` after shifting the rows.
proof fn lemma_inv_cipher_state(
    p: Seq<u8>,
    ks: Seq<Seq<u8>>,
    table: Seq<u8>,
    inv: Seq<u8>,
    i: int,
)
    requires
        p.len() == 16,
        valid_schedule(ks),
        tables_inverse(table, inv),
        1 <= i <= ks.len() - 1,
    ensures
        inv_cipher_state(cipher(p, ks, table), ks, inv, i) == shift_rows(
            sub_bytes(cipher_state(p, ks, table, (i - 1) as nat), table),
        ),
    decreases ks.len() - 1 - i,
{
    let last = ks.len() - 1;
    let prev = cipher_state(p, ks, table, (i - 1) as nat);
    lemma_cipher_state_len(p, ks, table, (i - 1) as nat);
    let shifted = shift_rows(sub_bytes(prev, table));
    if i == last {
        assert(cipher(p, ks, table) == add_round_key(shifted, ks[last]));
        lemma_add_round_key_involution(shifted, ks[last]);
    } else {
        lemma_inv_cipher_state(p, ks, table, inv, i + 1);
        let cur = cipher_state(p, ks, table, i as nat);
        lemma_cipher_state_len(p, ks, table, i as nat);
        lemma_inv_shift_rows(sub_bytes(cur, table));
        lemma_inv_sub_bytes(cur, table, inv);
        assert(cur == add_round_key(mix_columns(shifted), ks[i]));
        lemma_add_round_key_involution(mix_columns(shifted), ks[i]);
        lemma_inv_mix_columns(shifted);
    }
}

/// Decrypting with the inverse table undoes encrypting: for every 16-byte
/// block, every schedule of 11, 13 or 15 round keys of 16 bytes, and every
/// pair of mutually inverse substitution tables.
pub proof fn lemma_round_trip(p: Seq<u8>, ks: Seq<Seq<u8>>, table: Seq<u8>, inv: Seq<u8>)
    requires
        p.len() == 16,
        valid_schedule(ks),
        tables_inverse(table, inv),
    ensures
        inv_cipher(cipher(p, ks, table), ks, inv) == p,
{
    lemma_inv_cipher_state(p, ks, table, inv, 1);
    let first = cipher_state(p, ks, table, 0);
    lemma_inv_shift_rows(sub_bytes(first, table));
    lemma_inv_sub_bytes(first, table, inv);
    lemma_add_round_key_involution(p, ks[0]);
}

/// With the substitution box of this library and its inverse, decrypting
/// undoes encrypting, for every 16-byte block and every schedule of 11, 13
/// or 15 round keys of 16 bytes.
pub proof fn lemma_round_trip_sbox(p: Seq<u8>, ks: Seq<Seq<u8>>)
    requires
        p.len() == 16,
        valid_schedule(ks),
    ensures
        inv_cipher(cipher(p, ks, sbox_table()), ks, inv_sbox_table()) == p,
{
    lemma_tables_inverse();
    lemma_round_trip(p, ks, sbox_table(), inv_sbox_table());
}

/// Checks the schedule and the table length in the order that
/// `cipher_error` gives.
fn check_inputs(roundkeys: &Vec<Vec<u8>>, table: &[u8]) -> (r: Result<(), AesError>)
    ensures
        match cipher_error(schedule_view(roundkeys@), table@.len() as int) {
            Some(e) => r == Err::<(), AesError>(e),
            None => r is Ok,
        },
{
    let ghost ks = schedule_view(roundkeys@);
    let n = roundkeys.len();
    if n != 11 && n != 13 && n != 15 {
        return Err(AesError::InvalidKeySchedule);
    }
    let mut i: usize = 0;
    while i < n
        invariant
            n == roundkeys@.len(),
            schedule_len_ok(n as int),
            ks == schedule_view(roundkeys@),
            i <= n,
            forall|j: int| 0 <= j < i ==> (#[trigger] ks[j]).len() == 16,
        decreases n - i,
    {
        if roundkeys[i].len() != 16 {
            assert(ks[i as int].len() != 16);
            assert(!round_keys_ok(ks));
            return Err(AesError::InvalidLength);
        }
        i += 1;
    }
    if table.len() != 256 {
        return Err(AesError::InvalidTable);
    }
    Ok(())
}

impl AESBlock<DecryptedState> {
    /// Encrypts the block under `roundkeys` (11, 13 or 15 round keys of 16
    /// bytes each) with the 256-entry substitution table `sbox`.
    pub fn encrypt(&self, roundkeys: &Vec<Vec<u8>>, sbox: &[u8]) -> (r: Result<
        AESBlock<EncryptedState>,
        AesError,
    >)
        ensures
            r is Err <==> cipher_error(schedule_view(roundkeys@), sbox@.len() as int) is Some,
            r is Err ==> cipher_error(schedule_view(roundkeys@), sbox@.len() as int) == Some(
                r->Err_0,
            ),
            r is Ok ==> r->Ok_0@ == cipher(self@, schedule_view(roundkeys@), sbox@),
    {
        let ghost ks = schedule_view(roundkeys@);
        match check_inputs(roundkeys, sbox) {
            Err(e) => {
                return Err(e);
            },
            Ok(()) => {},
        }
        let grid = self.grid();
        assert(ks[0] == roundkeys@[0]@);
        let mut state = self.add_roundkey(grid.as_slice(), roundkeys[0].as_slice());
        let last = roundkeys.len() - 1;
        let mut round: usize = 1;
        while round <= last
            invariant
                valid_schedule(ks),
                ks == schedule_view(roundkeys@),
                last == ks.len() - 1,
                sbox@.len() == 256,
                self@.len() == 16,
                1 <= round <= last + 1,
                state@ == cipher_state(self@, ks, sbox@, (round - 1) as nat),
            decreases last + 1 - round,
        {
            proof {
                lemma_cipher_state_len(self@, ks, sbox@, (round - 1) as nat);
            }
            state = self.sub_bytes(state.as_slice(), sbox);
            state = self.shift_grid(state.as_slice());
            if round < last {
                state = self.mix_columns(state.as_slice());
            }
            assert(ks[round as int] == roundkeys@[round as int]@);
            state = self.add_roundkey(state.as_slice(), roundkeys[round].as_slice());
            round += 1;
        }
        proof {
            lemma_cipher_state_len(self@, ks, sbox@, last as nat);
        }
        Ok(AESBlock::<EncryptedState>::from_grid(state))
    }
}

impl AESBlock<EncryptedState> {
    /// Decrypts the block under `roundkeys` (11, 13 or 15 round keys of 16
    /// bytes each) with the 256-entry inverse substitution table `inv_sbox`.
    pub fn decrypt(&self, roundkeys: &Vec<Vec<u8>>, inv_sbox: &[u8]) -> (r: Result<
        AESBlock<DecryptedState>,
        AesError,
    >)
        ensures
            r is Err <==> cipher_error(schedule_view(roundkeys@), inv_sbox@.len() as int) is Some,
            r is Err ==> cipher_error(schedule_view(roundkeys@), inv_sbox@.len() as int) == Some(
                r->Err_0,
            ),
            r is Ok ==> r->Ok_0@ == inv_cipher(self@, schedule_view(roundkeys@), inv_sbox@),
    {
        let ghost ks = schedule_view(roundkeys@);
        match check_inputs(roundkeys, inv_sbox) {
            Err(e) => {
                return Err(e);
            },
            Ok(()) => {},
        }
        let grid = self.grid();
        let last = roundkeys.len() - 1;
        assert(ks[last as int] == roundkeys@[last as int]@);
        let mut state = self.add_roundkey(grid.as_slice(), roundkeys[last].as_slice());
        let mut round: usize = last - 1;
        while round >= 1
            invariant
                valid_schedule(ks),
                ks == schedule_view(roundkeys@),
                last == ks.len() - 1,
                inv_sbox@.len() == 256,
                round <= last - 1,
                state@ == inv_cipher_state(self@, ks, inv_sbox@, round + 1),
                state@.len() == 16,
            decreases round,
        {
            state = self.inv_shift_grid(state.as_slice());
            state = self.sub_bytes(state.as_slice(), inv_sbox);
            assert(ks[round as int] == roundkeys@[round as int]@);
            state = self.add_roundkey(state.as_slice(), roundkeys[round].as_slice());
            state = self.inv_mix_columns(state.as_slice());
            round -= 1;
        }
        state = self.inv_shift_grid(state.as_slice());
        state = self.sub_bytes(state.as_slice(), inv_sbox);
        assert(ks[0] == roundkeys@[0]@);
        state = self.add_roundkey(state.as_slice(), roundkeys[0].as_slice());
        Ok(AESBlock::<DecryptedState>::from_grid(state))
    }
}

} // verus!
