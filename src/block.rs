use vstd::prelude::*;

use core::marker::PhantomData;

verus! {

/// Marks a block that holds plaintext: it can only be encrypted.
#[derive(Debug)]
pub struct DecryptedState;

/// Marks a block that holds ciphertext: it can only be decrypted.
#[derive(Debug)]
pub struct EncryptedState;

/// Why an operation refused its input.
#[derive(Debug, Clone, Copy, PartialEq, Eq, Structural)]
pub enum AesError {
    /// A block or a round key is not exactly 16 bytes.
    InvalidLength,
    /// The key schedule does not hold 11, 13 or 15 round keys.
    InvalidKeySchedule,
    /// A substitution table does not hold exactly 256 entries.
    InvalidTable,
}

/// A single 16-byte block, read as a 4x4 grid in row-major order: byte `i`
/// stands in row `i / 4` and column `i % 4`.
///
/// The phase parameter tells plaintext from ciphertext, so that a block is
/// only ever encrypted from plaintext and decrypted from ciphertext.
#[derive(Debug)]
pub struct AESBlock<State = DecryptedState> {
    grid: Vec<u8>,
    state: PhantomData<State>,
}

impl<State> View for AESBlock<State> {
    type V = Seq<u8>;

    /// The sixteen bytes of the block.
    closed spec fn view(&self) -> Seq<u8> {
        self.grid@
    }
}

impl<State> AESBlock<State> {
    #[verifier::type_invariant]
    spec fn well_formed(&self) -> bool {
        self.grid@.len() == 16
    }

    /// Wraps sixteen bytes in a block of this phase.
    pub(crate) fn from_grid(grid: Vec<u8>) -> (r: Self)
        requires
            grid@.len() == 16,
        ensures
            r@ == grid@,
    {
        AESBlock { grid, state: PhantomData }
    }

    /// The sixteen bytes of the block.
    pub fn grid(&self) -> (r: &Vec<u8>)
        ensures
            r@ == self@,
            r@.len() == 16,
    {
        proof {
            use_type_invariant(self);
        }
        &self.grid
    }
}

impl AESBlock<DecryptedState> {
    /// A plaintext block from raw bytes; refused unless there are exactly 16.
    pub fn new(data: Vec<u8>) -> (r: Result<AESBlock<DecryptedState>, AesError>)
        ensures
            data@.len() == 16 <==> r is Ok,
            r is Ok ==> r->Ok_0@ == data@,
            r is Err ==> r->Err_0 == AesError::InvalidLength,
    {
        if data.len() == 16 {
            Ok(Self::from_grid(data))
        } else {
            Err(AesError::InvalidLength)
        }
    }
}

impl AESBlock<EncryptedState> {
    /// A ciphertext block from raw bytes; refused unless there are exactly 16.
    pub fn new(data: Vec<u8>) -> (r: Result<AESBlock<EncryptedState>, AesError>)
        ensures
            data@.len() == 16 <==> r is Ok,
            r is Ok ==> r->Ok_0@ == data@,
            r is Err ==> r->Err_0 == AesError::InvalidLength,
    {
        if data.len() == 16 {
            Ok(Self::from_grid(data))
        } else {
            Err(AesError::InvalidLength)
        }
    }
}

} // verus!
