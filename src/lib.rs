//! The Rijndael (AES) round structure on single 16-byte blocks: the four
//! round transformations, their inverses, and the drivers that compose them
//! into the forward and inverse cipher under a supplied key schedule.
//!
//! A block is read as a 4x4 grid in row-major order. Blocks are tagged as
//! plaintext or ciphertext by a type parameter, so that only plaintext can be
//! encrypted and only ciphertext decrypted.

pub mod block;
pub mod cipher;
pub mod gf;
pub mod tables;
pub mod transform;

pub use block::{AESBlock, AesError, DecryptedState, EncryptedState};
pub use gf::xtime;
pub use tables::{inv_s_box, s_box};
