//! Key material for Solana accounts: mnemonic phrases, seeds, Ed25519 keypairs
//! and the two textual encodings of a keypair's 64 raw bytes.
//!
//! The executable functions are verified against the contracts they carry.
//! Cryptographic primitives, the wordlist and the base-58 and JSON codecs are
//! taken from their crates; what is assumed of each is written on the item
//! that calls it.

pub mod account;
pub mod batch;
pub mod codec;
pub mod derivation;
pub mod error;
pub mod keypair;
pub mod laws;
pub mod mnemonic;
pub mod recovery;
pub mod scheme;
pub mod text;
pub mod wordlist;
