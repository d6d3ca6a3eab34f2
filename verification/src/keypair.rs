//! The keypair: a secret key and the public key that belongs to it.

use crate::codec::{base58_encode, base58_text, is_base58_char};
use crate::scheme::{checked_keypair_bytes, consistent_keypair, public_key_of};
use vstd::prelude::*;
use vstd::slice::slice_subrange;

verus! {

/// An Ed25519 keypair as its 64 raw bytes: the secret key in the first 32, the
/// public key in the last 32. Every value of this type is consistent: its
/// public key is the one that belongs to its secret key.
#[derive(Debug)]
pub struct Keypair {
    bytes: [u8; 64],
}

impl View for Keypair {
    type V = Seq<u8>;

    /// The 64 raw bytes.
    closed spec fn view(&self) -> Seq<u8> {
        self.bytes@
    }
}

/// What is made of a candidate for a keypair's raw bytes: the bytes where
/// they are a consistent keypair, and nothing where they are not, or where
/// there is no candidate.
pub open spec fn checked_keypair(candidate: Option<Seq<u8>>) -> Option<Seq<u8>> {
    match candidate {
        Some(bytes) => if consistent_keypair(bytes) {
            Some(bytes)
        } else {
            None
        },
        None => None,
    }
}

impl Keypair {
    /// The public half is the public key of the secret half.
    #[verifier::type_invariant]
    pub open spec fn wf(&self) -> bool {
        consistent_keypair(self@)
    }

    /// The secret key: the first 32 bytes.
    pub open spec fn secret(&self) -> Seq<u8> {
        self@.subrange(0, 32)
    }

    /// The public key: the last 32 bytes.
    pub open spec fn public(&self) -> Seq<u8> {
        self@.subrange(32, 64)
    }

    /// The keypair with the raw bytes `bytes`, where they are 64 bytes whose
    /// public half belongs to their secret half, and `None` for any others.
    pub fn from_bytes(bytes: &[u8]) -> (res: Option<Keypair>)
        ensures
            match res {
                Some(keypair) => keypair@ == bytes@ && keypair.wf(),
                None => !consistent_keypair(bytes@),
            },
    {
        match checked_keypair_bytes(bytes) {
            Some(checked) => Some(Keypair { bytes: checked }),
            None => None,
        }
    }

    /// The keypair with the raw bytes `bytes`, which the caller has shown to
    /// be consistent.
    pub(crate) fn from_consistent(bytes: [u8; 64]) -> (keypair: Keypair)
        requires
            consistent_keypair(bytes@),
        ensures
            keypair@ == bytes@,
            keypair.wf(),
    {
        Keypair { bytes }
    }

    /// The 64 raw bytes.
    pub fn to_bytes(&self) -> (bytes: [u8; 64])
        ensures
            bytes@ == self@,
            consistent_keypair(bytes@),
    {
        proof {
            use_type_invariant(self);
        }
        self.bytes
    }

    /// The public key, written in base 58.
    pub fn pubkey(&self) -> (text: String)
        ensures
            text@ == base58_text(self.public()),
            forall|i: int| 0 <= i < text@.len() ==> is_base58_char(#[trigger] text@[i]),
            self.public() == public_key_of(self.secret()),
    {
        proof {
            use_type_invariant(self);
        }
        base58_encode(slice_subrange(self.bytes.as_slice(), 32, 64))
    }

    /// The 64 raw bytes, written in base 58. No character of the text is a
    /// bracket.
    pub fn to_base58_string(&self) -> (text: String)
        ensures
            text@ == base58_text(self@),
            forall|i: int| 0 <= i < text@.len() ==> is_base58_char(#[trigger] text@[i]),
    {
        base58_encode(self.bytes.as_slice())
    }
}

} // verus!
