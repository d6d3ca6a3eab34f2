//! The ways in which recovering or deriving a key can fail.

use vstd::prelude::*;

verus! {

/// Why no keypair was produced.
#[derive(Debug)]
pub enum KeyError {
    /// The phrase has a word outside the wordlist, a wrong number of words or a
    /// wrong checksum. `reason` is the wordlist library's own description.
    InvalidMnemonic { reason: String },
    /// The input is no byte-array text, no base-58 text and no usable key file.
    InvalidPrivateKeyFormat,
    /// The seed is too short, or what derivation returned is no keypair.
    KeyDerivationError,
}

impl KeyError {
    /// The text shown to the user for this error.
    pub open spec fn spec_message(self) -> Seq<char> {
        match self {
            KeyError::InvalidMnemonic { reason } => reason@,
            KeyError::InvalidPrivateKeyFormat => "invalid private key"@,
            KeyError::KeyDerivationError => "key derivation failed"@,
        }
    }

    /// The text shown to the user for this error.
    pub fn message(&self) -> (text: String)
        ensures
            text@ == self.spec_message(),
    {
        match self {
            KeyError::InvalidMnemonic { reason } => reason.clone(),
            KeyError::InvalidPrivateKeyFormat => String::from_str("invalid private key"),
            KeyError::KeyDerivationError => String::from_str("key derivation failed"),
        }
    }
}

} // verus!
