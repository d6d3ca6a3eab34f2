//! Recovering a keypair: from a private key in one of its forms, or from a
//! mnemonic phrase.

use crate::account::{keypair_from_decoded, keypair_from_str, parsed_keypair};
use crate::codec::base58_text;
use crate::derivation::{hierarchical_keypair_from_seed, DerivationPath};
use crate::error::KeyError;
use crate::keypair::{checked_keypair, Keypair};
use crate::mnemonic::{derive_seed, parse_mnemonic};
use crate::scheme::derived_keypair;
use crate::text::{byte_array_text, bytes_to_string};
use crate::wordlist::{phrase_accepted, phrase_fault_text, seed_bytes};
use vstd::prelude::*;

verus! {

/// Where the recovery of a private key stands once its text has been read.
#[derive(Debug)]
pub enum Recovery {
    /// The text was a private key: this is its keypair.
    Found(Keypair),
    /// The text was no private key. It is to be taken for the path of a key
    /// file, and what the file holds handed to `recover_from_key_file`.
    TryKeyFile,
}

/// The first step: the input is read as the text of a private key. The key
/// file is asked for only where that gives no keypair.
pub fn recover_from_text(private_key: &str) -> (step: Recovery)
    ensures
        match step {
            Recovery::Found(keypair) => parsed_keypair(private_key@) == Some(keypair@)
                && keypair.wf(),
            Recovery::TryKeyFile => parsed_keypair(private_key@) is None,
        },
{
    match keypair_from_str(private_key) {
        Some(keypair) => Recovery::Found(keypair),
        None => Recovery::TryKeyFile,
    }
}

/// The last step: `contents` is what the key file held, or `None` where it
/// could not be read. Bytes that are a consistent keypair give that keypair.
/// Anything else is `InvalidPrivateKeyFormat`: no further source is tried.
pub fn recover_from_key_file(contents: Option<Vec<u8>>) -> (res: Result<Keypair, KeyError>)
    ensures
        match res {
            Ok(keypair) => contents matches Some(bytes) && checked_keypair(Some(bytes@)) == Some(
                keypair@,
            ) && keypair.wf(),
            Err(error) => (contents matches Some(bytes) ==> checked_keypair(Some(bytes@))
                is None) && error is InvalidPrivateKeyFormat,
        },
{
    match keypair_from_decoded(contents) {
        Some(keypair) => Ok(keypair),
        None => Err(KeyError::InvalidPrivateKeyFormat),
    }
}

/// The raw bytes of the keypair that `phrase` recovers: the child along
/// `44'/501'/0'/0'` of the seed of the phrase with the empty passphrase.
pub open spec fn mnemonic_keypair(phrase: Seq<char>) -> Option<Seq<u8>> {
    checked_keypair(derived_keypair(seed_bytes(phrase, Seq::empty()), Some(0u32), Some(0u32)))
}

/// Recovers the keypair of a mnemonic phrase. A phrase that the wordlist
/// check rejects gives `InvalidMnemonic` with the reason of the rejection. An
/// accepted phrase gives the keypair `mnemonic_keypair`, or
/// `KeyDerivationError` where there is none.
pub fn keypair_from_mnemonic(phrase: &str) -> (res: Result<Keypair, KeyError>)
    ensures
        match res {
            Ok(keypair) => phrase_accepted(phrase@) && mnemonic_keypair(phrase@) == Some(keypair@)
                && keypair.wf(),
            Err(KeyError::InvalidMnemonic { reason }) => phrase_fault_text(phrase@) == Some(
                reason@,
            ),
            Err(KeyError::KeyDerivationError) => phrase_accepted(phrase@) && mnemonic_keypair(
                phrase@,
            ) is None,
            Err(KeyError::InvalidPrivateKeyFormat) => false,
        },
{
    match parse_mnemonic(phrase) {
        Ok(mnemonic) => {
            proof {
                reveal_strlit("");
                assert(""@ =~= Seq::<char>::empty());
            }
            let seed = derive_seed(&mnemonic, "");
            let path = DerivationPath::solana_default();
            hierarchical_keypair_from_seed(seed.as_bytes(), &path)
        },
        Err(error) => Err(error),
    }
}

/// The three lines that show a keypair: its public key, its private key in
/// base 58, and its private key as byte-array text.
pub fn keypair_lines(keypair: &Keypair) -> (lines: Vec<String>)
    ensures
        lines@.len() == 3,
        lines@[0]@ == "public: "@ + base58_text(keypair.public()),
        lines@[1]@ == "private base58: "@ + base58_text(keypair@),
        lines@[2]@ == "private arr: "@ + byte_array_text(keypair@),
{
    let mut lines: Vec<String> = Vec::new();
    let mut public = String::from_str("public: ");
    public.append(keypair.pubkey().as_str());
    lines.push(public);
    let mut base58 = String::from_str("private base58: ");
    base58.append(keypair.to_base58_string().as_str());
    lines.push(base58);
    let mut array = String::from_str("private arr: ");
    array.append(bytes_to_string(keypair.to_bytes().as_slice()).as_str());
    lines.push(array);
    lines
}

} // verus!
