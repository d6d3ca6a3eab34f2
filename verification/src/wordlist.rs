//! BIP-39 phrases and seeds, as the `bip39` library of the `tiny-bip39` crate
//! implements them for the English wordlist.
//!
//! Nothing here is proved. Each function below calls into that library, and
//! its contract gives the call's result a name or says what the library's
//! source shows of it.

use crate::mnemonic::word_count;
use vstd::prelude::*;

verus! {

/// What `Mnemonic::from_phrase` objects to in `text`, for the English
/// wordlist: the message of the error it returns, or `None` where it accepts
/// the text.
pub uninterp spec fn phrase_fault_text(text: Seq<char>) -> Option<Seq<char>>;

/// Whether `Mnemonic::from_phrase` accepts `text` for the English wordlist:
/// every word is in the list, the number of words is one that BIP-39 allows,
/// and the checksum is right.
pub open spec fn phrase_accepted(text: Seq<char>) -> bool {
    phrase_fault_text(text) is None
}

/// The 64 bytes of `Seed::new` for the mnemonic that `Mnemonic::from_phrase`
/// builds from `text`, with `passphrase`. It has a meaning only where
/// `phrase_accepted(text)` holds.
pub uninterp spec fn seed_bytes(text: Seq<char>, passphrase: Seq<char>) -> Seq<u8>;

/// Calls `Mnemonic::from_phrase(text, Language::English)`, and on an error
/// takes its message. Assumed: whether the phrase is accepted, and with which
/// message it is rejected, depends on the text alone.
#[verifier::external_body]
pub(crate) fn phrase_fault(text: &str) -> (fault: Option<String>)
    ensures
        match fault {
            Some(message) => phrase_fault_text(text@) == Some(message@),
            None => phrase_fault_text(text@) is None,
        },
{
    match bip39::Mnemonic::from_phrase(text, bip39::Language::English) {
        Ok(_) => None,
        Err(error) => Some(error.to_string()),
    }
}

/// Calls `Mnemonic::from_phrase(text, Language::English)` and, with the
/// mnemonic it returns, `Seed::new(&mnemonic, passphrase)`. Assumed: the seed
/// has 64 bytes, which the library's source shows, and depends on the two
/// texts alone.
#[verifier::external_body]
pub(crate) fn phrase_seed(text: &str, passphrase: &str) -> (res: Option<Vec<u8>>)
    ensures
        res is Some <==> phrase_accepted(text@),
        res matches Some(bytes) ==> bytes@ == seed_bytes(text@, passphrase@) && bytes@.len() == 64,
{
    match bip39::Mnemonic::from_phrase(text, bip39::Language::English) {
        Ok(mnemonic) => Some(bip39::Seed::new(&mnemonic, passphrase).as_bytes().to_vec()),
        Err(_) => None,
    }
}

/// Calls `Mnemonic::new(MnemonicType::Words24, Language::English)` and takes
/// the phrase. The phrase is random. Assumed of every outcome, as the
/// library's source has it: the phrase is built from 32 random bytes and the
/// first byte of their hash, 264 bits that give 24 words of the list, joined
/// by single spaces; `Mnemonic::from_phrase` looks the same words up again and
/// compares the same checksum, so it accepts the phrase.
#[verifier::external_body]
pub(crate) fn random_phrase() -> (phrase: String)
    ensures
        phrase_accepted(phrase@),
        word_count(phrase@) == 24,
{
    bip39::Mnemonic::new(bip39::MnemonicType::Words24, bip39::Language::English).into_phrase()
}

} // verus!
