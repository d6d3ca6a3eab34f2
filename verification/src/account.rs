//! Keypairs for accounts: fresh ones, and the two texts of a private key.

use crate::codec::{base58_bytes, base58_decode, base58_text, json_bytes, json_decode};
use crate::derivation::{direct_keypair, direct_keypair_from_seed};
use crate::keypair::{checked_keypair, Keypair};
use crate::mnemonic::{derive_seed, generate_mnemonic, word_count, Mnemonic, FRESH_WORDS};
use crate::scheme::{consistent_keypair, throwaway_pubkey_text};
use crate::text::{byte_array_text, bytes_to_string};
use crate::wordlist::{phrase_accepted, seed_bytes};
use vstd::prelude::*;

verus! {

/// Whether `text` is taken for byte-array text: it begins with an opening
/// bracket. Any other text is taken for base 58.
pub open spec fn is_array_text(text: Seq<char>) -> bool {
    text.len() > 0 && text[0] == '['
}

/// The raw bytes of the keypair that `text` stands for, if it stands for
/// one. The first character alone selects the format: text that begins with
/// a bracket is never read as base 58, and other text never as an array.
pub open spec fn parsed_keypair(text: Seq<char>) -> Option<Seq<u8>> {
    if is_array_text(text) {
        checked_keypair(json_bytes(text))
    } else {
        checked_keypair(base58_bytes(text))
    }
}

/// Whether `text` begins with an opening bracket.
pub fn begins_with_bracket(text: &str) -> (res: bool)
    ensures
        res == is_array_text(text@),
{
    !text.is_empty() && text.get_char(0) == '['
}

/// The keypair of a mnemonic and a passphrase without a derivation path: the
/// first 32 bytes of their seed are the secret key.
pub fn flat_keypair(mnemonic: &Mnemonic, passphrase: &str) -> (keypair: Keypair)
    ensures
        keypair@ == direct_keypair(seed_bytes(mnemonic@, passphrase@)),
        keypair.wf(),
{
    let seed = derive_seed(mnemonic, passphrase);
    direct_keypair_from_seed(seed.as_bytes()).unwrap()
}

/// A fresh keypair: the flat keypair of a freshly sampled 24-word mnemonic,
/// with the public key of a second, discarded random keypair as passphrase.
/// The passphrase only varies the salt of the seed; the keypair's secrecy
/// rests on the mnemonic.
pub fn generate_keypair() -> (keypair: Keypair)
    ensures
        keypair.wf(),
        exists|phrase: Seq<char>, salt: Seq<char>|
            phrase_accepted(phrase) && word_count(phrase) == FRESH_WORDS && keypair@
                == #[trigger] direct_keypair(seed_bytes(phrase, salt)),
{
    let mnemonic = generate_mnemonic();
    let salt = throwaway_pubkey_text();
    let keypair = flat_keypair(&mnemonic, salt.as_str());
    proof {
        use_type_invariant(&mnemonic);
        assert(phrase_accepted(mnemonic@) && word_count(mnemonic@) == FRESH_WORDS && keypair@
            == direct_keypair(seed_bytes(mnemonic@, salt@)));
    }
    keypair
}

/// Writes 64 bytes as byte-array text: `[b0,b1,...,b63]`, each byte in
/// decimal without leading zeros, and no white space.
pub fn keypair_bytes_to_string(keypair: [u8; 64]) -> (text: String)
    ensures
        text@ == byte_array_text(keypair@),
{
    bytes_to_string(keypair.as_slice())
}

/// Makes a keypair of what a decoder read: the bytes must be a consistent
/// keypair, and where the decoder read nothing there is none.
pub fn keypair_from_decoded(decoded: Option<Vec<u8>>) -> (res: Option<Keypair>)
    ensures
        match res {
            Some(keypair) => decoded matches Some(bytes) && checked_keypair(Some(bytes@)) == Some(
                keypair@,
            ) && keypair.wf(),
            None => decoded matches Some(bytes) ==> checked_keypair(Some(bytes@)) is None,
        },
{
    match decoded {
        Some(bytes) => Keypair::from_bytes(bytes.as_slice()),
        None => None,
    }
}

/// Reads a private key from text. Text that begins with `[` is read as a
/// JSON array of byte values, any other text as base 58; the bytes read must
/// be a consistent keypair. Every failure gives `None`, so that the caller can
/// try another source.
///
/// Reading undoes writing: the byte-array text of a keypair is read as that
/// keypair, and so is its base-58 text, which never begins with a bracket.
pub fn keypair_from_str(private_key: &str) -> (res: Option<Keypair>)
    ensures
        match res {
            Some(keypair) => parsed_keypair(private_key@) == Some(keypair@) && keypair.wf(),
            None => parsed_keypair(private_key@) is None,
        },
        forall|keypair: Seq<u8>|
            consistent_keypair(keypair) && #[trigger] byte_array_text(keypair) == private_key@
                ==> res is Some && res->0@ == keypair,
        forall|keypair: Seq<u8>|
            consistent_keypair(keypair) && #[trigger] base58_text(keypair) == private_key@
                && !is_array_text(private_key@) ==> res is Some && res->0@ == keypair,
{
    if begins_with_bracket(private_key) {
        keypair_from_decoded(json_decode(private_key))
    } else {
        proof {
            assert forall|keypair: Seq<u8>| #[trigger]
                byte_array_text(keypair) != private_key@ by {
                assert(byte_array_text(keypair)[0] == '[');
            }
        }
        keypair_from_decoded(base58_decode(private_key))
    }
}

} // verus!
