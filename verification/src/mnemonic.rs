//! Mnemonic phrases and the seeds derived from them.

use crate::error::KeyError;
use crate::wordlist::{
    phrase_accepted,
    phrase_fault,
    phrase_fault_text,
    phrase_seed,
    random_phrase,
    seed_bytes,
};
use vstd::prelude::*;

verus! {

/// A mnemonic phrase of the English wordlist. Every value of this type has
/// passed the wordlist check: its words, their number and the checksum.
#[derive(Debug)]
pub struct Mnemonic {
    text: String,
}

impl View for Mnemonic {
    type V = Seq<char>;

    /// The phrase, as it was supplied or sampled.
    closed spec fn view(&self) -> Seq<char> {
        self.text@
    }
}

impl Mnemonic {
    /// The phrase is one that the wordlist check accepts.
    #[verifier::type_invariant]
    pub open spec fn wf(&self) -> bool {
        phrase_accepted(self@)
    }

    /// The phrase.
    pub fn phrase(&self) -> (text: &str)
        ensures
            text@ == self@,
            phrase_accepted(text@),
    {
        proof {
            use_type_invariant(self);
        }
        self.text.as_str()
    }
}

/// The 64-byte seed of a mnemonic and a passphrase.
#[derive(Debug)]
pub struct Seed {
    bytes: Vec<u8>,
}

impl View for Seed {
    type V = Seq<u8>;

    /// The seed's bytes.
    closed spec fn view(&self) -> Seq<u8> {
        self.bytes@
    }
}

impl Seed {
    /// A seed has 64 bytes.
    #[verifier::type_invariant]
    pub open spec fn wf(&self) -> bool {
        self@.len() == 64
    }

    /// The seed's bytes.
    pub fn as_bytes(&self) -> (bytes: &[u8])
        ensures
            bytes@ == self@,
            bytes@.len() == 64,
    {
        proof {
            use_type_invariant(self);
        }
        self.bytes.as_slice()
    }
}

/// Whether a word begins at position `i` of `text`: there is a character
/// other than a space, at the start of the text or behind a space.
pub open spec fn word_begins_at(text: Seq<char>, i: int) -> bool {
    0 <= i < text.len() && text[i] != ' ' && (i == 0 || text[i - 1] == ' ')
}

/// The number of words of `text` that begin before position `end`.
pub open spec fn words_before(text: Seq<char>, end: int) -> nat
    decreases end,
{
    if end <= 0 {
        0
    } else if word_begins_at(text, end - 1) {
        words_before(text, end - 1) + 1
    } else {
        words_before(text, end - 1)
    }
}

/// The number of words of `text`, where spaces part the words.
pub open spec fn word_count(text: Seq<char>) -> nat {
    words_before(text, text.len() as int)
}

/// The number of words that a freshly sampled mnemonic has.
pub const FRESH_WORDS: usize = 24;

/// Checks `phrase` against the English wordlist: each word, the number of
/// words and the checksum. An accepted phrase is kept as it was written; a
/// rejected one gives `InvalidMnemonic` with the wordlist library's reason.
pub fn parse_mnemonic(phrase: &str) -> (res: Result<Mnemonic, KeyError>)
    ensures
        match res {
            Ok(mnemonic) => phrase_accepted(phrase@) && mnemonic@ == phrase@ && mnemonic.wf(),
            Err(KeyError::InvalidMnemonic { reason }) => phrase_fault_text(phrase@) == Some(
                reason@,
            ),
            Err(_) => false,
        },
{
    match phrase_fault(phrase) {
        None => Ok(Mnemonic { text: phrase.to_owned() }),
        Some(reason) => Err(KeyError::InvalidMnemonic { reason }),
    }
}

/// Samples a fresh mnemonic of 24 words from the system's secure random
/// source: 256 random bits and their checksum, written in words of the list.
pub fn generate_mnemonic() -> (mnemonic: Mnemonic)
    ensures
        mnemonic.wf(),
        word_count(mnemonic@) == FRESH_WORDS,
{
    Mnemonic { text: random_phrase() }
}

/// The seed of `mnemonic` and `passphrase`: the key-stretching function of
/// BIP-39 on the phrase, salted with the word "mnemonic" and the passphrase.
/// The result depends on the phrase and the passphrase alone.
pub fn derive_seed(mnemonic: &Mnemonic, passphrase: &str) -> (seed: Seed)
    ensures
        seed@ == seed_bytes(mnemonic@, passphrase@),
        seed.wf(),
{
    let res = phrase_seed(mnemonic.phrase(), passphrase);
    Seed { bytes: res.unwrap() }
}

} // verus!
