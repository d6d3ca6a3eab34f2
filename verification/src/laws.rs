//! What holds of the library as a whole, proved from the contracts and
//! definitions of the other modules.

use crate::account::{is_array_text, parsed_keypair};
use crate::codec::{base58_bytes, json_bytes};
use crate::derivation::{hierarchical_keypair, DerivationPath};
use crate::keypair::{checked_keypair, Keypair};
use crate::mnemonic::Mnemonic;
use crate::recovery::mnemonic_keypair;
use crate::scheme::{consistent_keypair, public_key_of};
use crate::text::{byte_array_text, lemma_byte_array_text_is_injective};
use crate::wordlist::seed_bytes;
use vstd::prelude::*;

verus! {

/// Consistency: the public half of every keypair is the public key that the
/// signature scheme computes from the secret half.
pub proof fn lemma_public_key_belongs_to_secret(keypair: Keypair)
    requires
        keypair.wf(),
    ensures
        keypair@.len() == 64,
        keypair.secret().len() == 32,
        keypair.public().len() == 32,
        keypair.public() == public_key_of(keypair.secret()),
        keypair@ == keypair.secret() + keypair.public(),
{
    assert(keypair@ =~= keypair.secret() + keypair.public());
}

/// Consistency of every source: whatever text is parsed, whatever seed and
/// path a keypair is derived from and whatever phrase it is recovered from,
/// the bytes that come out are a consistent keypair.
pub proof fn lemma_every_source_gives_consistent_keypairs(
    text: Seq<char>,
    seed: Seq<u8>,
    path: DerivationPath,
    phrase: Seq<char>,
)
    ensures
        parsed_keypair(text) matches Some(bytes) ==> consistent_keypair(bytes),
        hierarchical_keypair(seed, path) matches Some(bytes) ==> consistent_keypair(bytes),
        mnemonic_keypair(phrase) matches Some(bytes) ==> consistent_keypair(bytes),
{
}

/// Determinism of seeds: two mnemonics with the same phrase give, with the
/// same passphrase, the same seed.
pub proof fn lemma_seed_is_deterministic(
    first: Mnemonic,
    second: Mnemonic,
    first_passphrase: Seq<char>,
    second_passphrase: Seq<char>,
)
    requires
        first@ == second@,
        first_passphrase == second_passphrase,
    ensures
        seed_bytes(first@, first_passphrase) == seed_bytes(second@, second_passphrase),
{
}

/// A path is determined by its indexes: two paths with the same indexes have
/// the same account index and the same change index.
pub proof fn lemma_path_is_its_indexes(first: DerivationPath, second: DerivationPath)
    requires
        first.wf(),
        second.wf(),
        first.indexes() == second.indexes(),
    ensures
        first.account_index() == second.account_index(),
        first.change_index() == second.change_index(),
{
    let a = first.indexes();
    let b = second.indexes();
    assert(a.len() == b.len());
    if a.len() > 2 {
        assert(a[2] == b[2]);
    }
    if a.len() > 3 {
        assert(a[3] == b[3]);
    }
}

/// Determinism of hierarchical derivation: the same seed along paths with the
/// same indexes gives the same keypair, or fails for both.
pub proof fn lemma_hierarchical_is_deterministic(
    first_seed: Seq<u8>,
    first_path: DerivationPath,
    second_seed: Seq<u8>,
    second_path: DerivationPath,
)
    requires
        first_path.wf(),
        second_path.wf(),
        first_seed == second_seed,
        first_path.indexes() == second_path.indexes(),
    ensures
        hierarchical_keypair(first_seed, first_path) == hierarchical_keypair(
            second_seed,
            second_path,
        ),
{
    lemma_path_is_its_indexes(first_path, second_path);
}

/// Format selection: what text that begins with a bracket stands for is
/// decided by the JSON reader alone, and what any other text stands for by the
/// base-58 reader alone.
pub proof fn lemma_first_character_selects_format(text: Seq<char>)
    ensures
        is_array_text(text) ==> parsed_keypair(text) == checked_keypair(json_bytes(text)),
        !is_array_text(text) ==> parsed_keypair(text) == checked_keypair(base58_bytes(text)),
{
}

/// Byte-array text is always taken for byte-array text: it begins with a
/// bracket, whatever the bytes.
pub proof fn lemma_array_text_begins_with_bracket(bytes: Seq<u8>)
    ensures
        is_array_text(byte_array_text(bytes)),
{
    assert(byte_array_text(bytes)[0] == '[');
}

/// Byte-array text loses nothing: two keypairs with the same byte-array text
/// have the same bytes.
pub proof fn lemma_array_text_tells_keypairs_apart(first: Keypair, second: Keypair)
    requires
        byte_array_text(first@) == byte_array_text(second@),
    ensures
        first@ == second@,
{
    lemma_byte_array_text_is_injective(first@, second@);
}

} // verus!
