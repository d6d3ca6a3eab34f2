//! Ed25519 key derivation, as the Solana SDK offers it.
//!
//! Nothing here is proved. Each function below makes one call into the SDK,
//! and its contract says what the SDK's source shows of that call.

use vstd::prelude::*;

verus! {

/// The 32-byte Ed25519 public key that belongs to the 32-byte secret key
/// `secret`: what `ed25519_dalek::PublicKey::from(&SecretKey)` computes, which
/// the SDK calls in `keypair_from_seed` and in `Keypair::from_bytes`.
pub uninterp spec fn public_key_of(secret: Seq<u8>) -> Seq<u8>;

/// The raw bytes of the keypair that the SDK derives from `seed` along the
/// path `44'/501'`, extended by `account'` and then `change'` where they are
/// given, or `None` where that derivation fails.
pub uninterp spec fn derived_keypair(
    seed: Seq<u8>,
    account: Option<u32>,
    change: Option<u32>,
) -> Option<Seq<u8>>;

/// `bytes` is a keypair: 32 bytes of secret key, then the public key that
/// belongs to them.
pub open spec fn consistent_keypair(bytes: Seq<u8>) -> bool {
    &&& bytes.len() == 64
    &&& bytes.subrange(32, 64) == public_key_of(bytes.subrange(0, 32))
}

/// Calls `solana_sdk::signature::keypair_from_seed` and takes the keypair's
/// bytes. Assumed, as the SDK's source has it: a seed under 32 bytes is
/// refused; of a longer one the first 32 bytes become the secret key, and the
/// public key is computed from them.
#[verifier::external_body]
pub(crate) fn seed_keypair_bytes(seed: &[u8]) -> (res: Option<[u8; 64]>)
    ensures
        res is Some <==> seed@.len() >= 32,
        res matches Some(bytes) ==> bytes@ == seed@.subrange(0, 32) + public_key_of(
            seed@.subrange(0, 32),
        ),
{
    match solana_sdk::signature::keypair_from_seed(seed) {
        Ok(keypair) => Some(keypair.to_bytes()),
        Err(_) => None,
    }
}

/// Calls `solana_sdk::signature::Keypair::from_bytes` and takes the keypair's
/// bytes back. Assumed, as the SDK's source has it: the call succeeds exactly
/// on 64 bytes whose second half is the public key of the first half, and the
/// keypair it builds has the bytes it was given.
#[verifier::external_body]
pub(crate) fn checked_keypair_bytes(bytes: &[u8]) -> (res: Option<[u8; 64]>)
    ensures
        res is Some <==> consistent_keypair(bytes@),
        res matches Some(checked) ==> checked@ == bytes@,
{
    match solana_sdk::signature::Keypair::from_bytes(bytes) {
        Ok(keypair) => Some(keypair.to_bytes()),
        Err(_) => None,
    }
}

/// Calls `solana_sdk::signature::keypair_from_seed_and_derivation_path` with
/// the path that `DerivationPath::new_bip44(account, change)` builds, and
/// takes the keypair's bytes. Assumed: the outcome depends on the three
/// arguments alone.
#[verifier::external_body]
pub(crate) fn derived_keypair_bytes(seed: &[u8], account: Option<u32>, change: Option<u32>) -> (res:
    Option<[u8; 64]>)
    ensures
        match res {
            Some(bytes) => derived_keypair(seed@, account, change) == Some(bytes@),
            None => derived_keypair(seed@, account, change) is None,
        },
{
    let path = solana_sdk::derivation_path::DerivationPath::new_bip44(account, change);
    match solana_sdk::signature::keypair_from_seed_and_derivation_path(seed, Some(path)) {
        Ok(keypair) => Some(keypair.to_bytes()),
        Err(_) => None,
    }
}

/// Calls `solana_sdk::signature::Keypair::new` and writes the new keypair's
/// public key as the SDK displays it. The keypair is random: nothing is
/// assumed of the text.
#[verifier::external_body]
pub(crate) fn throwaway_pubkey_text() -> String {
    solana_sdk::signer::Signer::pubkey(&solana_sdk::signature::Keypair::new()).to_string()
}

} // verus!
