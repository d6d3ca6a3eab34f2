//! From a seed to a keypair: directly, or along a hierarchical path.

use crate::error::KeyError;
use crate::keypair::{checked_keypair, Keypair};
use crate::scheme::{
    consistent_keypair,
    derived_keypair,
    derived_keypair_bytes,
    public_key_of,
    seed_keypair_bytes,
};
use vstd::prelude::*;

verus! {

/// The purpose index of BIP-44 paths.
pub const PURPOSE: u32 = 44;

/// The coin type registered for Solana.
pub const COIN_TYPE: u32 = 501;

/// A hardened BIP-44 path for Solana: `44'/501'`, then an account index, then
/// a change index. A path without an account index has no change index.
#[derive(Debug, Clone, Copy)]
pub struct DerivationPath {
    account: Option<u32>,
    change: Option<u32>,
}

impl DerivationPath {
    /// A change index comes only after an account index.
    #[verifier::type_invariant]
    pub open spec fn wf(&self) -> bool {
        self.account_index() is None ==> self.change_index() is None
    }

    /// The account index, where the path has one.
    pub closed spec fn account_index(&self) -> Option<u32> {
        self.account
    }

    /// The change index, where the path has one.
    pub closed spec fn change_index(&self) -> Option<u32> {
        self.change
    }

    /// The indexes of the path in order, each of them hardened.
    pub open spec fn indexes(&self) -> Seq<u32> {
        let head = seq![PURPOSE, COIN_TYPE];
        match (self.account_index(), self.change_index()) {
            (Some(account), Some(change)) => head.push(account).push(change),
            (Some(account), None) => head.push(account),
            (None, _) => head,
        }
    }

    /// The path `44'/501'/account'/change'`. Without an account index the
    /// change index is dropped.
    pub fn new_bip44(account: Option<u32>, change: Option<u32>) -> (path: DerivationPath)
        ensures
            path.wf(),
            path.account_index() == account,
            path.change_index() == (if account is Some {
                change
            } else {
                None
            }),
    {
        match account {
            Some(_) => DerivationPath { account, change },
            None => DerivationPath { account: None, change: None },
        }
    }

    /// The path that keypairs are recovered along: `44'/501'/0'/0'`.
    pub fn solana_default() -> (path: DerivationPath)
        ensures
            path.wf(),
            path.account_index() == Some(0u32),
            path.change_index() == Some(0u32),
            path.indexes() == seq![44u32, 501u32, 0u32, 0u32],
    {
        let path = DerivationPath::new_bip44(Some(0), Some(0));
        assert(path.indexes() =~= seq![44u32, 501u32, 0u32, 0u32]);
        path
    }

    /// The indexes of the path in order.
    pub fn path(&self) -> (indexes: Vec<u32>)
        ensures
            indexes@ == self.indexes(),
    {
        proof {
            use_type_invariant(self);
        }
        let mut indexes: Vec<u32> = Vec::new();
        indexes.push(PURPOSE);
        indexes.push(COIN_TYPE);
        if let Some(account) = self.account {
            indexes.push(account);
            if let Some(change) = self.change {
                indexes.push(change);
            }
        }
        assert(indexes@ =~= self.indexes());
        indexes
    }
}

/// What `direct_keypair_from_seed` makes of a seed that is long enough: its
/// first 32 bytes as the secret key, followed by their public key.
pub open spec fn direct_keypair(seed: Seq<u8>) -> Seq<u8> {
    seed.subrange(0, 32) + public_key_of(seed.subrange(0, 32))
}

/// What `hierarchical_keypair_from_seed` makes of a seed and a path: the
/// keypair that derivation gives where it gives a consistent one.
pub open spec fn hierarchical_keypair(seed: Seq<u8>, path: DerivationPath) -> Option<Seq<u8>> {
    checked_keypair(derived_keypair(seed, path.account_index(), path.change_index()))
}

/// The keypair whose secret key is the first 32 bytes of `seed`. A seed under
/// 32 bytes gives `KeyDerivationError`, and no other seed fails.
pub fn direct_keypair_from_seed(seed: &[u8]) -> (res: Result<Keypair, KeyError>)
    ensures
        match res {
            Ok(keypair) => seed@.len() >= 32 && keypair@ == direct_keypair(seed@) && keypair.wf(),
            Err(error) => seed@.len() < 32 && error is KeyDerivationError,
        },
{
    match seed_keypair_bytes(seed) {
        Some(bytes) => {
            proof {
                let secret = seed@.subrange(0, 32);
                assert(bytes@.len() == 64);
                assert(bytes@.subrange(0, 32) =~= secret);
                assert(bytes@.subrange(32, 64) =~= public_key_of(secret));
            }
            Ok(Keypair::from_consistent(bytes))
        },
        None => Err(KeyError::KeyDerivationError),
    }
}

/// Accepts what hierarchical derivation gave: a consistent keypair is
/// returned, anything else is `KeyDerivationError`.
pub fn keypair_from_derived(derived: Option<[u8; 64]>) -> (res: Result<Keypair, KeyError>)
    ensures
        match res {
            Ok(keypair) => derived matches Some(bytes) && checked_keypair(Some(bytes@)) == Some(
                keypair@,
            ) && keypair.wf(),
            Err(error) => (derived matches Some(bytes) ==> checked_keypair(Some(bytes@)) is None)
                && error is KeyDerivationError,
        },
{
    match derived {
        Some(bytes) => match Keypair::from_bytes(bytes.as_slice()) {
            Some(keypair) => Ok(keypair),
            None => Err(KeyError::KeyDerivationError),
        },
        None => Err(KeyError::KeyDerivationError),
    }
}

/// The child keypair of `seed` along `path`, by hardened derivation at every
/// level. The result depends on the seed and the path alone. What derivation
/// gives is checked for consistency before it is returned.
pub fn hierarchical_keypair_from_seed(seed: &[u8], path: &DerivationPath) -> (res: Result<
    Keypair,
    KeyError,
>)
    ensures
        match res {
            Ok(keypair) => hierarchical_keypair(seed@, *path) == Some(keypair@) && keypair.wf(),
            Err(error) => hierarchical_keypair(seed@, *path) is None && error
                is KeyDerivationError,
        },
{
    keypair_from_derived(derived_keypair_bytes(seed, path.account, path.change))
}

} // verus!
