use vstd::prelude::*;

verus! {

/// Namespace salt of a derived address. Each vault keeps two: one for the
/// share issuer and its mint authority, one for the custody account and its
/// transfer authority.
#[derive(Clone, Copy, Debug, PartialEq, Eq, Structural)]
pub enum Salt {
    /// The "x-mint" namespace: the share issuer.
    XMint,
    /// The "stake-vault" namespace: the custody account.
    StakeVault,
}

/// An address computed deterministically from public inputs alone — a salt
/// and the asset identifier — so the host environment can verify the
/// derivation and grant signing capability without a stored private key.
/// Distinct `(salt, asset)` pairs give distinct addresses by construction.
#[derive(Clone, Copy, Debug, PartialEq, Eq, Structural)]
pub struct DerivedAddress {
    /// The namespace the address was derived under.
    pub salt: Salt,
    /// The identifier of the underlying asset.
    pub asset: u64,
}

/// The address bound to `(salt, asset)`.
pub open spec fn spec_derive_address(salt: Salt, asset: u64) -> DerivedAddress {
    DerivedAddress { salt, asset }
}

/// Derives the address bound to `(salt, asset)`; deterministic, so a second
/// derivation for the same pair lands on the same address.
pub fn derive_address(salt: Salt, asset: u64) -> (r: DerivedAddress)
    ensures
        r == spec_derive_address(salt, asset),
{
    DerivedAddress { salt, asset }
}

/// The pair of addresses a vault initialization creates for one asset.
#[derive(Clone, Copy, Debug, PartialEq, Eq, Structural)]
pub struct VaultAddresses {
    /// The share issuer, authority over its own minting.
    pub x_mint: DerivedAddress,
    /// The custody account, authority over its own outgoing transfers.
    pub stake_vault: DerivedAddress,
}

/// Both addresses of the vault for `asset`, a function of the asset alone.
pub open spec fn spec_vault_addresses(asset: u64) -> VaultAddresses {
    VaultAddresses {
        x_mint: spec_derive_address(Salt::XMint, asset),
        stake_vault: spec_derive_address(Salt::StakeVault, asset),
    }
}

/// Derives both vault addresses for `asset`. Any two calls for the same
/// asset return the same pair.
pub fn vault_addresses(asset: u64) -> (r: VaultAddresses)
    ensures
        r == spec_vault_addresses(asset),
{
    VaultAddresses {
        x_mint: derive_address(Salt::XMint, asset),
        stake_vault: derive_address(Salt::StakeVault, asset),
    }
}

/// Derivation is collision-free: distinct `(salt, asset)` pairs can never
/// land on the same address, so no party can substitute an alternate vault
/// or issuer for an asset at call time.
pub proof fn lemma_derivation_collision_free(s1: Salt, a1: u64, s2: Salt, a2: u64)
    requires
        s1 != s2 || a1 != a2,
    ensures
        spec_derive_address(s1, a1) != spec_derive_address(s2, a2),
{
}

/// The four accounts of two vaults for two distinct assets are pairwise
/// distinct: at most one vault and one share issuer exist per asset.
pub proof fn lemma_vaults_disjoint(a1: u64, a2: u64)
    requires
        a1 != a2,
    ensures
        spec_vault_addresses(a1).x_mint != spec_vault_addresses(a2).x_mint,
        spec_vault_addresses(a1).stake_vault != spec_vault_addresses(a2).stake_vault,
        spec_vault_addresses(a1).x_mint != spec_vault_addresses(a1).stake_vault,
{
}

} // verus!
