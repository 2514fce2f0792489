//! Pooled-staking vault.
//!
//! Depositors lock a base asset into a shared custody account (the vault) and
//! receive a proportional claim token (the share token, issued by the x-mint).
//! Unstaking burns shares and pays back a proportional amount of the asset,
//! including any value accrued to the vault since the deposit.
//!
//! The modules below hold the share-issuance and redemption arithmetic, the
//! per-asset pool state transitions, the deterministic address derivation that
//! makes a vault unique per asset, and the registry of initialized vaults.
//! The transfer/mint/burn primitives of the underlying token systems are an
//! external ledger; the pool state here models the balances they keep.

pub mod addresses;
pub mod errors;
pub mod laws;
pub mod math;
pub mod pool;
pub mod system;
