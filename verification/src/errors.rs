use vstd::prelude::*;

verus! {

/// Failures of vault initialization and of the exchange engine.
///
/// Every operation aborts with no partial mutation: an error means the pool
/// and account states are exactly what they were before the call.
#[derive(Clone, Copy, Debug, PartialEq, Eq, Structural)]
pub enum VaultError {
    /// A vault and share issuer already exist for this asset; the second
    /// initialization targets the same derived addresses and is rejected.
    AlreadyInitialized,
    /// Stake or unstake was called for an asset whose vault was never
    /// initialized.
    VaultNotFound,
    /// The ratio arithmetic, or a ledger balance it would produce, exceeds
    /// the native integer width; never silently clamped or wrapped.
    Overflow,
    /// An asset balance is too small: the staker's account on stake, the
    /// vault's custody account on unstake.
    InsufficientFunds,
    /// The staker's share account holds fewer shares than the burn asks for.
    InsufficientShares,
    /// A supplied account is not owned by the staker.
    AuthorizationFailure,
}

} // verus!
