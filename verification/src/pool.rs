use vstd::prelude::*;

use crate::errors::VaultError;
use crate::math::assets_out;
use crate::math::assets_to_redeem;
use crate::math::shares_out;
use crate::math::shares_to_mint;

verus! {

/// One asset's pooled state on the external ledger: the custody account's
/// balance and the share issuer's total supply. The supply is the sole
/// accounting record of claims outstanding; both fields are mutated only by
/// the exchange engine.
#[derive(Clone, Copy, Debug, PartialEq, Eq, Structural)]
pub struct Pool {
    /// Identifier of the underlying asset; immutable for the vault's life.
    pub asset: u64,
    /// Decimal precision, set at initialization equal to the asset's own.
    pub decimals: u8,
    /// Balance of the custody account (`V`).
    pub vault_balance: u64,
    /// Total supply of the share issuer (`S`).
    pub share_supply: u64,
}

/// A staker's asset-side account: owned by the staker, supplied by the
/// caller, debited on stake and credited on unstake.
#[derive(Clone, Copy, Debug, PartialEq, Eq, Structural)]
pub struct AssetAccount {
    /// The registered owner, whose signature authorizes outgoing transfers.
    pub owner: u64,
    /// Units of the underlying asset held.
    pub balance: u64,
}

/// A staker's share-side account: its registered owner must be the staker
/// acting on it, validated on every operation.
#[derive(Clone, Copy, Debug, PartialEq, Eq, Structural)]
pub struct ShareAccount {
    /// The registered owner, whose signature authorizes burns.
    pub owner: u64,
    /// Shares held.
    pub balance: u64,
}

/// The tracked share account is one of the accounts whose balances sum to
/// the issuer's supply, so it can never hold more than the whole supply.
/// Every exchange operation preserves this.
pub open spec fn accounts_consistent(pool: Pool, shares: ShareAccount) -> bool {
    shares.balance <= pool.share_supply
}

/// What a successful deposit leaves behind, together with the shares minted.
#[derive(Clone, Copy, Debug, PartialEq, Eq, Structural)]
pub struct StakeOutcome {
    /// The pool after the deposit.
    pub pool: Pool,
    /// The staker's asset account after the transfer into custody.
    pub assets: AssetAccount,
    /// The staker's share account after the mint.
    pub shares: ShareAccount,
    /// Shares minted to the staker.
    pub minted: u64,
}

/// What a successful redemption leaves behind, together with the payout.
#[derive(Clone, Copy, Debug, PartialEq, Eq, Structural)]
pub struct UnstakeOutcome {
    /// The pool after the burn and the transfer out of custody.
    pub pool: Pool,
    /// The staker's asset account after the payout.
    pub assets: AssetAccount,
    /// The staker's share account after the burn.
    pub shares: ShareAccount,
    /// Asset units paid out to the staker.
    pub redeemed: u64,
}

/// The deposit transition. Validation runs before any effect; the first
/// failed check names the error and nothing mutates. On success the mint
/// and the transfer into custody happen as one atomic unit.
pub open spec fn stake_spec(
    pool: Pool,
    assets: AssetAccount,
    shares: ShareAccount,
    staker: u64,
    amount: u64,
) -> Result<StakeOutcome, VaultError> {
    let sh = shares_out(pool.vault_balance, pool.share_supply, amount);
    if assets.owner != staker || shares.owner != staker {
        Err(VaultError::AuthorizationFailure)
    } else if sh > u64::MAX {
        Err(VaultError::Overflow)
    } else if assets.balance < amount {
        Err(VaultError::InsufficientFunds)
    } else if pool.share_supply + sh > u64::MAX || pool.vault_balance + amount > u64::MAX {
        Err(VaultError::Overflow)
    } else {
        Ok(
            StakeOutcome {
                pool: Pool {
                    asset: pool.asset,
                    decimals: pool.decimals,
                    vault_balance: (pool.vault_balance + amount) as u64,
                    share_supply: (pool.share_supply + sh) as u64,
                },
                assets: AssetAccount {
                    owner: assets.owner,
                    balance: (assets.balance - amount) as u64,
                },
                shares: ShareAccount {
                    owner: shares.owner,
                    balance: (shares.balance + sh) as u64,
                },
                minted: sh as u64,
            },
        )
    }
}

/// The redemption transition. The payout is priced against the pre-burn
/// snapshot — the supply still counting the shares being redeemed — and the
/// burn and the transfer out of custody happen as one atomic unit.
pub open spec fn unstake_spec(
    pool: Pool,
    assets: AssetAccount,
    shares: ShareAccount,
    staker: u64,
    amount: u64,
) -> Result<UnstakeOutcome, VaultError> {
    let out = assets_out(pool.vault_balance, pool.share_supply, amount);
    if assets.owner != staker || shares.owner != staker {
        Err(VaultError::AuthorizationFailure)
    } else if shares.balance < amount {
        Err(VaultError::InsufficientShares)
    } else if out > u64::MAX {
        Err(VaultError::Overflow)
    } else if pool.vault_balance < out {
        Err(VaultError::InsufficientFunds)
    } else if assets.balance + out > u64::MAX {
        Err(VaultError::Overflow)
    } else {
        Ok(
            UnstakeOutcome {
                pool: Pool {
                    asset: pool.asset,
                    decimals: pool.decimals,
                    vault_balance: (pool.vault_balance - out) as u64,
                    share_supply: (pool.share_supply - amount) as u64,
                },
                assets: AssetAccount {
                    owner: assets.owner,
                    balance: (assets.balance + out) as u64,
                },
                shares: ShareAccount {
                    owner: shares.owner,
                    balance: (shares.balance - amount) as u64,
                },
                redeemed: out as u64,
            },
        )
    }
}

/// Deposits `amount` of the asset: mints the proportional shares to the
/// staker's share account and moves the deposit into custody, exactly as
/// the deposit transition says — on any error every balance is untouched.
pub fn stake_pool(
    pool: &mut Pool,
    assets: &mut AssetAccount,
    shares: &mut ShareAccount,
    staker: u64,
    amount: u64,
) -> (r: Result<u64, VaultError>)
    requires
        accounts_consistent(*old(pool), *old(shares)),
    ensures
        accounts_consistent(*final(pool), *final(shares)),
        ({
            let res = stake_spec(*old(pool), *old(assets), *old(shares), staker, amount);
            match res {
                Ok(o) => r == Ok::<u64, VaultError>(o.minted) && *final(pool) == o.pool
                    && *final(assets) == o.assets && *final(shares) == o.shares,
                Err(e) => r == Err::<u64, VaultError>(e) && *final(pool) == *old(pool)
                    && *final(assets) == *old(assets) && *final(shares) == *old(shares),
            }
        }),
{
    if assets.owner != staker || shares.owner != staker {
        return Err(VaultError::AuthorizationFailure);
    }
    let sh = match shares_to_mint(pool.vault_balance, pool.share_supply, amount) {
        Ok(sh) => sh,
        Err(e) => {
            return Err(e);
        },
    };
    if assets.balance < amount {
        return Err(VaultError::InsufficientFunds);
    }
    if pool.share_supply > u64::MAX - sh || pool.vault_balance > u64::MAX - amount {
        return Err(VaultError::Overflow);
    }
    pool.vault_balance = pool.vault_balance + amount;
    pool.share_supply = pool.share_supply + sh;
    assets.balance = assets.balance - amount;
    shares.balance = shares.balance + sh;
    Ok(sh)
}

/// Redeems `amount` shares: burns them from the staker's share account and
/// pays the proportional asset amount out of custody, exactly as the
/// redemption transition says — on any error every balance is untouched.
pub fn unstake_pool(
    pool: &mut Pool,
    assets: &mut AssetAccount,
    shares: &mut ShareAccount,
    staker: u64,
    amount: u64,
) -> (r: Result<u64, VaultError>)
    requires
        accounts_consistent(*old(pool), *old(shares)),
    ensures
        accounts_consistent(*final(pool), *final(shares)),
        ({
            let res = unstake_spec(*old(pool), *old(assets), *old(shares), staker, amount);
            match res {
                Ok(o) => r == Ok::<u64, VaultError>(o.redeemed) && *final(pool) == o.pool
                    && *final(assets) == o.assets && *final(shares) == o.shares,
                Err(e) => r == Err::<u64, VaultError>(e) && *final(pool) == *old(pool)
                    && *final(assets) == *old(assets) && *final(shares) == *old(shares),
            }
        }),
{
    if assets.owner != staker || shares.owner != staker {
        return Err(VaultError::AuthorizationFailure);
    }
    if shares.balance < amount {
        return Err(VaultError::InsufficientShares);
    }
    let out = match assets_to_redeem(pool.vault_balance, pool.share_supply, amount) {
        Ok(out) => out,
        Err(e) => {
            return Err(e);
        },
    };
    if pool.vault_balance < out {
        return Err(VaultError::InsufficientFunds);
    }
    if assets.balance > u64::MAX - out {
        return Err(VaultError::Overflow);
    }
    pool.vault_balance = pool.vault_balance - out;
    pool.share_supply = pool.share_supply - amount;
    assets.balance = assets.balance + out;
    shares.balance = shares.balance - amount;
    Ok(out)
}

} // verus!
