use vstd::arithmetic::div_mod::lemma_div_of0;
use vstd::prelude::*;

use crate::errors::VaultError;
use crate::math::assets_out;
use crate::math::lemma_assets_out_le_vault;
use crate::math::lemma_deposit_keeps_share_value;
use crate::math::lemma_pricing_nonneg;
use crate::math::lemma_redeem_keeps_share_value;
use crate::math::lemma_round_trip_payout;
use crate::math::shares_out;
use crate::pool::accounts_consistent;
use crate::pool::stake_spec;
use crate::pool::unstake_spec;
use crate::pool::AssetAccount;
use crate::pool::Pool;
use crate::pool::ShareAccount;
use crate::pool::StakeOutcome;
use crate::pool::UnstakeOutcome;

verus! {

/// Bootstrap peg: a deposit of `x` into an empty vault mints exactly `x`
/// shares and leaves vault balance and share supply both equal to `x` — the
/// first depositors set the initial 1:1 price.
pub proof fn lemma_bootstrap_peg(
    pool: Pool,
    assets: AssetAccount,
    shares: ShareAccount,
    staker: u64,
    amount: u64,
)
    requires
        pool.vault_balance == 0,
        pool.share_supply == 0,
        assets.owner == staker,
        shares.owner == staker,
        amount <= assets.balance,
    ensures
        ({
            let res = stake_spec(pool, assets, shares, staker, amount);
            &&& res is Ok
            &&& res->Ok_0.minted == amount
            &&& res->Ok_0.pool.vault_balance == amount
            &&& res->Ok_0.pool.share_supply == amount
        }),
{
}

/// Proportional pricing: against a populated pool, a deposit of `d` mints
/// `floor(d * S / V)` shares and moves the pool to `(V + d, S + minted)`.
pub proof fn lemma_proportional_pricing(
    pool: Pool,
    assets: AssetAccount,
    shares: ShareAccount,
    staker: u64,
    amount: u64,
)
    requires
        pool.vault_balance > 0,
        pool.share_supply > 0,
        assets.owner == staker,
        shares.owner == staker,
        amount <= assets.balance,
        shares_out(pool.vault_balance, pool.share_supply, amount) <= u64::MAX,
        pool.share_supply + shares_out(pool.vault_balance, pool.share_supply, amount)
            <= u64::MAX,
        pool.vault_balance + amount <= u64::MAX,
    ensures
        ({
            let res = stake_spec(pool, assets, shares, staker, amount);
            &&& res is Ok
            &&& res->Ok_0.minted == (amount * pool.share_supply) / (pool.vault_balance as int)
            &&& res->Ok_0.pool.vault_balance == pool.vault_balance + amount
            &&& res->Ok_0.pool.share_supply == pool.share_supply + res->Ok_0.minted
        }),
{
    lemma_pricing_nonneg(pool.vault_balance, pool.share_supply, amount);
}

/// Round trip never favours the leaver: staking `d` and immediately
/// unstaking the shares it minted, with no other activity, succeeds and
/// pays back at most `d` of the asset — truncation always rounds against
/// the mover. The one state left out is a vault holding assets while no
/// share circulates (`V > 0, S == 0`), where the bootstrap peg hands the
/// pre-existing balance to the first depositor.
pub proof fn lemma_round_trip(
    pool: Pool,
    assets: AssetAccount,
    shares: ShareAccount,
    staker: u64,
    amount: u64,
)
    requires
        accounts_consistent(pool, shares),
        pool.share_supply == 0 ==> pool.vault_balance == 0,
        stake_spec(pool, assets, shares, staker, amount) is Ok,
    ensures
        ({
            let o = stake_spec(pool, assets, shares, staker, amount)->Ok_0;
            let back = unstake_spec(o.pool, o.assets, o.shares, staker, o.minted);
            &&& back is Ok
            &&& back->Ok_0.redeemed <= amount
        }),
{
    let v = pool.vault_balance;
    let s = pool.share_supply;
    lemma_pricing_nonneg(v, s, amount);
    let o = stake_spec(pool, assets, shares, staker, amount)->Ok_0;
    let v1 = o.pool.vault_balance;
    let s1 = o.pool.share_supply;
    let sh = o.minted;
    lemma_round_trip_payout(v, s, amount, sh, v1, s1);
    lemma_pricing_nonneg(v1, s1, sh);
    if v1 != 0 && s1 != 0 {
        lemma_assets_out_le_vault(v1, s1, sh);
    }
}

/// No inflation, deposit side: a deposit never lowers the asset value
/// backing each share already outstanding — the new vault balance scaled by
/// the old supply covers the old balance scaled by the new supply, so no
/// staker's claimed proportion of the pool can grow beyond what they paid
/// in.
pub proof fn lemma_stake_no_dilution(
    pool: Pool,
    assets: AssetAccount,
    shares: ShareAccount,
    staker: u64,
    amount: u64,
)
    requires
        pool.share_supply > 0,
        stake_spec(pool, assets, shares, staker, amount) is Ok,
    ensures
        ({
            let o = stake_spec(pool, assets, shares, staker, amount)->Ok_0;
            o.pool.vault_balance * pool.share_supply >= pool.vault_balance
                * o.pool.share_supply
        }),
{
    lemma_pricing_nonneg(pool.vault_balance, pool.share_supply, amount);
    let o = stake_spec(pool, assets, shares, staker, amount)->Ok_0;
    lemma_deposit_keeps_share_value(
        pool.vault_balance,
        pool.share_supply,
        amount,
        o.minted,
    );
}

/// No inflation, redemption side: a redemption never lowers the asset value
/// backing each share that stays outstanding.
pub proof fn lemma_unstake_no_dilution(
    pool: Pool,
    assets: AssetAccount,
    shares: ShareAccount,
    staker: u64,
    amount: u64,
)
    requires
        pool.share_supply > 0,
        accounts_consistent(pool, shares),
        unstake_spec(pool, assets, shares, staker, amount) is Ok,
    ensures
        ({
            let o = unstake_spec(pool, assets, shares, staker, amount)->Ok_0;
            o.pool.vault_balance * pool.share_supply >= pool.vault_balance
                * o.pool.share_supply
        }),
{
    lemma_pricing_nonneg(pool.vault_balance, pool.share_supply, amount);
    let o = unstake_spec(pool, assets, shares, staker, amount)->Ok_0;
    lemma_redeem_keeps_share_value(
        pool.vault_balance,
        pool.share_supply,
        amount,
        o.redeemed,
    );
}

/// Zero-amount no-op: staking zero succeeds, mints no share and moves no
/// balance.
pub proof fn lemma_stake_zero_noop(
    pool: Pool,
    assets: AssetAccount,
    shares: ShareAccount,
    staker: u64,
)
    requires
        assets.owner == staker,
        shares.owner == staker,
    ensures
        stake_spec(pool, assets, shares, staker, 0) == Ok::<StakeOutcome, VaultError>(
            (StakeOutcome { pool, assets, shares, minted: 0 }),
        ),
{
    if pool.vault_balance != 0 && pool.share_supply != 0 {
        lemma_div_of0(pool.vault_balance as int);
    }
    assert(shares_out(pool.vault_balance, pool.share_supply, 0) == 0);
}

/// Zero-amount no-op: unstaking zero succeeds, burns no share and moves no
/// balance.
pub proof fn lemma_unstake_zero_noop(
    pool: Pool,
    assets: AssetAccount,
    shares: ShareAccount,
    staker: u64,
)
    requires
        assets.owner == staker,
        shares.owner == staker,
    ensures
        unstake_spec(pool, assets, shares, staker, 0) == Ok::<UnstakeOutcome, VaultError>(
            (UnstakeOutcome { pool, assets, shares, redeemed: 0 }),
        ),
{
    if pool.vault_balance != 0 && pool.share_supply != 0 {
        lemma_div_of0(pool.share_supply as int);
    }
    assert(assets_out(pool.vault_balance, pool.share_supply, 0) == 0);
}

} // verus!
