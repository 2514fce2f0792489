use vstd::arithmetic::div_mod::lemma_div_by_multiple;
use vstd::arithmetic::div_mod::lemma_div_is_ordered;
use vstd::arithmetic::div_mod::lemma_div_pos_is_pos;
use vstd::arithmetic::div_mod::lemma_fundamental_div_mod;
use vstd::arithmetic::div_mod::lemma_mod_bound;
use vstd::arithmetic::mul::lemma_mul_inequality;
use vstd::arithmetic::mul::lemma_mul_is_commutative;
use vstd::arithmetic::mul::lemma_mul_nonnegative;
use vstd::arithmetic::mul::lemma_mul_upper_bound;
use vstd::prelude::*;

use crate::errors::VaultError;

verus! {

/// Shares minted for depositing `amount` of the asset against a pool that
/// holds `v` asset units with `s` shares outstanding: 1:1 while either side
/// of the pool is empty (the bootstrap peg), otherwise
/// `floor(amount * s / v)` — truncation favours the existing holders.
pub open spec fn shares_out(v: u64, s: u64, amount: u64) -> int {
    if v == 0 || s == 0 {
        amount as int
    } else {
        (amount * s) / (v as int)
    }
}

/// Asset units paid for redeeming `amount` shares against the pre-burn pool
/// snapshot `(v, s)`: `amount` itself while either side is empty, otherwise
/// `floor(amount * v / s)` — truncation favours the remaining holders.
pub open spec fn assets_out(v: u64, s: u64, amount: u64) -> int {
    if v == 0 || s == 0 {
        amount as int
    } else {
        (amount * v) / (s as int)
    }
}

/// Prices a deposit. The product is taken in a wide intermediate type, so
/// the only failure is the proportional share count not fitting the native
/// integer width.
pub fn shares_to_mint(vault_balance: u64, share_supply: u64, in_amount: u64) -> (r: Result<
    u64,
    VaultError,
>)
    ensures
        r is Ok <==> shares_out(vault_balance, share_supply, in_amount) <= u64::MAX,
        r matches Ok(sh) ==> sh == shares_out(vault_balance, share_supply, in_amount),
        r is Err ==> r == Err::<u64, VaultError>(VaultError::Overflow),
{
    if vault_balance == 0 || share_supply == 0 {
        Ok(in_amount)
    } else {
        proof {
            lemma_mul_upper_bound(
                in_amount as int,
                u64::MAX as int,
                share_supply as int,
                u64::MAX as int,
            );
        }
        let wide: u128 = (in_amount as u128) * (share_supply as u128);
        let shares: u128 = wide / (vault_balance as u128);
        if shares > u64::MAX as u128 {
            Err(VaultError::Overflow)
        } else {
            Ok(shares as u64)
        }
    }
}

/// Prices a redemption against the pre-burn snapshot, with the same wide
/// intermediate product and the same narrowing check as the deposit side.
pub fn assets_to_redeem(vault_balance: u64, share_supply: u64, in_amount: u64) -> (r: Result<
    u64,
    VaultError,
>)
    ensures
        r is Ok <==> assets_out(vault_balance, share_supply, in_amount) <= u64::MAX,
        r matches Ok(a) ==> a == assets_out(vault_balance, share_supply, in_amount),
        r is Err ==> r == Err::<u64, VaultError>(VaultError::Overflow),
{
    if vault_balance == 0 || share_supply == 0 {
        Ok(in_amount)
    } else {
        proof {
            lemma_mul_upper_bound(
                in_amount as int,
                u64::MAX as int,
                vault_balance as int,
                u64::MAX as int,
            );
        }
        let wide: u128 = (in_amount as u128) * (vault_balance as u128);
        let assets: u128 = wide / (share_supply as u128);
        if assets > u64::MAX as u128 {
            Err(VaultError::Overflow)
        } else {
            Ok(assets as u64)
        }
    }
}

/// Neither pricing rule can produce a negative result.
pub proof fn lemma_pricing_nonneg(v: u64, s: u64, amount: u64)
    ensures
        shares_out(v, s, amount) >= 0,
        assets_out(v, s, amount) >= 0,
{
    if v != 0 && s != 0 {
        lemma_mul_nonnegative(amount as int, s as int);
        lemma_mul_nonnegative(amount as int, v as int);
        lemma_div_pos_is_pos(amount * s, v as int);
        lemma_div_pos_is_pos(amount * v, s as int);
    }
}

/// A truncating division times its divisor stays at or below the dividend.
pub proof fn lemma_div_mul_le(x: int, d: int)
    requires
        0 <= x,
        0 < d,
    ensures
        d * (x / d) <= x,
{
    lemma_fundamental_div_mod(x, d);
    lemma_mod_bound(x, d);
}

/// Any `t` whose product with the divisor covers the dividend bounds the
/// truncated quotient.
pub proof fn lemma_div_le_factor(x: int, t: int, d: int)
    requires
        0 <= x,
        0 <= t,
        0 < d,
        x <= t * d,
    ensures
        x / d <= t,
{
    lemma_div_is_ordered(x, t * d, d);
    lemma_div_by_multiple(t, d);
}

/// On a populated pool, the minted shares scaled by the vault balance never
/// exceed the deposit scaled by the supply: the depositor's claim is at most
/// the exact proportional value.
pub proof fn lemma_shares_out_scaled(v: u64, s: u64, amount: u64)
    requires
        v > 0,
        s > 0,
    ensures
        v * shares_out(v, s, amount) <= amount * s,
{
    lemma_div_mul_le(amount * s, v as int);
}

/// On a populated pool, the payout scaled by the supply never exceeds the
/// redeemed shares scaled by the vault balance.
pub proof fn lemma_assets_out_scaled(v: u64, s: u64, amount: u64)
    requires
        v > 0,
        s > 0,
    ensures
        s * assets_out(v, s, amount) <= amount * v,
{
    lemma_div_mul_le(amount * v, s as int);
}

/// Redeeming no more than the whole supply of a populated pool cannot pay
/// out more than the whole vault.
pub proof fn lemma_assets_out_le_vault(v: u64, s: u64, amount: u64)
    requires
        v > 0,
        s > 0,
        amount <= s,
    ensures
        assets_out(v, s, amount) <= v,
{
    lemma_mul_inequality(amount as int, s as int, v as int);
    lemma_mul_is_commutative(s as int, v as int);
    lemma_div_le_factor(amount * v, v as int, s as int);
}

/// Round trip: redeeming exactly the shares a deposit minted, against the
/// post-deposit pool, never pays back more than the deposit. The one state
/// this does not cover is a vault holding assets while no share circulates
/// (`v > 0, s == 0`): there the bootstrap peg hands the whole pre-existing
/// balance to the first depositor.
pub proof fn lemma_round_trip_payout(v: u64, s: u64, amount: u64, sh: u64, v1: u64, s1: u64)
    requires
        sh == shares_out(v, s, amount),
        v1 == v + amount,
        s1 == s + sh,
        s == 0 ==> v == 0,
    ensures
        assets_out(v1, s1, sh) <= amount,
{
    if v1 == 0 || s1 == 0 {
        // An empty post-deposit side forces a zero deposit and zero shares.
        assert(assets_out(v1, s1, sh) == sh);
    } else if v == 0 {
        // Bootstrap deposit: sh == amount and the payout divides by s1 >= amount.
        assert(amount * amount <= amount * (s + amount)) by (nonlinear_arith);
        lemma_div_le_factor(sh * v1, amount as int, s1 as int);
    } else {
        // Populated pool: v * sh <= amount * s carries through the deposit.
        lemma_shares_out_scaled(v, s, amount);
        assert(sh * v1 <= amount * s1) by (nonlinear_arith)
            requires
                v * sh <= amount * s,
                v1 == v + amount,
                s1 == s + sh,
        ;
        lemma_div_le_factor(sh * v1, amount as int, s1 as int);
    }
}

/// A deposit never dilutes the holders: the post-deposit vault balance,
/// scaled by the old supply, covers the old balance scaled by the new
/// supply, so each pre-existing share is backed at least as well as before.
pub proof fn lemma_deposit_keeps_share_value(v: u64, s: u64, amount: u64, sh: u64)
    requires
        s > 0,
        sh == shares_out(v, s, amount),
    ensures
        (v + amount) * s >= v * (s + sh),
{
    if v == 0 {
        assert((v + amount) * s >= 0 && v * (s + sh) == 0) by (nonlinear_arith)
            requires
                v == 0,
        ;
    } else {
        lemma_shares_out_scaled(v, s, amount);
        assert((v + amount) * s >= v * (s + sh)) by (nonlinear_arith)
            requires
                v * sh <= amount * s,
        ;
    }
}

/// A redemption never dilutes the remaining holders: the vault keeps at
/// least the proportional value of every share left outstanding.
pub proof fn lemma_redeem_keeps_share_value(v: u64, s: u64, amount: u64, out: u64)
    requires
        s > 0,
        amount <= s,
        out == assets_out(v, s, amount),
        out <= v,
    ensures
        (v - out) * s >= v * (s - amount),
{
    if v == 0 {
        assert((v - out) * s >= 0 && v * (s - amount) == 0) by (nonlinear_arith)
            requires
                v == 0,
                out <= v,
        ;
    } else {
        lemma_assets_out_scaled(v, s, amount);
        assert((v - out) * s >= v * (s - amount)) by (nonlinear_arith)
            requires
                s * out <= amount * v,
                out <= v,
                amount <= s,
        ;
    }
}

} // verus!
