use xtoken_staking::addresses::vault_addresses;
use xtoken_staking::addresses::Salt;
use xtoken_staking::addresses::derive_address;
use xtoken_staking::errors::VaultError;
use xtoken_staking::math::assets_to_redeem;
use xtoken_staking::math::shares_to_mint;
use xtoken_staking::pool::stake_pool;
use xtoken_staking::pool::unstake_pool;
use xtoken_staking::pool::AssetAccount;
use xtoken_staking::pool::Pool;
use xtoken_staking::pool::ShareAccount;
use xtoken_staking::system::StakingSystem;

const ASSET: u64 = 5;
const STAKER: u64 = 7;

fn fresh_pool(vault_balance: u64, share_supply: u64) -> Pool {
    Pool { asset: ASSET, decimals: 6, vault_balance, share_supply }
}

#[test]
fn bootstrap_peg_mints_one_to_one() {
    let mut sys = StakingSystem::new();
    sys.initialize_x_mint(ASSET, 6, 1).unwrap();
    let mut assets = AssetAccount { owner: STAKER, balance: 100 };
    let mut shares = ShareAccount { owner: STAKER, balance: 0 };
    let minted = sys.stake(ASSET, STAKER, &mut assets, &mut shares, 42).unwrap();
    assert_eq!(minted, 42);
    let pool = sys.vault_state(ASSET).unwrap();
    assert_eq!(pool.vault_balance, 42);
    assert_eq!(pool.share_supply, 42);
    assert_eq!(assets.balance, 58);
    assert_eq!(shares.balance, 42);
}

#[test]
fn proportional_pricing_truncates_down() {
    let mut pool = fresh_pool(10, 30);
    let mut assets = AssetAccount { owner: STAKER, balance: 100 };
    let mut shares = ShareAccount { owner: STAKER, balance: 0 };
    let r = stake_pool(&mut pool, &mut assets, &mut shares, STAKER, 7);
    assert_eq!(r, Ok(21)); // floor(7 * 30 / 10)
    assert_eq!(pool.vault_balance, 17);
    assert_eq!(pool.share_supply, 51);
    assert_eq!(assets.balance, 93);
    assert_eq!(shares.balance, 21);
}

#[test]
fn pricing_rounds_against_the_depositor() {
    let mut pool = fresh_pool(3, 7);
    let mut assets = AssetAccount { owner: STAKER, balance: 100 };
    let mut shares = ShareAccount { owner: STAKER, balance: 0 };
    let r = stake_pool(&mut pool, &mut assets, &mut shares, STAKER, 10);
    // exact value would be 10 * 7 / 3 = 23.33..
    assert_eq!(r, Ok(23));
}

#[test]
fn round_trip_returns_at_most_the_deposit() {
    let mut pool = fresh_pool(3, 7);
    let mut assets = AssetAccount { owner: STAKER, balance: 100 };
    let mut shares = ShareAccount { owner: STAKER, balance: 0 };
    let minted = stake_pool(&mut pool, &mut assets, &mut shares, STAKER, 10).unwrap();
    assert_eq!(minted, 23);
    let back = unstake_pool(&mut pool, &mut assets, &mut shares, STAKER, minted).unwrap();
    // floor(23 * 13 / 30) = 9: strictly less, the remainder stays in the pool
    assert_eq!(back, 9);
    assert!(back <= 10);
    assert_eq!(assets.balance, 99);
    assert_eq!(shares.balance, 0);
}

#[test]
fn round_trip_is_exact_when_divisible() {
    let mut pool = fresh_pool(0, 0);
    let mut assets = AssetAccount { owner: STAKER, balance: 100 };
    let mut shares = ShareAccount { owner: STAKER, balance: 0 };
    let minted = stake_pool(&mut pool, &mut assets, &mut shares, STAKER, 25).unwrap();
    let back = unstake_pool(&mut pool, &mut assets, &mut shares, STAKER, minted).unwrap();
    assert_eq!(back, 25);
    assert_eq!(assets.balance, 100);
}

#[test]
fn three_stakers_hold_proportional_claims() {
    let mut sys = StakingSystem::new();
    sys.initialize_x_mint(ASSET, 6, 1).unwrap();
    let mut a1 = AssetAccount { owner: 1, balance: 100 };
    let mut s1 = ShareAccount { owner: 1, balance: 0 };
    let mut a2 = AssetAccount { owner: 2, balance: 200 };
    let mut s2 = ShareAccount { owner: 2, balance: 0 };
    let mut a3 = AssetAccount { owner: 3, balance: 300 };
    let mut s3 = ShareAccount { owner: 3, balance: 0 };
    let m1 = sys.stake(ASSET, 1, &mut a1, &mut s1, 100).unwrap();
    let m2 = sys.stake(ASSET, 2, &mut a2, &mut s2, 200).unwrap();
    let m3 = sys.stake(ASSET, 3, &mut a3, &mut s3, 300).unwrap();
    // shares stand in the deposited proportion 1 : 2 : 3
    assert_eq!((m1, m2, m3), (100, 200, 300));
    // redeeming everything pays out exactly the pool, never more
    let r3 = sys.unstake(ASSET, 3, &mut a3, &mut s3, m3).unwrap();
    let r2 = sys.unstake(ASSET, 2, &mut a2, &mut s2, m2).unwrap();
    let r1 = sys.unstake(ASSET, 1, &mut a1, &mut s1, m1).unwrap();
    assert_eq!(r1 + r2 + r3, 600);
    assert_eq!((a1.balance, a2.balance, a3.balance), (100, 200, 300));
    let pool = sys.vault_state(ASSET).unwrap();
    assert_eq!(pool.vault_balance, 0);
    assert_eq!(pool.share_supply, 0);
}

#[test]
fn overflowing_ratio_is_rejected_not_wrapped() {
    let mut pool = fresh_pool(1, u64::MAX);
    let mut assets = AssetAccount { owner: STAKER, balance: u64::MAX };
    let mut shares = ShareAccount { owner: STAKER, balance: 0 };
    let before = pool;
    let r = stake_pool(&mut pool, &mut assets, &mut shares, STAKER, u64::MAX);
    assert_eq!(r, Err(VaultError::Overflow));
    assert_eq!(pool, before);
    assert_eq!(assets.balance, u64::MAX);
    assert_eq!(shares.balance, 0);
}

#[test]
fn share_count_at_the_width_limit_still_fits() {
    // 2 * u64::MAX / 2 lands exactly on the widest representable count
    assert_eq!(shares_to_mint(2, 2, u64::MAX), Ok(u64::MAX));
    assert_eq!(shares_to_mint(2, 4, u64::MAX), Err(VaultError::Overflow));
}

#[test]
fn double_initialization_is_rejected() {
    let mut sys = StakingSystem::new();
    let first = sys.initialize_x_mint(ASSET, 6, 1).unwrap();
    let second = sys.initialize_x_mint(ASSET, 6, 1);
    assert_eq!(second, Err(VaultError::AlreadyInitialized));
    // the addresses are a function of the asset alone: both attempts target
    // the same pair
    assert_eq!(first, vault_addresses(ASSET));
    assert_eq!(vault_addresses(ASSET), vault_addresses(ASSET));
}

#[test]
fn derived_addresses_are_collision_free() {
    assert_ne!(derive_address(Salt::XMint, 1), derive_address(Salt::StakeVault, 1));
    assert_ne!(derive_address(Salt::XMint, 1), derive_address(Salt::XMint, 2));
    let a = vault_addresses(1);
    let b = vault_addresses(2);
    assert_ne!(a.x_mint, b.x_mint);
    assert_ne!(a.stake_vault, b.stake_vault);
}

#[test]
fn zero_stake_is_a_no_op() {
    let mut pool = fresh_pool(10, 30);
    let mut assets = AssetAccount { owner: STAKER, balance: 100 };
    let mut shares = ShareAccount { owner: STAKER, balance: 5 };
    let r = stake_pool(&mut pool, &mut assets, &mut shares, STAKER, 0);
    assert_eq!(r, Ok(0));
    assert_eq!(pool, fresh_pool(10, 30));
    assert_eq!(assets.balance, 100);
    assert_eq!(shares.balance, 5);
}

#[test]
fn zero_unstake_is_a_no_op() {
    let mut pool = fresh_pool(10, 30);
    let mut assets = AssetAccount { owner: STAKER, balance: 100 };
    let mut shares = ShareAccount { owner: STAKER, balance: 5 };
    let r = unstake_pool(&mut pool, &mut assets, &mut shares, STAKER, 0);
    assert_eq!(r, Ok(0));
    assert_eq!(pool, fresh_pool(10, 30));
    assert_eq!(assets.balance, 100);
    assert_eq!(shares.balance, 5);
}

#[test]
fn staking_before_initialization_fails() {
    let mut sys = StakingSystem::new();
    let mut assets = AssetAccount { owner: STAKER, balance: 100 };
    let mut shares = ShareAccount { owner: STAKER, balance: 0 };
    let r = sys.stake(ASSET, STAKER, &mut assets, &mut shares, 10);
    assert_eq!(r, Err(VaultError::VaultNotFound));
    let r = sys.unstake(ASSET, STAKER, &mut assets, &mut shares, 10);
    assert_eq!(r, Err(VaultError::VaultNotFound));
    assert!(sys.vault_state(ASSET).is_none());
}

#[test]
fn foreign_share_account_is_rejected() {
    let mut pool = fresh_pool(10, 30);
    let mut assets = AssetAccount { owner: STAKER, balance: 100 };
    let mut shares = ShareAccount { owner: 8, balance: 0 };
    let r = stake_pool(&mut pool, &mut assets, &mut shares, STAKER, 10);
    assert_eq!(r, Err(VaultError::AuthorizationFailure));
    let r = unstake_pool(&mut pool, &mut assets, &mut shares, STAKER, 0);
    assert_eq!(r, Err(VaultError::AuthorizationFailure));
    assert_eq!(pool, fresh_pool(10, 30));
}

#[test]
fn deposit_beyond_balance_fails() {
    let mut pool = fresh_pool(10, 30);
    let mut assets = AssetAccount { owner: STAKER, balance: 9 };
    let mut shares = ShareAccount { owner: STAKER, balance: 0 };
    let r = stake_pool(&mut pool, &mut assets, &mut shares, STAKER, 10);
    assert_eq!(r, Err(VaultError::InsufficientFunds));
    assert_eq!(pool, fresh_pool(10, 30));
    assert_eq!(assets.balance, 9);
}

#[test]
fn burn_beyond_share_balance_fails() {
    let mut pool = fresh_pool(10, 30);
    let mut assets = AssetAccount { owner: STAKER, balance: 100 };
    let mut shares = ShareAccount { owner: STAKER, balance: 3 };
    let r = unstake_pool(&mut pool, &mut assets, &mut shares, STAKER, 4);
    assert_eq!(r, Err(VaultError::InsufficientShares));
    assert_eq!(shares.balance, 3);
}

#[test]
fn empty_vault_cannot_pay_a_bootstrap_redemption() {
    // supply outstanding but no custody balance: the 1:1 bootstrap payout
    // cannot be covered and the ledger-side shortfall surfaces
    let mut pool = fresh_pool(0, 10);
    let mut assets = AssetAccount { owner: STAKER, balance: 100 };
    let mut shares = ShareAccount { owner: STAKER, balance: 10 };
    let r = unstake_pool(&mut pool, &mut assets, &mut shares, STAKER, 4);
    assert_eq!(r, Err(VaultError::InsufficientFunds));
    assert_eq!(pool, fresh_pool(0, 10));
}

#[test]
fn pricing_helpers_match_the_ratio() {
    assert_eq!(shares_to_mint(0, 0, 11), Ok(11));
    assert_eq!(shares_to_mint(10, 0, 11), Ok(11));
    assert_eq!(shares_to_mint(0, 10, 11), Ok(11));
    assert_eq!(shares_to_mint(10, 30, 7), Ok(21));
    assert_eq!(assets_to_redeem(13, 30, 23), Ok(9));
    assert_eq!(assets_to_redeem(0, 0, 11), Ok(11));
    assert_eq!(assets_to_redeem(30, 10, 3), Ok(9));
}

#[test]
fn vault_accrual_flows_to_holders() {
    // value accrues to the vault between deposit and withdrawal: the same
    // shares then redeem for more than was paid in
    let mut pool = fresh_pool(0, 0);
    let mut assets = AssetAccount { owner: STAKER, balance: 100 };
    let mut shares = ShareAccount { owner: STAKER, balance: 0 };
    let minted = stake_pool(&mut pool, &mut assets, &mut shares, STAKER, 50).unwrap();
    // accrual: the custody account's balance grows with no new shares
    pool.vault_balance += 30;
    let back = unstake_pool(&mut pool, &mut assets, &mut shares, STAKER, minted).unwrap();
    assert_eq!(back, 80);
    assert_eq!(pool.vault_balance, 0);
    assert_eq!(pool.share_supply, 0);
}
