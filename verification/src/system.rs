use vstd::prelude::*;

use crate::addresses::spec_vault_addresses;
use crate::addresses::vault_addresses;
use crate::addresses::VaultAddresses;
use crate::errors::VaultError;
use crate::pool::accounts_consistent;
use crate::pool::stake_pool;
use crate::pool::stake_spec;
use crate::pool::unstake_pool;
use crate::pool::unstake_spec;
use crate::pool::AssetAccount;
use crate::pool::Pool;
use crate::pool::ShareAccount;

verus! {

/// The registry of initialized vaults: one pool per asset, looked up by the
/// asset identifier. All balance state lives in the pools; the registry
/// itself only guarantees that each asset has at most one of them.
pub struct StakingSystem {
    pools: Vec<Pool>,
}

impl View for StakingSystem {
    type V = Seq<Pool>;

    closed spec fn view(&self) -> Seq<Pool> {
        self.pools@
    }
}

impl StakingSystem {
    /// Well-formed: no two pools serve the same asset.
    pub open spec fn wf(self) -> bool {
        forall|i: int, j: int|
            0 <= i < j < self@.len() ==> (#[trigger] self@[i]).asset != (
            #[trigger] self@[j]).asset
    }

    /// Whether a vault was initialized for `asset`.
    pub open spec fn has_pool(self, asset: u64) -> bool {
        exists|i: int| 0 <= i < self@.len() && (#[trigger] self@[i]).asset == asset
    }

    /// The position of the pool for `asset`; meaningful when one exists.
    pub open spec fn pool_index(self, asset: u64) -> int {
        choose|i: int| 0 <= i < self@.len() && (#[trigger] self@[i]).asset == asset
    }

    /// The pool for `asset`; meaningful when one exists.
    pub open spec fn pool_of(self, asset: u64) -> Pool {
        self@[self.pool_index(asset)]
    }

    /// An empty registry: no vault exists for any asset yet.
    pub fn new() -> (r: StakingSystem)
        ensures
            r.wf(),
            r@.len() == 0,
            forall|a: u64| !(#[trigger] r.has_pool(a)),
    {
        StakingSystem { pools: Vec::new() }
    }

    fn find_pool(&self, asset: u64) -> (r: Option<usize>)
        ensures
            match r {
                Some(i) => i < self@.len() && self@[i as int].asset == asset,
                None => !self.has_pool(asset),
            },
    {
        let n = self.pools.len();
        let mut k: usize = 0;
        while k < n
            invariant
                n == self@.len(),
                k <= n,
                forall|j: int| 0 <= j < k ==> (#[trigger] self@[j]).asset != asset,
            decreases n - k,
        {
            if self.pools[k].asset == asset {
                return Some(k);
            }
            k = k + 1;
        }
        None
    }

    /// The current pool state for `asset`, if its vault was initialized.
    pub fn vault_state(&self, asset: u64) -> (r: Option<Pool>)
        ensures
            match r {
                Some(p) => self.has_pool(asset) && p.asset == asset,
                None => !self.has_pool(asset),
            },
            self.wf() && self.has_pool(asset) ==> r == Some(self.pool_of(asset)),
    {
        match self.find_pool(asset) {
            Some(i) => {
                let p = self.pools[i];
                proof {
                    if self.wf() {
                        lemma_pool_at(*self, i as int);
                    }
                }
                Some(p)
            },
            None => None,
        }
    }

    /// One-time setup for `asset`: derives the share issuer from the
    /// "x-mint" namespace and the custody account from the "stake-vault"
    /// namespace, creates both with zero supply and balance, and gives the
    /// issuer the asset's own decimal precision. No funds move. A second
    /// call for the same asset targets the same derived addresses and fails
    /// with `AlreadyInitialized`, changing nothing.
    pub fn initialize_x_mint(&mut self, asset: u64, asset_decimals: u8, _payer: u64) -> (r:
        Result<VaultAddresses, VaultError>)
        requires
            old(self).wf(),
        ensures
            final(self).wf(),
            old(self).has_pool(asset) ==> r == Err::<VaultAddresses, VaultError>(
                VaultError::AlreadyInitialized,
            ) && final(self)@ == old(self)@,
            !old(self).has_pool(asset) ==> r == Ok::<VaultAddresses, VaultError>(
                spec_vault_addresses(asset),
            ) && final(self)@ == old(self)@.push(
                (Pool { asset, decimals: asset_decimals, vault_balance: 0, share_supply: 0 }),
            ) && final(self).has_pool(asset) && final(self).pool_of(asset) == (Pool {
                asset,
                decimals: asset_decimals,
                vault_balance: 0,
                share_supply: 0,
            }),
            forall|a2: u64|
                a2 != asset ==> #[trigger] final(self).has_pool(a2) == old(self).has_pool(a2),
            forall|a2: u64|
                a2 != asset && old(self).has_pool(a2) ==> #[trigger] final(self).pool_of(a2)
                    == old(self).pool_of(a2),
    {
        match self.find_pool(asset) {
            Some(_) => Err(VaultError::AlreadyInitialized),
            None => {
                let p = Pool { asset, decimals: asset_decimals, vault_balance: 0, share_supply: 0 };
                self.pools.push(p);
                proof {
                    lemma_registry_extended(*old(self), *self, asset);
                }
                Ok(vault_addresses(asset))
            },
        }
    }

    /// Stake for `asset`: prices `in_amount` against the current pool
    /// snapshot, mints the shares to the staker's share account and moves
    /// the deposit into custody as one atomic unit — exactly the deposit
    /// transition applied to this asset's pool. Fails with `VaultNotFound`
    /// before initialization; on any error nothing changes. Pools of other
    /// assets are never touched.
    pub fn stake(
        &mut self,
        asset: u64,
        staker: u64,
        assets: &mut AssetAccount,
        shares: &mut ShareAccount,
        in_amount: u64,
    ) -> (r: Result<u64, VaultError>)
        requires
            old(self).wf(),
            old(self).has_pool(asset) ==> accounts_consistent(
                old(self).pool_of(asset),
                *old(shares),
            ),
        ensures
            final(self).wf(),
            !old(self).has_pool(asset) ==> r == Err::<u64, VaultError>(VaultError::VaultNotFound)
                && final(self)@ == old(self)@ && *final(assets) == *old(assets) && *final(shares)
                == *old(shares),
            old(self).has_pool(asset) ==> ({
                let res = stake_spec(
                    old(self).pool_of(asset),
                    *old(assets),
                    *old(shares),
                    staker,
                    in_amount,
                );
                &&& final(self).has_pool(asset)
                &&& accounts_consistent(final(self).pool_of(asset), *final(shares))
                &&& match res {
                    Ok(o) => r == Ok::<u64, VaultError>(o.minted) && final(self).pool_of(asset)
                        == o.pool && *final(assets) == o.assets && *final(shares) == o.shares,
                    Err(e) => r == Err::<u64, VaultError>(e) && final(self).pool_of(asset) == old(
                        self,
                    ).pool_of(asset) && *final(assets) == *old(assets) && *final(shares) == *old(
                        shares,
                    ),
                }
            }),
            forall|a2: u64|
                a2 != asset ==> #[trigger] final(self).has_pool(a2) == old(self).has_pool(a2),
            forall|a2: u64|
                a2 != asset && old(self).has_pool(a2) ==> #[trigger] final(self).pool_of(a2)
                    == old(self).pool_of(a2),
    {
        let idx = match self.find_pool(asset) {
            Some(i) => i,
            None => {
                return Err(VaultError::VaultNotFound);
            },
        };
        proof {
            lemma_pool_at(*self, idx as int);
        }
        let mut p = self.pools[idx];
        let r = stake_pool(&mut p, assets, shares, staker, in_amount);
        self.pools[idx] = p;
        proof {
            lemma_registry_updated(*old(self), *self, idx as int);
        }
        r
    }

    /// Unstake for `asset`: burns `in_amount` shares from the staker's
    /// share account and pays the proportional asset amount out of custody
    /// as one atomic unit, priced against the pre-burn snapshot — exactly
    /// the redemption transition applied to this asset's pool. Fails with
    /// `VaultNotFound` before initialization; on any error nothing changes.
    /// Pools of other assets are never touched.
    pub fn unstake(
        &mut self,
        asset: u64,
        staker: u64,
        assets: &mut AssetAccount,
        shares: &mut ShareAccount,
        in_amount: u64,
    ) -> (r: Result<u64, VaultError>)
        requires
            old(self).wf(),
            old(self).has_pool(asset) ==> accounts_consistent(
                old(self).pool_of(asset),
                *old(shares),
            ),
        ensures
            final(self).wf(),
            !old(self).has_pool(asset) ==> r == Err::<u64, VaultError>(VaultError::VaultNotFound)
                && final(self)@ == old(self)@ && *final(assets) == *old(assets) && *final(shares)
                == *old(shares),
            old(self).has_pool(asset) ==> ({
                let res = unstake_spec(
                    old(self).pool_of(asset),
                    *old(assets),
                    *old(shares),
                    staker,
                    in_amount,
                );
                &&& final(self).has_pool(asset)
                &&& accounts_consistent(final(self).pool_of(asset), *final(shares))
                &&& match res {
                    Ok(o) => r == Ok::<u64, VaultError>(o.redeemed) && final(self).pool_of(asset)
                        == o.pool && *final(assets) == o.assets && *final(shares) == o.shares,
                    Err(e) => r == Err::<u64, VaultError>(e) && final(self).pool_of(asset) == old(
                        self,
                    ).pool_of(asset) && *final(assets) == *old(assets) && *final(shares) == *old(
                        shares,
                    ),
                }
            }),
            forall|a2: u64|
                a2 != asset ==> #[trigger] final(self).has_pool(a2) == old(self).has_pool(a2),
            forall|a2: u64|
                a2 != asset && old(self).has_pool(a2) ==> #[trigger] final(self).pool_of(a2)
                    == old(self).pool_of(a2),
    {
        let idx = match self.find_pool(asset) {
            Some(i) => i,
            None => {
                return Err(VaultError::VaultNotFound);
            },
        };
        proof {
            lemma_pool_at(*self, idx as int);
        }
        let mut p = self.pools[idx];
        let r = unstake_pool(&mut p, assets, shares, staker, in_amount);
        self.pools[idx] = p;
        proof {
            lemma_registry_updated(*old(self), *self, idx as int);
        }
        r
    }
}

/// In a well-formed registry, the index holding an asset's pool is the one
/// the lookup names.
proof fn lemma_pool_at(s: StakingSystem, i: int)
    requires
        s.wf(),
        0 <= i < s@.len(),
    ensures
        s.has_pool(s@[i].asset),
        s.pool_index(s@[i].asset) == i,
        s.pool_of(s@[i].asset) == s@[i],
{
    let a = s@[i].asset;
    assert(s.has_pool(a));
    let j = s.pool_index(a);
    if i < j {
        assert(s@[i].asset != s@[j].asset);
    } else if j < i {
        assert(s@[j].asset != s@[i].asset);
    }
}

/// Appending a pool for a fresh asset keeps the registry well-formed and
/// leaves every other asset's standing untouched.
proof fn lemma_registry_extended(pre: StakingSystem, post: StakingSystem, asset: u64)
    requires
        pre.wf(),
        !pre.has_pool(asset),
        post@.len() == pre@.len() + 1,
        post@[pre@.len() as int].asset == asset,
        forall|k: int| 0 <= k < pre@.len() ==> post@[k] == pre@[k],
    ensures
        post.wf(),
        post.has_pool(asset),
        post.pool_of(asset) == post@[pre@.len() as int],
        forall|a2: u64| a2 != asset ==> #[trigger] post.has_pool(a2) == pre.has_pool(a2),
        forall|a2: u64|
            a2 != asset && pre.has_pool(a2) ==> #[trigger] post.pool_of(a2) == pre.pool_of(a2),
{
    let n = pre@.len() as int;
    assert forall|i: int, j: int| 0 <= i < j < post@.len() implies (#[trigger] post@[i]).asset != (
    #[trigger] post@[j]).asset by {
        if j < n {
            assert(pre@[i].asset != pre@[j].asset);
        } else {
            assert(post@[i] == pre@[i]);
            if post@[i].asset == asset {
                assert(pre.has_pool(asset));
            }
        }
    }
    lemma_pool_at(post, n);
    assert forall|a2: u64| a2 != asset implies #[trigger] post.has_pool(a2) == pre.has_pool(
        a2,
    ) by {
        if pre.has_pool(a2) {
            let i = pre.pool_index(a2);
            assert(post@[i].asset == a2);
            assert(post.has_pool(a2));
        }
        if post.has_pool(a2) {
            let i = post.pool_index(a2);
            assert(i < n);
            assert(pre@[i].asset == a2);
            assert(pre.has_pool(a2));
        }
    }
    assert forall|a2: u64| a2 != asset && pre.has_pool(a2) implies #[trigger] post.pool_of(a2)
        == pre.pool_of(a2) by {
        let i = pre.pool_index(a2);
        assert(pre@[i].asset == a2);
        lemma_pool_at(pre, i);
        assert(post@[i].asset == a2);
        lemma_pool_at(post, i);
    }
}

/// Replacing one pool with a pool for the same asset keeps the registry
/// well-formed, keeps the lookup pointing at the replaced slot, and leaves
/// every other asset's pool untouched.
proof fn lemma_registry_updated(pre: StakingSystem, post: StakingSystem, idx: int)
    requires
        pre.wf(),
        0 <= idx < pre@.len(),
        post@ == pre@.update(idx, post@[idx]),
        post@[idx].asset == pre@[idx].asset,
    ensures
        post.wf(),
        post.has_pool(pre@[idx].asset),
        post.pool_of(pre@[idx].asset) == post@[idx],
        forall|a2: u64|
            a2 != pre@[idx].asset ==> #[trigger] post.has_pool(a2) == pre.has_pool(a2),
        forall|a2: u64|
            a2 != pre@[idx].asset && pre.has_pool(a2) ==> #[trigger] post.pool_of(a2)
                == pre.pool_of(a2),
{
    let asset = pre@[idx].asset;
    assert(post@.len() == pre@.len());
    assert forall|i: int, j: int| 0 <= i < j < post@.len() implies (#[trigger] post@[i]).asset != (
    #[trigger] post@[j]).asset by {
        assert(pre@[i].asset != pre@[j].asset);
        assert(post@[i].asset == pre@[i].asset);
        assert(post@[j].asset == pre@[j].asset);
    }
    lemma_pool_at(post, idx);
    assert forall|a2: u64| a2 != asset implies #[trigger] post.has_pool(a2) == pre.has_pool(
        a2,
    ) by {
        if pre.has_pool(a2) {
            let i = pre.pool_index(a2);
            assert(post@[i].asset == pre@[i].asset);
            assert(post.has_pool(a2));
        }
        if post.has_pool(a2) {
            let i = post.pool_index(a2);
            assert(pre@[i].asset == post@[i].asset);
            assert(pre.has_pool(a2));
        }
    }
    assert forall|a2: u64| a2 != asset && pre.has_pool(a2) implies #[trigger] post.pool_of(a2)
        == pre.pool_of(a2) by {
        let i = pre.pool_index(a2);
        assert(pre@[i].asset == a2);
        lemma_pool_at(pre, i);
        assert(post@[i].asset == a2);
        assert(i != idx);
        lemma_pool_at(post, i);
    }
}

} // verus!
