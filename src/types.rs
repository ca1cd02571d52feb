use vstd::prelude::*;

verus! {

/// Identity of an account.
pub type AccountId = u64;

/// Identifier of a fungible asset.
pub type AssetId = u32;

/// A quantity of an asset.
pub type Balance = u128;

/// `x + y`, clamped at the largest balance.
pub open spec fn sat_add(x: Balance, y: Balance) -> Balance {
    if x + y > Balance::MAX {
        Balance::MAX
    } else {
        (x + y) as Balance
    }
}

/// `x - y`, clamped at zero.
pub open spec fn sat_sub(x: Balance, y: Balance) -> Balance {
    if x < y {
        0
    } else {
        (x - y) as Balance
    }
}

/// `x * y`, clamped at the largest balance.
pub open spec fn sat_mul(x: Balance, y: Balance) -> Balance {
    if x * y > Balance::MAX {
        Balance::MAX
    } else {
        (x * y) as Balance
    }
}

/// Multiplies two balances, clamping at the largest balance instead of
/// overflowing.
pub fn saturating_mul(x: Balance, y: Balance) -> (r: Balance)
    ensures
        r == sat_mul(x, y),
{
    match x.checked_mul(y) {
        Some(v) => v,
        None => Balance::MAX,
    }
}

/// The reserves that the pool holds for one pair of assets, with the cached
/// product of the two.
#[derive(Clone, Copy, Debug, PartialEq, Eq, Structural)]
pub struct ReserveEntry {
    pub reserve_1: Balance,
    pub reserve_2: Balance,
    pub invariant_k: Balance,
}

impl ReserveEntry {
    /// The entry that holds `reserve_1` and `reserve_2`, with its product.
    pub open spec fn spec_new(reserve_1: Balance, reserve_2: Balance) -> ReserveEntry {
        ReserveEntry { reserve_1, reserve_2, invariant_k: sat_mul(reserve_1, reserve_2) }
    }

    /// The cached product agrees with the reserves.
    pub open spec fn wf(self) -> bool {
        self.invariant_k == sat_mul(self.reserve_1, self.reserve_2)
    }

    /// Builds the entry for the given reserves, computing the product with
    /// saturating multiplication.
    pub fn new(reserve_1: Balance, reserve_2: Balance) -> (e: ReserveEntry)
        ensures
            e == Self::spec_new(reserve_1, reserve_2),
            e.wf(),
    {
        ReserveEntry { reserve_1, reserve_2, invariant_k: saturating_mul(reserve_1, reserve_2) }
    }
}

/// Why a pool operation was refused.
#[derive(Clone, Copy, Debug, PartialEq, Eq, Structural)]
pub enum Error {
    /// The second amount of a deposit is below the one that the reserves imply.
    InvalidDepositRatio,
    /// The account has never deposited.
    NoLiquidity,
    /// No reserves are recorded for the pair.
    PoolNotFound,
    /// The withdrawal exceeds the account's contribution or the pool's reserves.
    InsufficientLiquidity,
    /// The custody transfer of the request did not go through.
    TransferFailed,
}

/// What a successful operation reports.
#[derive(Clone, Copy, Debug, PartialEq, Eq, Structural)]
pub enum Event {
    LiquidityDeposited {
        who: AccountId,
        asset_1: AssetId,
        amount_1: Balance,
        asset_2: AssetId,
        amount_2: Balance,
    },
    LiquidityWithdrawn {
        who: AccountId,
        asset_1: AssetId,
        amount_1: Balance,
        asset_2: AssetId,
        amount_2: Balance,
    },
}

} // verus!
