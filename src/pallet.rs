use vstd::prelude::*;

use crate::ledger::{contribution_of, reserve_of, ContributionLedger, ReserveLedger};
use crate::types::{sat_add, sat_sub, AccountId, AssetId, Balance, Error, Event, ReserveEntry};
use crate::wide::quotient_at_most;

verus! {

/// The abstract state of a pool: both ledgers and the custody account.
pub struct PoolState {
    pub reserves: Map<(AssetId, AssetId), ReserveEntry>,
    pub contributions: Map<AccountId, (Balance, Balance)>,
    pub custody: AccountId,
}

impl PoolState {
    /// Every recorded pair caches the product of its reserves.
    pub open spec fn consistent(self) -> bool {
        forall|p: (AssetId, AssetId)| #[trigger] self.reserves.contains_key(p) ==> self.reserves[p].wf()
    }

}

/// The least second amount that a deposit of `amount_1` into reserves
/// `(reserve_1, reserve_2)` must bring: `reserve_2 * amount_1 / reserve_1`,
/// the product exact and the division truncating.
pub open spec fn expected_amount_2(reserve_1: Balance, reserve_2: Balance, amount_1: Balance) -> int
    recommends
        reserve_1 != 0,
{
    (reserve_2 * amount_1) / (reserve_1 as int)
}

/// The entry of a pair after a deposit of `(amount_1, amount_2)`: a new pair
/// takes the amounts as its reserves; an existing one takes them on top of its
/// reserves if `amount_2` is at least the expected amount. A pair whose first
/// reserve is zero implies no ratio, and refuses every further deposit.
pub open spec fn deposited_entry(
    prior: Option<ReserveEntry>,
    amount_1: Balance,
    amount_2: Balance,
) -> Result<ReserveEntry, Error> {
    match prior {
        None => Ok(ReserveEntry::spec_new(amount_1, amount_2)),
        Some(e) => if e.reserve_1 != 0 && amount_2 >= expected_amount_2(e.reserve_1, e.reserve_2, amount_1) {
            Ok(ReserveEntry::spec_new(sat_add(e.reserve_1, amount_1), sat_add(e.reserve_2, amount_2)))
        } else {
            Err(Error::InvalidDepositRatio)
        },
    }
}

/// The outcome of a deposit: the state after it, or the error that refuses it.
/// `transferred` tells whether the caller's funds reached the custody account.
pub open spec fn deposit_result(
    s: PoolState,
    who: AccountId,
    asset_1: AssetId,
    asset_2: AssetId,
    amount_1: Balance,
    amount_2: Balance,
    transferred: bool,
) -> Result<PoolState, Error> {
    if !transferred {
        Err(Error::TransferFailed)
    } else {
        match deposited_entry(reserve_of(s.reserves, asset_1, asset_2), amount_1, amount_2) {
            Err(e) => Err(e),
            Ok(entry) => {
                let c = contribution_of(s.contributions, who);
                Ok(PoolState {
                    reserves: s.reserves.insert((asset_1, asset_2), entry),
                    contributions: s.contributions.insert(
                        who,
                        (sat_add(c.0, amount_1), sat_add(c.1, amount_2)),
                    ),
                    custody: s.custody,
                })
            },
        }
    }
}

/// Whether a withdrawal may proceed, and if not, why: the account must have
/// an entry, the amounts must be within its contribution, the pair must exist
/// and the amounts must be within its reserves, in that order.
pub open spec fn withdraw_check(
    s: PoolState,
    who: AccountId,
    asset_1: AssetId,
    asset_2: AssetId,
    withdraw_1: Balance,
    withdraw_2: Balance,
) -> Result<(), Error> {
    let c = contribution_of(s.contributions, who);
    if !s.contributions.contains_key(who) {
        Err(Error::NoLiquidity)
    } else if withdraw_1 > c.0 || withdraw_2 > c.1 {
        Err(Error::InsufficientLiquidity)
    } else if !s.reserves.contains_key((asset_1, asset_2)) {
        Err(Error::PoolNotFound)
    } else if withdraw_1 > s.reserves[(asset_1, asset_2)].reserve_1 || withdraw_2
        > s.reserves[(asset_1, asset_2)].reserve_2 {
        Err(Error::InsufficientLiquidity)
    } else {
        Ok(())
    }
}

/// The outcome of a withdrawal: the state after it, or the error that refuses
/// it. `transferred` tells whether the funds reached the caller; it is asked
/// only once the checks have passed.
pub open spec fn withdraw_result(
    s: PoolState,
    who: AccountId,
    asset_1: AssetId,
    asset_2: AssetId,
    withdraw_1: Balance,
    withdraw_2: Balance,
    transferred: bool,
) -> Result<PoolState, Error> {
    match withdraw_check(s, who, asset_1, asset_2, withdraw_1, withdraw_2) {
        Err(e) => Err(e),
        Ok(()) => if !transferred {
            Err(Error::TransferFailed)
        } else {
            let c = contribution_of(s.contributions, who);
            let r = s.reserves[(asset_1, asset_2)];
            Ok(PoolState {
                reserves: s.reserves.insert(
                    (asset_1, asset_2),
                    ReserveEntry::spec_new(sat_sub(r.reserve_1, withdraw_1), sat_sub(r.reserve_2, withdraw_2)),
                ),
                contributions: s.contributions.insert(
                    who,
                    (sat_sub(c.0, withdraw_1), sat_sub(c.1, withdraw_2)),
                ),
                custody: s.custody,
            })
        },
    }
}

/// A liquidity pool: the reserve ledger, the contribution ledger and the
/// account that holds the deposited funds.
pub struct Pallet {
    reserves: ReserveLedger,
    contributions: ContributionLedger,
    custody: AccountId,
}

impl View for Pallet {
    type V = PoolState;

    closed spec fn view(&self) -> PoolState {
        PoolState { reserves: self.reserves@, contributions: self.contributions@, custody: self.custody }
    }
}

impl Pallet {
    /// The pool is well formed: every recorded pair caches its product.
    pub open spec fn wf(&self) -> bool {
        self@.consistent()
    }

    /// An empty pool whose funds are held by `custody`.
    pub fn new(custody: AccountId) -> (p: Pallet)
        ensures
            p@.reserves == Map::<(AssetId, AssetId), ReserveEntry>::empty(),
            p@.contributions == Map::<AccountId, (Balance, Balance)>::empty(),
            p@.custody == custody,
            p.wf(),
    {
        Pallet { reserves: ReserveLedger::new(), contributions: ContributionLedger::new(), custody }
    }

    /// The account that holds the pool's funds.
    pub fn account_id(&self) -> (r: AccountId)
        ensures
            r == self@.custody,
    {
        self.custody
    }

    /// What `who` has deposited, `(0, 0)` if nothing.
    pub fn liquidity_pool(&self, who: AccountId) -> (r: (Balance, Balance))
        ensures
            r == contribution_of(self@.contributions, who),
    {
        self.contributions.get(who)
    }

    /// The reserves of the pair, if it has received a deposit.
    pub fn pool_reserves(&self, asset_1: AssetId, asset_2: AssetId) -> (r: Option<ReserveEntry>)
        ensures
            r == reserve_of(self@.reserves, asset_1, asset_2),
    {
        self.reserves.get(asset_1, asset_2)
    }

    /// Deposits `amount_1` of `asset_1` and `amount_2` of `asset_2` from `who`.
    /// `transferred` tells whether both amounts reached the custody account.
    /// On success both ledgers are updated and the deposit is reported; on
    /// failure nothing changes.
    pub fn deposit_liquidity(
        &mut self,
        who: AccountId,
        asset_1: AssetId,
        asset_2: AssetId,
        amount_1: Balance,
        amount_2: Balance,
        transferred: bool,
    ) -> (r: Result<Event, Error>)
        requires
            old(self).wf(),
        ensures
            final(self).wf(),
            match deposit_result(old(self)@, who, asset_1, asset_2, amount_1, amount_2, transferred) {
                Ok(s) => final(self)@ == s && r == Ok::<Event, Error>(
                    Event::LiquidityDeposited { who, asset_1, amount_1, asset_2, amount_2 },
                ),
                Err(e) => final(self)@ == old(self)@ && r == Err::<Event, Error>(e),
            },
    {
        if !transferred {
            return Err(Error::TransferFailed);
        }
        match self.reserves.get(asset_1, asset_2) {
            None => {
                self.reserves.upsert(asset_1, asset_2, amount_1, amount_2);
            },
            Some(e) => {
                if e.reserve_1 == 0 || !quotient_at_most(e.reserve_2, amount_1, e.reserve_1, amount_2) {
                    return Err(Error::InvalidDepositRatio);
                }
                self.reserves.upsert(
                    asset_1,
                    asset_2,
                    e.reserve_1.saturating_add(amount_1),
                    e.reserve_2.saturating_add(amount_2),
                );
            },
        }
        self.contributions.add(who, amount_1, amount_2);
        assert(self@ == deposit_result(old(self)@, who, asset_1, asset_2, amount_1, amount_2, true)->Ok_0);
        Ok(Event::LiquidityDeposited { who, asset_1, amount_1, asset_2, amount_2 })
    }

    /// Runs the checks of a withdrawal without changing anything, so that the
    /// host moves funds out of custody only for a withdrawal that will be
    /// recorded.
    pub fn check_withdrawal(
        &self,
        who: AccountId,
        asset_1: AssetId,
        asset_2: AssetId,
        withdraw_1: Balance,
        withdraw_2: Balance,
    ) -> (r: Result<(), Error>)
        ensures
            r == withdraw_check(self@, who, asset_1, asset_2, withdraw_1, withdraw_2),
    {
        if !self.contributions.contains(who) {
            return Err(Error::NoLiquidity);
        }
        let (user_1, user_2) = self.contributions.get(who);
        if withdraw_1 > user_1 || withdraw_2 > user_2 {
            return Err(Error::InsufficientLiquidity);
        }
        match self.reserves.get(asset_1, asset_2) {
            None => Err(Error::PoolNotFound),
            Some(e) => {
                if withdraw_1 > e.reserve_1 || withdraw_2 > e.reserve_2 {
                    Err(Error::InsufficientLiquidity)
                } else {
                    Ok(())
                }
            },
        }
    }

    /// Withdraws `withdraw_1` of `asset_1` and `withdraw_2` of `asset_2` for
    /// `who`. `transferred` tells whether both amounts reached `who`; it counts
    /// only once the checks have passed. On success both ledgers are reduced
    /// and the withdrawal is reported; on failure nothing changes.
    pub fn withdraw_liquidity(
        &mut self,
        who: AccountId,
        asset_1: AssetId,
        asset_2: AssetId,
        withdraw_1: Balance,
        withdraw_2: Balance,
        transferred: bool,
    ) -> (r: Result<Event, Error>)
        requires
            old(self).wf(),
        ensures
            final(self).wf(),
            match withdraw_result(old(self)@, who, asset_1, asset_2, withdraw_1, withdraw_2, transferred) {
                Ok(s) => final(self)@ == s && r == Ok::<Event, Error>(
                    Event::LiquidityWithdrawn { who, asset_1, amount_1: withdraw_1, asset_2, amount_2: withdraw_2 },
                ),
                Err(e) => final(self)@ == old(self)@ && r == Err::<Event, Error>(e),
            },
    {
        match self.check_withdrawal(who, asset_1, asset_2, withdraw_1, withdraw_2) {
            Err(e) => {
                return Err(e);
            },
            Ok(()) => {},
        }
        if !transferred {
            return Err(Error::TransferFailed);
        }
        let e = match self.reserves.get(asset_1, asset_2) {
            Some(e) => e,
            None => {
                return Err(Error::PoolNotFound);
            },
        };
        self.contributions.subtract(who, withdraw_1, withdraw_2);
        self.reserves.upsert(
            asset_1,
            asset_2,
            e.reserve_1.saturating_sub(withdraw_1),
            e.reserve_2.saturating_sub(withdraw_2),
        );
        assert(self@ == withdraw_result(old(self)@, who, asset_1, asset_2, withdraw_1, withdraw_2, true)->Ok_0);
        Ok(Event::LiquidityWithdrawn { who, asset_1, amount_1: withdraw_1, asset_2, amount_2: withdraw_2 })
    }
}

} // verus!
