use vstd::prelude::*;

use crate::ledger::contribution_of;
use crate::pallet::{deposit_result, withdraw_result, PoolState};
use crate::types::{sat_add, sat_mul, AccountId, AssetId, Balance, Error, ReserveEntry};

verus! {

/// After a successful deposit every recorded pair caches the product of its
/// reserves, saturating; where that product fits in a balance, the cache is
/// exactly the product.
pub proof fn lemma_deposit_caches_product(
    s: PoolState,
    who: AccountId,
    asset_1: AssetId,
    asset_2: AssetId,
    amount_1: Balance,
    amount_2: Balance,
    transferred: bool,
)
    requires
        s.consistent(),
        deposit_result(s, who, asset_1, asset_2, amount_1, amount_2, transferred) is Ok,
    ensures
        ({
            let t = deposit_result(s, who, asset_1, asset_2, amount_1, amount_2, transferred)->Ok_0;
            &&& t.consistent()
            &&& forall|p: (AssetId, AssetId)|
                #![trigger t.reserves[p]]
                t.reserves.contains_key(p) && t.reserves[p].reserve_1 * t.reserves[p].reserve_2
                    <= Balance::MAX ==> t.reserves[p].invariant_k == t.reserves[p].reserve_1
                    * t.reserves[p].reserve_2
        }),
{
    let t = deposit_result(s, who, asset_1, asset_2, amount_1, amount_2, transferred)->Ok_0;
    assert forall|p: (AssetId, AssetId)| #[trigger] t.reserves.contains_key(p) implies t.reserves[p].wf() by {
        if p != (asset_1, asset_2) {
            assert(s.reserves.contains_key(p));
        }
    }
}

/// The first deposit into a pair succeeds whatever the amounts, zero
/// included, once the funds are in custody, and the pair's reserves are then
/// exactly the deposited amounts.
pub proof fn lemma_first_deposit(
    s: PoolState,
    who: AccountId,
    asset_1: AssetId,
    asset_2: AssetId,
    amount_1: Balance,
    amount_2: Balance,
)
    requires
        !s.reserves.contains_key((asset_1, asset_2)),
    ensures
        deposit_result(s, who, asset_1, asset_2, amount_1, amount_2, true) is Ok,
        deposit_result(s, who, asset_1, asset_2, amount_1, amount_2, true)->Ok_0.reserves[(asset_1, asset_2)]
            == ReserveEntry::spec_new(amount_1, amount_2),
{
}

/// A successful withdrawal takes exactly the withdrawn amounts off the pair's
/// reserves and off the account's contribution, so none of them goes below
/// zero and none is clamped.
pub proof fn lemma_withdraw_exact(
    s: PoolState,
    who: AccountId,
    asset_1: AssetId,
    asset_2: AssetId,
    withdraw_1: Balance,
    withdraw_2: Balance,
    transferred: bool,
)
    requires
        withdraw_result(s, who, asset_1, asset_2, withdraw_1, withdraw_2, transferred) is Ok,
    ensures
        ({
            let t = withdraw_result(s, who, asset_1, asset_2, withdraw_1, withdraw_2, transferred)->Ok_0;
            let r = s.reserves[(asset_1, asset_2)];
            let c = s.contributions[who];
            &&& s.reserves.contains_key((asset_1, asset_2))
            &&& s.contributions.contains_key(who)
            &&& withdraw_1 <= r.reserve_1 && withdraw_2 <= r.reserve_2
            &&& withdraw_1 <= c.0 && withdraw_2 <= c.1
            &&& t.reserves[(asset_1, asset_2)].reserve_1 == r.reserve_1 - withdraw_1
            &&& t.reserves[(asset_1, asset_2)].reserve_2 == r.reserve_2 - withdraw_2
            &&& t.contributions[who].0 == c.0 - withdraw_1
            &&& t.contributions[who].1 == c.1 - withdraw_2
        }),
{
}

/// Withdrawing more than the account has contributed, in either asset, fails
/// with `InsufficientLiquidity`, whatever the pool's reserves.
pub proof fn lemma_withdraw_beyond_contribution(
    s: PoolState,
    who: AccountId,
    asset_1: AssetId,
    asset_2: AssetId,
    withdraw_1: Balance,
    withdraw_2: Balance,
    transferred: bool,
)
    requires
        s.contributions.contains_key(who),
        withdraw_1 > s.contributions[who].0 || withdraw_2 > s.contributions[who].1,
    ensures
        withdraw_result(s, who, asset_1, asset_2, withdraw_1, withdraw_2, transferred) == Err::<
            PoolState,
            Error,
        >(Error::InsufficientLiquidity),
{
}

/// Depositing into a new pair and then withdrawing the same amounts leaves the
/// pair's reserves at zero and the account's contribution at zero, for an
/// account that had contributed nothing before.
pub proof fn lemma_deposit_withdraw_round_trip(
    s: PoolState,
    who: AccountId,
    asset_1: AssetId,
    asset_2: AssetId,
    amount_1: Balance,
    amount_2: Balance,
)
    requires
        !s.reserves.contains_key((asset_1, asset_2)),
        contribution_of(s.contributions, who) == (0u128, 0u128),
    ensures
        ({
            let d = deposit_result(s, who, asset_1, asset_2, amount_1, amount_2, true);
            let w = withdraw_result(d->Ok_0, who, asset_1, asset_2, amount_1, amount_2, true);
            &&& d is Ok
            &&& w is Ok
            &&& w->Ok_0.reserves[(asset_1, asset_2)] == ReserveEntry::spec_new(0, 0)
            &&& w->Ok_0.contributions[who] == (0u128, 0u128)
        }),
{
    assert(sat_mul(0, 0) == 0);
}

/// Two deposits into the same pair that succeed in either order leave the
/// pool in the same state, whichever order they were applied in: the reserves
/// are the saturated sums of all amounts, and no deposit is lost.
pub proof fn lemma_deposits_commute(
    s: PoolState,
    asset_1: AssetId,
    asset_2: AssetId,
    who_a: AccountId,
    a_1: Balance,
    a_2: Balance,
    who_b: AccountId,
    b_1: Balance,
    b_2: Balance,
)
    requires
        ({
            let sa = deposit_result(s, who_a, asset_1, asset_2, a_1, a_2, true);
            let sb = deposit_result(s, who_b, asset_1, asset_2, b_1, b_2, true);
            &&& sa is Ok
            &&& sb is Ok
            &&& deposit_result(sa->Ok_0, who_b, asset_1, asset_2, b_1, b_2, true) is Ok
            &&& deposit_result(sb->Ok_0, who_a, asset_1, asset_2, a_1, a_2, true) is Ok
        }),
    ensures
        ({
            let sa = deposit_result(s, who_a, asset_1, asset_2, a_1, a_2, true)->Ok_0;
            let sb = deposit_result(s, who_b, asset_1, asset_2, b_1, b_2, true)->Ok_0;
            let ab = deposit_result(sa, who_b, asset_1, asset_2, b_1, b_2, true)->Ok_0;
            let ba = deposit_result(sb, who_a, asset_1, asset_2, a_1, a_2, true)->Ok_0;
            let base = if s.reserves.contains_key((asset_1, asset_2)) {
                (s.reserves[(asset_1, asset_2)].reserve_1, s.reserves[(asset_1, asset_2)].reserve_2)
            } else {
                (0u128, 0u128)
            };
            &&& ab == ba
            &&& ab.reserves[(asset_1, asset_2)].reserve_1 == sat_add(sat_add(base.0, a_1), b_1)
            &&& ab.reserves[(asset_1, asset_2)].reserve_2 == sat_add(sat_add(base.1, a_2), b_2)
        }),
{
    let sa = deposit_result(s, who_a, asset_1, asset_2, a_1, a_2, true)->Ok_0;
    let sb = deposit_result(s, who_b, asset_1, asset_2, b_1, b_2, true)->Ok_0;
    let ab = deposit_result(sa, who_b, asset_1, asset_2, b_1, b_2, true)->Ok_0;
    let ba = deposit_result(sb, who_a, asset_1, asset_2, a_1, a_2, true)->Ok_0;
    assert(ab.reserves =~= ba.reserves);
    assert(ab.contributions =~= ba.contributions);
}

} // verus!
