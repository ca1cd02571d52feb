use std::collections::HashMap;
use vstd::prelude::*;
use vstd::std_specs::hash::group_hash_axioms;

use crate::types::{sat_add, sat_sub, AccountId, AssetId, Balance, ReserveEntry};

verus! {

broadcast use group_hash_axioms;

/// The storage key of an ordered pair of assets: the first asset in the high
/// half, the second in the low half.
pub open spec fn pair_key(asset_1: AssetId, asset_2: AssetId) -> u64 {
    (asset_1 * 0x1_0000_0000 + asset_2) as u64
}

proof fn lemma_pair_key_fits(asset_1: AssetId, asset_2: AssetId)
    ensures
        0 <= asset_1 * 0x1_0000_0000 + asset_2 <= u64::MAX,
{
    assert(asset_1 * 0x1_0000_0000 + asset_2 <= u64::MAX) by (nonlinear_arith)
        requires
            asset_1 <= u32::MAX,
            asset_2 <= u32::MAX,
    ;
}

/// Distinct pairs have distinct keys.
pub proof fn lemma_pair_key_injective(p: (AssetId, AssetId), q: (AssetId, AssetId))
    ensures
        pair_key(p.0, p.1) == pair_key(q.0, q.1) ==> p == q,
{
    lemma_pair_key_fits(p.0, p.1);
    lemma_pair_key_fits(q.0, q.1);
    if pair_key(p.0, p.1) == pair_key(q.0, q.1) {
        let a = p.0 as int;
        let b = p.1 as int;
        let c = q.0 as int;
        let d = q.1 as int;
        assert(a * 0x1_0000_0000 + b == c * 0x1_0000_0000 + d);
        assert(a == c) by (nonlinear_arith)
            requires
                a * 0x1_0000_0000 + b == c * 0x1_0000_0000 + d,
                0 <= b < 0x1_0000_0000,
                0 <= d < 0x1_0000_0000,
        ;
    }
}

fn key_of(asset_1: AssetId, asset_2: AssetId) -> (k: u64)
    ensures
        k == pair_key(asset_1, asset_2),
{
    proof {
        lemma_pair_key_fits(asset_1, asset_2);
    }
    (asset_1 as u64) * 0x1_0000_0000u64 + (asset_2 as u64)
}

/// The reserves of every pair that has received a deposit, keyed by the pair
/// in the order its assets were given. `(A, B)` and `(B, A)` are distinct pairs.
pub struct ReserveLedger {
    entries: HashMap<u64, ReserveEntry>,
}

impl View for ReserveLedger {
    type V = Map<(AssetId, AssetId), ReserveEntry>;

    closed spec fn view(&self) -> Map<(AssetId, AssetId), ReserveEntry> {
        Map::new(
            |p: (AssetId, AssetId)| self.entries@.contains_key(pair_key(p.0, p.1)),
            |p: (AssetId, AssetId)| self.entries@[pair_key(p.0, p.1)],
        )
    }
}

/// The entry of a pair, if it has one.
pub open spec fn reserve_of(m: Map<(AssetId, AssetId), ReserveEntry>, asset_1: AssetId, asset_2: AssetId) -> Option<ReserveEntry> {
    if m.contains_key((asset_1, asset_2)) {
        Some(m[(asset_1, asset_2)])
    } else {
        None
    }
}

impl ReserveLedger {
    /// A ledger with no pairs.
    pub fn new() -> (l: ReserveLedger)
        ensures
            l@ == Map::<(AssetId, AssetId), ReserveEntry>::empty(),
    {
        let l = ReserveLedger { entries: HashMap::new() };
        assert(l@ =~= Map::<(AssetId, AssetId), ReserveEntry>::empty());
        l
    }

    /// The entry of a pair, if it has one.
    pub fn get(&self, asset_1: AssetId, asset_2: AssetId) -> (r: Option<ReserveEntry>)
        ensures
            r == reserve_of(self@, asset_1, asset_2),
    {
        let k = key_of(asset_1, asset_2);
        match self.entries.get(&k) {
            Some(e) => Some(*e),
            None => None,
        }
    }

    /// Whether the pair has an entry.
    pub fn contains(&self, asset_1: AssetId, asset_2: AssetId) -> (r: bool)
        ensures
            r == self@.contains_key((asset_1, asset_2)),
    {
        let k = key_of(asset_1, asset_2);
        self.entries.contains_key(&k)
    }

    /// Records the reserves of a pair with their product, replacing any earlier
    /// entry of that pair.
    pub fn upsert(&mut self, asset_1: AssetId, asset_2: AssetId, reserve_1: Balance, reserve_2: Balance)
        ensures
            final(self)@ == old(self)@.insert((asset_1, asset_2), ReserveEntry::spec_new(reserve_1, reserve_2)),
    {
        let k = key_of(asset_1, asset_2);
        let e = ReserveEntry::new(reserve_1, reserve_2);
        self.entries.insert(k, e);
        assert forall|p: (AssetId, AssetId)| pair_key(p.0, p.1) == k implies p == (asset_1, asset_2) by {
            lemma_pair_key_injective(p, (asset_1, asset_2));
        }
        assert(self@ =~= old(self)@.insert((asset_1, asset_2), ReserveEntry::spec_new(reserve_1, reserve_2)));
    }
}

/// What an account has deposited, `(0, 0)` for an account with no entry.
pub open spec fn contribution_of(m: Map<AccountId, (Balance, Balance)>, who: AccountId) -> (Balance, Balance) {
    if m.contains_key(who) {
        m[who]
    } else {
        (0, 0)
    }
}

/// The amounts that each account has deposited, summed over all pairs it has
/// deposited into.
pub struct ContributionLedger {
    entries: HashMap<AccountId, (Balance, Balance)>,
}

impl View for ContributionLedger {
    type V = Map<AccountId, (Balance, Balance)>;

    closed spec fn view(&self) -> Map<AccountId, (Balance, Balance)> {
        self.entries@
    }
}

impl ContributionLedger {
    /// A ledger with no accounts.
    pub fn new() -> (l: ContributionLedger)
        ensures
            l@ == Map::<AccountId, (Balance, Balance)>::empty(),
    {
        ContributionLedger { entries: HashMap::new() }
    }

    /// The account's contribution, `(0, 0)` where it has none.
    pub fn get(&self, who: AccountId) -> (r: (Balance, Balance))
        ensures
            r == contribution_of(self@, who),
    {
        match self.entries.get(&who) {
            Some(c) => *c,
            None => (0, 0),
        }
    }

    /// Whether the account has an entry.
    pub fn contains(&self, who: AccountId) -> (r: bool)
        ensures
            r == self@.contains_key(who),
    {
        self.entries.contains_key(&who)
    }

    /// Adds to the account's two amounts, saturating, and creates its entry
    /// where it has none.
    pub fn add(&mut self, who: AccountId, d1: Balance, d2: Balance)
        ensures
            final(self)@ == old(self)@.insert(
                who,
                (sat_add(contribution_of(old(self)@, who).0, d1), sat_add(contribution_of(old(self)@, who).1, d2)),
            ),
    {
        let c = self.get(who);
        self.entries.insert(who, (c.0.saturating_add(d1), c.1.saturating_add(d2)));
    }

    /// Subtracts from the account's two amounts, flooring each at zero, and
    /// creates its entry where it has none.
    pub fn subtract(&mut self, who: AccountId, w1: Balance, w2: Balance)
        ensures
            final(self)@ == old(self)@.insert(
                who,
                (sat_sub(contribution_of(old(self)@, who).0, w1), sat_sub(contribution_of(old(self)@, who).1, w2)),
            ),
    {
        let c = self.get(who);
        self.entries.insert(who, (c.0.saturating_sub(w1), c.1.saturating_sub(w2)));
    }
}

} // verus!
