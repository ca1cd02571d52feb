use liquidity::{Error, Event, Pallet, ReserveEntry};

const ALICE: u64 = 1;
const BOB: u64 = 2;
const CUSTODY: u64 = 99;
const A: u32 = 10;
const B: u32 = 20;

fn entry(r1: u128, r2: u128, k: u128) -> Option<ReserveEntry> {
    Some(ReserveEntry { reserve_1: r1, reserve_2: r2, invariant_k: k })
}

fn pool_100_200() -> Pallet {
    let mut p = Pallet::new(CUSTODY);
    assert!(p.deposit_liquidity(ALICE, A, B, 100, 200, true).is_ok());
    p
}

#[test]
fn first_deposit_sets_reserves_and_product() {
    let mut p = Pallet::new(CUSTODY);
    let r = p.deposit_liquidity(ALICE, A, B, 100, 200, true);
    assert_eq!(
        r,
        Ok(Event::LiquidityDeposited { who: ALICE, asset_1: A, amount_1: 100, asset_2: B, amount_2: 200 })
    );
    assert_eq!(p.pool_reserves(A, B), entry(100, 200, 20_000));
    assert_eq!(p.liquidity_pool(ALICE), (100, 200));
}

#[test]
fn first_deposit_of_zero_amounts_succeeds() {
    let mut p = Pallet::new(CUSTODY);
    assert!(p.deposit_liquidity(ALICE, A, B, 0, 0, true).is_ok());
    assert_eq!(p.pool_reserves(A, B), entry(0, 0, 0));
    assert_eq!(p.liquidity_pool(ALICE), (0, 0));
}

#[test]
fn ratio_check_below_expected_fails() {
    let mut p = pool_100_200();
    assert_eq!(p.deposit_liquidity(BOB, A, B, 50, 99, true), Err(Error::InvalidDepositRatio));
    assert_eq!(p.pool_reserves(A, B), entry(100, 200, 20_000));
    assert_eq!(p.liquidity_pool(BOB), (0, 0));
}

#[test]
fn ratio_check_at_expected_succeeds() {
    let mut p = pool_100_200();
    assert!(p.deposit_liquidity(BOB, A, B, 50, 100, true).is_ok());
    assert_eq!(p.pool_reserves(A, B), entry(150, 300, 45_000));
    assert_eq!(p.liquidity_pool(BOB), (50, 100));
}

#[test]
fn ratio_check_allows_overpaying() {
    let mut p = pool_100_200();
    assert!(p.deposit_liquidity(BOB, A, B, 50, 500, true).is_ok());
    assert_eq!(p.pool_reserves(A, B), entry(150, 700, 105_000));
}

#[test]
fn product_saturates_at_the_largest_balance() {
    let mut p = Pallet::new(CUSTODY);
    let big = 1u128 << 64;
    assert!(p.deposit_liquidity(ALICE, A, B, big, big, true).is_ok());
    assert_eq!(p.pool_reserves(A, B), entry(big, big, u128::MAX));
}

#[test]
fn reserves_and_contributions_saturate_on_deposit() {
    let mut p = Pallet::new(CUSTODY);
    assert!(p.deposit_liquidity(ALICE, A, B, 1, u128::MAX, true).is_ok());
    assert!(p.deposit_liquidity(ALICE, A, B, 1, u128::MAX, true).is_ok());
    assert_eq!(p.pool_reserves(A, B), entry(2, u128::MAX, u128::MAX));
    assert_eq!(p.liquidity_pool(ALICE), (2, u128::MAX));
}

#[test]
fn product_is_cached_after_every_deposit() {
    let mut p = pool_100_200();
    assert!(p.deposit_liquidity(BOB, A, B, 7, 30, true).is_ok());
    let e = p.pool_reserves(A, B).unwrap();
    assert_eq!((e.reserve_1, e.reserve_2), (107, 230));
    assert_eq!(e.invariant_k, e.reserve_1 * e.reserve_2);
}

#[test]
fn failed_deposit_transfer_changes_nothing() {
    let mut p = pool_100_200();
    assert_eq!(p.deposit_liquidity(BOB, A, B, 50, 100, false), Err(Error::TransferFailed));
    assert_eq!(p.pool_reserves(A, B), entry(100, 200, 20_000));
    assert_eq!(p.liquidity_pool(BOB), (0, 0));
}

#[test]
fn failed_deposit_transfer_is_reported_before_the_ratio() {
    let mut p = pool_100_200();
    assert_eq!(p.deposit_liquidity(BOB, A, B, 50, 1, false), Err(Error::TransferFailed));
}

#[test]
fn mirrored_pairs_are_distinct() {
    let mut p = pool_100_200();
    assert_eq!(p.pool_reserves(B, A), None);
    assert!(p.deposit_liquidity(BOB, B, A, 1, 1, true).is_ok());
    assert_eq!(p.pool_reserves(B, A), entry(1, 1, 1));
    assert_eq!(p.pool_reserves(A, B), entry(100, 200, 20_000));
}

#[test]
fn contributions_add_up_across_pairs() {
    let mut p = pool_100_200();
    assert!(p.deposit_liquidity(ALICE, 30, 40, 5, 6, true).is_ok());
    assert_eq!(p.liquidity_pool(ALICE), (105, 206));
}

#[test]
fn withdraw_takes_amounts_off_both_ledgers() {
    let mut p = pool_100_200();
    let r = p.withdraw_liquidity(ALICE, A, B, 40, 50, true);
    assert_eq!(
        r,
        Ok(Event::LiquidityWithdrawn { who: ALICE, asset_1: A, amount_1: 40, asset_2: B, amount_2: 50 })
    );
    assert_eq!(p.pool_reserves(A, B), entry(60, 150, 9_000));
    assert_eq!(p.liquidity_pool(ALICE), (60, 150));
}

#[test]
fn withdraw_everything_reaches_zero() {
    let mut p = pool_100_200();
    assert!(p.withdraw_liquidity(ALICE, A, B, 100, 200, true).is_ok());
    assert_eq!(p.pool_reserves(A, B), entry(0, 0, 0));
    assert_eq!(p.liquidity_pool(ALICE), (0, 0));
}

#[test]
fn withdraw_without_contribution_fails() {
    let mut p = pool_100_200();
    assert_eq!(p.withdraw_liquidity(BOB, A, B, 0, 0, true), Err(Error::NoLiquidity));
}

#[test]
fn withdraw_beyond_contribution_fails_despite_reserves() {
    let mut p = pool_100_200();
    assert!(p.deposit_liquidity(BOB, A, B, 10, 20, true).is_ok());
    assert_eq!(p.withdraw_liquidity(BOB, A, B, 11, 0, true), Err(Error::InsufficientLiquidity));
    assert_eq!(p.withdraw_liquidity(BOB, A, B, 0, 21, true), Err(Error::InsufficientLiquidity));
    assert_eq!(p.pool_reserves(A, B), entry(110, 220, 24_200));
    assert_eq!(p.liquidity_pool(BOB), (10, 20));
}

#[test]
fn withdraw_from_unknown_pair_fails() {
    let mut p = pool_100_200();
    assert_eq!(p.withdraw_liquidity(ALICE, B, A, 1, 1, true), Err(Error::PoolNotFound));
}

#[test]
fn withdraw_beyond_reserves_fails() {
    let mut p = pool_100_200();
    assert!(p.deposit_liquidity(ALICE, 30, 40, 500, 500, true).is_ok());
    assert_eq!(p.withdraw_liquidity(ALICE, A, B, 101, 0, true), Err(Error::InsufficientLiquidity));
    assert_eq!(p.withdraw_liquidity(ALICE, A, B, 0, 201, true), Err(Error::InsufficientLiquidity));
}

#[test]
fn failed_withdraw_transfer_changes_nothing() {
    let mut p = pool_100_200();
    assert_eq!(p.withdraw_liquidity(ALICE, A, B, 10, 10, false), Err(Error::TransferFailed));
    assert_eq!(p.pool_reserves(A, B), entry(100, 200, 20_000));
    assert_eq!(p.liquidity_pool(ALICE), (100, 200));
}

#[test]
fn withdraw_checks_come_before_the_transfer() {
    let mut p = pool_100_200();
    assert_eq!(p.withdraw_liquidity(BOB, A, B, 1, 1, false), Err(Error::NoLiquidity));
}

#[test]
fn check_withdrawal_matches_withdraw_and_changes_nothing() {
    let p = pool_100_200();
    assert_eq!(p.check_withdrawal(ALICE, A, B, 100, 200), Ok(()));
    assert_eq!(p.check_withdrawal(ALICE, A, B, 101, 200), Err(Error::InsufficientLiquidity));
    assert_eq!(p.check_withdrawal(BOB, A, B, 0, 0), Err(Error::NoLiquidity));
    assert_eq!(p.check_withdrawal(ALICE, 1, 2, 0, 0), Err(Error::PoolNotFound));
    assert_eq!(p.pool_reserves(A, B), entry(100, 200, 20_000));
}

#[test]
fn deposit_then_withdraw_round_trip() {
    let mut p = Pallet::new(CUSTODY);
    assert!(p.deposit_liquidity(ALICE, A, B, 123, 456, true).is_ok());
    assert!(p.withdraw_liquidity(ALICE, A, B, 123, 456, true).is_ok());
    assert_eq!(p.pool_reserves(A, B), entry(0, 0, 0));
    assert_eq!(p.liquidity_pool(ALICE), (0, 0));
}

#[test]
fn deposits_in_either_order_reach_the_same_totals() {
    let mut p = pool_100_200();
    let mut q = pool_100_200();
    assert!(p.deposit_liquidity(ALICE, A, B, 10, 20, true).is_ok());
    assert!(p.deposit_liquidity(BOB, A, B, 30, 60, true).is_ok());
    assert!(q.deposit_liquidity(BOB, A, B, 30, 60, true).is_ok());
    assert!(q.deposit_liquidity(ALICE, A, B, 10, 20, true).is_ok());
    assert_eq!(p.pool_reserves(A, B), entry(140, 280, 39_200));
    assert_eq!(q.pool_reserves(A, B), p.pool_reserves(A, B));
    assert_eq!(p.liquidity_pool(ALICE), q.liquidity_pool(ALICE));
    assert_eq!(p.liquidity_pool(BOB), (30, 60));
    assert_eq!(q.liquidity_pool(BOB), (30, 60));
}

#[test]
fn custody_account_is_kept() {
    let p = Pallet::new(CUSTODY);
    assert_eq!(p.account_id(), CUSTODY);
}

#[test]
fn reserve_entry_new_computes_product() {
    assert_eq!(ReserveEntry::new(3, 4), ReserveEntry { reserve_1: 3, reserve_2: 4, invariant_k: 12 });
    assert_eq!(ReserveEntry::new(u128::MAX, 2).invariant_k, u128::MAX);
}

#[test]
fn deposit_order_can_decide_the_ratio_check() {
    let mut p = Pallet::new(CUSTODY);
    assert!(p.deposit_liquidity(ALICE, A, B, 3, 7, true).is_ok());
    let mut q = Pallet::new(CUSTODY);
    assert!(q.deposit_liquidity(ALICE, A, B, 3, 7, true).is_ok());
    assert!(p.deposit_liquidity(ALICE, A, B, 1, 2, true).is_ok());
    assert!(p.deposit_liquidity(BOB, A, B, 1, 5, true).is_ok());
    assert_eq!(p.pool_reserves(A, B), entry(5, 14, 70));
    assert!(q.deposit_liquidity(BOB, A, B, 1, 5, true).is_ok());
    assert_eq!(q.deposit_liquidity(ALICE, A, B, 1, 2, true), Err(Error::InvalidDepositRatio));
    assert_eq!(q.pool_reserves(A, B), entry(4, 12, 48));
}

#[test]
fn ratio_check_uses_the_exact_product() {
    let mut p = Pallet::new(CUSTODY);
    assert!(p.deposit_liquidity(ALICE, A, B, 1, 2, true).is_ok());
    assert_eq!(
        p.deposit_liquidity(BOB, A, B, u128::MAX, u128::MAX, true),
        Err(Error::InvalidDepositRatio)
    );
    assert_eq!(p.pool_reserves(A, B), entry(1, 2, 2));
    assert_eq!(p.liquidity_pool(BOB), (0, 0));
}

#[test]
fn ratio_check_with_overflowing_product_and_fitting_quotient() {
    let big = 1u128 << 100;
    let mut p = Pallet::new(CUSTODY);
    assert!(p.deposit_liquidity(ALICE, A, B, big, big, true).is_ok());
    assert_eq!(p.deposit_liquidity(BOB, A, B, big, big - 1, true), Err(Error::InvalidDepositRatio));
    assert!(p.deposit_liquidity(BOB, A, B, big, big, true).is_ok());
    assert_eq!(p.pool_reserves(A, B), entry(2 * big, 2 * big, u128::MAX));
}

#[test]
fn ratio_check_truncates_the_quotient() {
    let mut p = Pallet::new(CUSTODY);
    assert!(p.deposit_liquidity(ALICE, A, B, 3, 7, true).is_ok());
    assert_eq!(p.deposit_liquidity(BOB, A, B, 2, 3, true), Err(Error::InvalidDepositRatio));
    assert!(p.deposit_liquidity(BOB, A, B, 2, 4, true).is_ok());
}

#[test]
fn deposit_into_pair_with_zero_first_reserve_is_refused() {
    let mut p = Pallet::new(CUSTODY);
    assert!(p.deposit_liquidity(ALICE, A, B, 0, 5, true).is_ok());
    assert_eq!(p.deposit_liquidity(BOB, A, B, 1, 100, true), Err(Error::InvalidDepositRatio));
    assert_eq!(p.pool_reserves(A, B), entry(0, 5, 0));
    assert_eq!(p.deposit_liquidity(BOB, A, B, 1, 100, false), Err(Error::TransferFailed));
}

#[test]
fn deposit_after_full_withdrawal_is_refused() {
    let mut p = pool_100_200();
    assert!(p.withdraw_liquidity(ALICE, A, B, 100, 200, true).is_ok());
    assert_eq!(p.deposit_liquidity(ALICE, A, B, 10, 20, true), Err(Error::InvalidDepositRatio));
    assert_eq!(p.pool_reserves(A, B), entry(0, 0, 0));
    assert_eq!(p.liquidity_pool(ALICE), (0, 0));
}
