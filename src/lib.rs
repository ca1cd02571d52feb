//! Ledger core of a two-asset constant-product liquidity pool.
//!
//! The pool keeps, per ordered pair of assets, the reserves it holds and the
//! cached product of those reserves, and per account the amounts that account
//! has deposited. Deposits and withdrawals are state transitions over these two
//! ledgers; the movement of funds is done by the host, which reports to the pool
//! whether the custody transfer of a request went through.

pub mod types;
pub mod wide;
pub mod ledger;
pub mod pallet;
pub mod laws;

pub use types::{AccountId, AssetId, Balance, Error, Event, ReserveEntry};
pub use ledger::{ContributionLedger, ReserveLedger};
pub use pallet::{Pallet, PoolState};
