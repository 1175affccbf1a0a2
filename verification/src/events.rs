//! Observable facts emitted by the operations, one per successful operation.
//!
//! These are append-only notifications for external consumers and auditors,
//! not queryable state: each operation returns the fact it emits.

use vstd::prelude::*;
use crate::Side;

verus! {

/// Emitted when a pool is created.
#[derive(Clone, Debug)]
pub struct PoolCreated {
    pub pool_id: u64,
    pub asset: String,
    pub authority: u64,
    pub start_time: i64,
    pub end_time: i64,
    pub lock_time: i64,
}

/// Emitted when a deposit is accepted, carrying the new per-side totals.
#[derive(Clone, Copy, PartialEq, Eq, Structural, Debug)]
pub struct Deposited {
    pub pool_id: u64,
    pub user: u64,
    pub side: Side,
    pub amount: u64,
    pub total_up: u64,
    pub total_down: u64,
}

/// Emitted when a pool is resolved, carrying the outcome and final totals.
#[derive(Clone, Copy, PartialEq, Eq, Structural, Debug)]
pub struct PoolResolved {
    pub pool_id: u64,
    pub strike_price: u64,
    pub final_price: u64,
    pub winner: Side,
    pub total_up: u64,
    pub total_down: u64,
}

/// Emitted when a winning participant claims their payout.
#[derive(Clone, Copy, PartialEq, Eq, Structural, Debug)]
pub struct PayoutClaimed {
    pub pool_id: u64,
    pub user: u64,
    pub amount: u64,
    pub side: Side,
}

} // verus!
