//! The two records the engine operates on: the pool and a participant's bet.

use vstd::prelude::*;
use crate::Side;

verus! {

/// Lifecycle states of a pool, a monotonic forward-only progression.
///
/// `Upcoming` is reserved for pre-open pools and is not produced by any
/// operation here: creation starts a pool directly in `Joining`. `Active`
/// (deposits locked, awaiting resolution) is likewise tolerated as a source
/// state for resolution but never produced.
#[derive(Clone, Copy, PartialEq, Eq, Structural, Debug)]
pub enum PoolStatus {
    /// Pool created, waiting for the join window.
    Upcoming,
    /// Participants can deposit.
    Joining,
    /// Deposits locked, waiting for resolution.
    Active,
    /// Winner determined, claims enabled.
    Resolved,
}

/// The authoritative record of one betting round: timing, per-side totals
/// and the resolution outcome.
#[derive(Clone, Debug)]
pub struct Pool {
    /// Unique pool identifier.
    pub pool_id: u64,
    /// Asset symbol (e.g. "BTC"), at most 16 characters.
    pub asset: String,
    /// The only principal permitted to resolve the pool.
    pub authority: u64,
    /// When the betting round opens.
    pub start_time: i64,
    /// When the round ends and resolution becomes possible.
    pub end_time: i64,
    /// Deadline for deposits; strictly before `start_time`.
    pub lock_time: i64,
    /// Reference price at round start; zero until resolution.
    pub strike_price: u64,
    /// Settlement price at round end; zero until resolution.
    pub final_price: u64,
    /// Total value deposited on the up side.
    pub total_up: u64,
    /// Total value deposited on the down side.
    pub total_down: u64,
    /// Current lifecycle state.
    pub status: PoolStatus,
    /// Winning side; unset until the pool is resolved, then set exactly once.
    pub winner: Option<Side>,
}

impl Pool {
    /// Well-formedness: the invariants creation establishes and every
    /// operation preserves.
    pub open spec fn wf(self) -> bool {
        &&& self.lock_time < self.start_time < self.end_time
        &&& self.asset@.len() <= 16
        &&& (self.status is Resolved) <==> (self.winner is Some)
        &&& self.status is Resolved ==> ((self.winner == Some(Side::Up)) <==> self.final_price
            > self.strike_price)
        &&& !(self.status is Resolved) ==> self.strike_price == 0 && self.final_price == 0
    }

    /// The aggregate deposited on one side.
    pub open spec fn side_total(self, side: Side) -> u64 {
        match side {
            Side::Up => self.total_up,
            Side::Down => self.total_down,
        }
    }
}

/// One participant's stake-and-side record within a pool. At most one bet
/// exists per (pool, owner) pair.
#[derive(Clone, Copy, PartialEq, Eq, Structural, Debug)]
pub struct UserBet {
    /// Identifier of the pool this bet belongs to.
    pub pool: u64,
    /// The participant who placed the bet.
    pub user: u64,
    /// Side chosen at creation, immutable.
    pub side: Side,
    /// Amount deposited, immutable and greater than zero.
    pub amount: u64,
    /// Whether the payout has been claimed; set true exactly once.
    pub claimed: bool,
}

} // verus!
