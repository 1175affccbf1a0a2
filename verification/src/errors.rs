//! The error taxonomy: every way an operation can reject its input.

use vstd::prelude::*;

verus! {

/// A terminal rejection of a single operation. Every failure is local and
/// synchronous; the caller decides whether to retry with corrected input.
#[derive(Clone, Copy, PartialEq, Eq, Structural, Debug)]
pub enum PoolError {
    /// Pool is not in joining status.
    NotJoining,
    /// Deposit deadline has passed.
    DepositDeadlinePassed,
    /// Pool has not ended yet.
    PoolNotEnded,
    /// Pool is not active.
    NotActive,
    /// Pool is not resolved.
    NotResolved,
    /// Deposit amount must be greater than zero.
    ZeroDeposit,
    /// User bet already exists.
    BetAlreadyExists,
    /// User did not win this pool.
    NotWinner,
    /// Payout already claimed.
    AlreadyClaimed,
    /// Invalid pool status for this operation.
    InvalidPoolStatus,
    /// Unauthorized: only the pool authority can resolve.
    Unauthorized,
    /// Invalid time configuration: the lock time must come before the start
    /// time, and the start time before the end time.
    InvalidTimeConfig,
    /// Arithmetic overflow.
    Overflow,
    /// No bets on the winning side.
    NoWinningBets,
}

} // verus!
