//! Accepting a participant's stake into a pool.

use vstd::prelude::*;
use crate::Side;
use crate::errors::PoolError;
use crate::events::Deposited;
use crate::state::{Pool, PoolStatus, UserBet};

verus! {

/// Why a deposit is rejected, in the order the checks are applied, or `None`
/// when it must succeed. `bet_exists` reports whether the record store
/// already holds a bet for this (pool, participant) pair; a duplicate is
/// rejected before the amount is even looked at.
pub open spec fn deposit_error(
    pool: Pool,
    bet_exists: bool,
    side: Side,
    amount: u64,
    now: i64,
) -> Option<PoolError> {
    if !(pool.status is Joining) {
        Some(PoolError::NotJoining)
    } else if bet_exists {
        Some(PoolError::BetAlreadyExists)
    } else if amount == 0 {
        Some(PoolError::ZeroDeposit)
    } else if now >= pool.lock_time {
        Some(PoolError::DepositDeadlinePassed)
    } else if pool.side_total(side) + amount > u64::MAX {
        Some(PoolError::Overflow)
    } else {
        None
    }
}

/// A participant who already holds a bet in a pool can never open another:
/// whatever side or amount is chosen — a zero amount included — the deposit
/// is rejected with `BetAlreadyExists`, never merged or overwritten.
pub proof fn lemma_duplicate_deposit_rejected(
    pool: Pool,
    side: Side,
    amount: u64,
    now: i64,
)
    requires
        pool.status is Joining,
    ensures
        deposit_error(pool, true, side, amount, now) == Some(PoolError::BetAlreadyExists),
{
}

/// Once the lock deadline has been reached, every deposit is rejected with
/// `DepositDeadlinePassed`, even though the pool is still `Joining`.
pub proof fn lemma_deposit_after_deadline_rejected(
    pool: Pool,
    bet_exists: bool,
    side: Side,
    amount: u64,
    now: i64,
)
    requires
        pool.status is Joining,
        !bet_exists,
        amount > 0,
        now >= pool.lock_time,
    ensures
        deposit_error(pool, bet_exists, side, amount, now) == Some(
            PoolError::DepositDeadlinePassed,
        ),
{
}

/// A pool that is no longer joining — a resolved pool in particular —
/// rejects every deposit, so its totals never change after resolution.
pub proof fn lemma_deposit_after_joining_rejected(
    pool: Pool,
    bet_exists: bool,
    side: Side,
    amount: u64,
    now: i64,
)
    requires
        !(pool.status is Joining),
    ensures
        deposit_error(pool, bet_exists, side, amount, now) == Some(PoolError::NotJoining),
{
}

/// Adds `amount` to the chosen side of a joining pool and creates the
/// participant's bet record, or rejects the deposit and leaves the pool
/// untouched.
///
/// Succeeds exactly when `deposit_error` is `None`: the pool is joining, no
/// bet exists yet for this participant, the amount is positive, `now` is
/// still before the lock deadline, and the side's running total does not
/// overflow. On success only the chosen side's total changes, so the sum of
/// the two totals grows by exactly `amount`; the caller commits the new pool
/// and bet records only once the matching value transfer into the vault has
/// succeeded.
pub fn handler(
    pool: &mut Pool,
    user: u64,
    bet_exists: bool,
    side: Side,
    amount: u64,
    now: i64,
) -> (r: Result<(UserBet, Deposited), PoolError>)
    requires
        old(pool).wf(),
    ensures
        final(pool).wf(),
        r is Ok <==> deposit_error(*old(pool), bet_exists, side, amount, now) is None,
        r matches Err(e) ==> Some(e) == deposit_error(*old(pool), bet_exists, side, amount, now)
            && *final(pool) == *old(pool),
        r matches Ok((bet, ev)) ==> {
            &&& *final(pool) == (Pool {
                total_up: final(pool).total_up,
                total_down: final(pool).total_down,
                ..*old(pool)
            })
            &&& side is Up ==> final(pool).total_up == old(pool).total_up + amount
                && final(pool).total_down == old(pool).total_down
            &&& side is Down ==> final(pool).total_down == old(pool).total_down + amount
                && final(pool).total_up == old(pool).total_up
            &&& final(pool).total_up + final(pool).total_down == old(pool).total_up + old(
                pool,
            ).total_down + amount
            &&& bet == (UserBet { pool: old(pool).pool_id, user, side, amount, claimed: false })
            &&& ev == (Deposited {
                pool_id: old(pool).pool_id,
                user,
                side,
                amount,
                total_up: final(pool).total_up,
                total_down: final(pool).total_down,
            })
        },
{
    if !(pool.status == PoolStatus::Joining) {
        return Err(PoolError::NotJoining);
    }
    if bet_exists {
        return Err(PoolError::BetAlreadyExists);
    }
    if amount == 0 {
        return Err(PoolError::ZeroDeposit);
    }
    if now >= pool.lock_time {
        return Err(PoolError::DepositDeadlinePassed);
    }
    match side {
        Side::Up => {
            if pool.total_up > u64::MAX - amount {
                return Err(PoolError::Overflow);
            }
            pool.total_up = pool.total_up + amount;
        },
        Side::Down => {
            if pool.total_down > u64::MAX - amount {
                return Err(PoolError::Overflow);
            }
            pool.total_down = pool.total_down + amount;
        },
    }
    let bet = UserBet { pool: pool.pool_id, user, side, amount, claimed: false };
    let ev = Deposited {
        pool_id: pool.pool_id,
        user,
        side,
        amount,
        total_up: pool.total_up,
        total_down: pool.total_down,
    };
    Ok((bet, ev))
}

} // verus!
