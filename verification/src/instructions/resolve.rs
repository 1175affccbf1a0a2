//! Resolving a pool against its reported prices.

use vstd::prelude::*;
use crate::Side;
use crate::errors::PoolError;
use crate::events::PoolResolved;
use crate::state::{Pool, PoolStatus};

verus! {

/// Why a resolution is rejected, in the order the checks are applied, or
/// `None` when it must succeed. A pool that is already resolved is rejected
/// with `InvalidPoolStatus`, so the outcome can never be overwritten.
pub open spec fn resolve_error(pool: Pool, caller: u64, now: i64) -> Option<PoolError> {
    if caller != pool.authority {
        Some(PoolError::Unauthorized)
    } else if !(pool.status is Joining || pool.status is Active) {
        Some(PoolError::InvalidPoolStatus)
    } else if now < pool.end_time {
        Some(PoolError::PoolNotEnded)
    } else {
        None
    }
}

/// The side a resolution selects: `Up` exactly when the final price ends
/// strictly above the strike price. A tie resolves to `Down` — a deliberate,
/// non-symmetric tie-break.
pub open spec fn winning_side(strike_price: u64, final_price: u64) -> Side {
    if final_price > strike_price {
        Side::Up
    } else {
        Side::Down
    }
}

/// A tie resolves to `Down`: whenever the final price does not end strictly
/// above the strike price, the down side wins.
pub proof fn lemma_tie_resolves_down(strike_price: u64, final_price: u64)
    requires
        final_price <= strike_price,
    ensures
        winning_side(strike_price, final_price) == Side::Down,
{
}

/// Resolution happens exactly once: a resolved pool rejects every further
/// resolution attempt, even by its authority, whatever the prices and the
/// time — so the recorded winner and prices can never be overwritten.
pub proof fn lemma_resolved_pool_rejects_resolution(pool: Pool, caller: u64, now: i64)
    requires
        pool.status is Resolved,
        caller == pool.authority,
    ensures
        resolve_error(pool, caller, now) == Some(PoolError::InvalidPoolStatus),
{
}

/// Records the strike and final prices, selects the winner and moves the
/// pool to `Resolved`, or rejects the call and leaves the pool untouched.
///
/// Succeeds exactly when `resolve_error` is `None`: the caller is the pool's
/// authority, the pool is still `Joining` (or `Active`), and `now` has
/// reached the end time. On success the totals, timing and identity are
/// unchanged and the winner is `winning_side(strike_price, final_price)`.
pub fn handler(
    pool: &mut Pool,
    caller: u64,
    strike_price: u64,
    final_price: u64,
    now: i64,
) -> (r: Result<PoolResolved, PoolError>)
    requires
        old(pool).wf(),
    ensures
        final(pool).wf(),
        r is Ok <==> resolve_error(*old(pool), caller, now) is None,
        r matches Err(e) ==> Some(e) == resolve_error(*old(pool), caller, now) && *final(pool)
            == *old(pool),
        r matches Ok(ev) ==> {
            &&& *final(pool) == (Pool {
                strike_price,
                final_price,
                status: PoolStatus::Resolved,
                winner: Some(winning_side(strike_price, final_price)),
                ..*old(pool)
            })
            &&& ev == (PoolResolved {
                pool_id: old(pool).pool_id,
                strike_price,
                final_price,
                winner: winning_side(strike_price, final_price),
                total_up: old(pool).total_up,
                total_down: old(pool).total_down,
            })
        },
{
    if !(caller == pool.authority) {
        return Err(PoolError::Unauthorized);
    }
    if !(pool.status == PoolStatus::Joining || pool.status == PoolStatus::Active) {
        return Err(PoolError::InvalidPoolStatus);
    }
    if now < pool.end_time {
        return Err(PoolError::PoolNotEnded);
    }
    pool.strike_price = strike_price;
    pool.final_price = final_price;
    let winner = if final_price > strike_price {
        Side::Up
    } else {
        Side::Down
    };
    pool.winner = Some(winner);
    pool.status = PoolStatus::Resolved;
    let ev = PoolResolved {
        pool_id: pool.pool_id,
        strike_price,
        final_price,
        winner,
        total_up: pool.total_up,
        total_down: pool.total_down,
    };
    Ok(ev)
}

} // verus!
