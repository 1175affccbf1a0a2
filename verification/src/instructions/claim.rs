//! Claiming a winning participant's proportional payout.

use vstd::prelude::*;
use crate::Side;
use crate::errors::PoolError;
use crate::events::PayoutClaimed;
use crate::payout::{compute_payout, spec_payout};
use crate::state::{Pool, PoolStatus, UserBet};

verus! {

/// Why a claim is rejected, in the order the checks are applied, or `None`
/// when it must succeed. Losing participants can never claim, a claimed bet
/// can never claim again, and when nobody staked on the side that ended up
/// winning no claim can succeed at all.
pub open spec fn claim_error(pool: Pool, bet: UserBet) -> Option<PoolError> {
    if !(pool.status is Resolved) {
        Some(PoolError::NotResolved)
    } else if bet.claimed {
        Some(PoolError::AlreadyClaimed)
    } else if pool.winner != Some(bet.side) {
        Some(PoolError::NotWinner)
    } else if pool.total_up + pool.total_down > u64::MAX {
        Some(PoolError::Overflow)
    } else if pool.side_total(bet.side) == 0 {
        Some(PoolError::NoWinningBets)
    } else {
        None
    }
}

/// A claimed bet stays claimed: every further claim on it is rejected with
/// `AlreadyClaimed`, so no position is ever paid twice.
pub proof fn lemma_claimed_bet_rejects_claim(pool: Pool, bet: UserBet)
    requires
        pool.status is Resolved,
        bet.claimed,
    ensures
        claim_error(pool, bet) == Some(PoolError::AlreadyClaimed),
{
}

/// A bet on the losing side can never claim: it is rejected with
/// `NotWinner`, claimed or not set aside.
pub proof fn lemma_losing_bet_rejects_claim(pool: Pool, bet: UserBet)
    requires
        pool.status is Resolved,
        !bet.claimed,
        pool.winner != Some(bet.side),
    ensures
        claim_error(pool, bet) == Some(PoolError::NotWinner),
{
}

/// When the side that ended up winning holds no stake at all, no claim on
/// the pool can succeed: a bet on the winning side is rejected with
/// `NoWinningBets`, and any other bet is rejected before that check.
pub proof fn lemma_empty_winning_side_blocks_claims(pool: Pool, bet: UserBet)
    requires
        pool.status is Resolved,
        pool.winner is Some,
        pool.side_total(pool.winner->0) == 0,
    ensures
        claim_error(pool, bet) is Some,
        !bet.claimed && pool.winner == Some(bet.side) && pool.total_up + pool.total_down
            <= u64::MAX ==> claim_error(pool, bet) == Some(PoolError::NoWinningBets),
{
}

/// Pays a winning bet its floored proportional share of the combined pot and
/// marks the bet claimed, or rejects the claim and leaves the bet untouched.
///
/// Succeeds exactly when `claim_error` is `None`: the pool is resolved, the
/// bet is unclaimed and on the winning side, the combined pot fits in 64
/// bits and the winning side's total is positive. On success the payout is
/// `spec_payout(amount, total_up + total_down, winning side total)` reduced
/// to 64 bits — exact whenever the stake does not exceed its side's total,
/// which holds in every pool whose totals account for its bets — and only
/// the claimed flag of the bet changes. The caller marks the stored bet
/// claimed only once the matching value transfer out of the vault has
/// succeeded.
pub fn handler(pool: &Pool, user_bet: &mut UserBet) -> (r: Result<(u64, PayoutClaimed), PoolError>)
    requires
        pool.wf(),
        old(user_bet).pool == pool.pool_id,
    ensures
        r is Ok <==> claim_error(*pool, *old(user_bet)) is None,
        r matches Err(e) ==> Some(e) == claim_error(*pool, *old(user_bet)) && *final(user_bet)
            == *old(user_bet),
        r matches Ok((payout, ev)) ==> {
            &&& *final(user_bet) == (UserBet { claimed: true, ..*old(user_bet) })
            &&& payout == spec_payout(
                old(user_bet).amount as int,
                pool.total_up + pool.total_down,
                pool.side_total(old(user_bet).side) as int,
            ) % 0x10000000000000000
            &&& old(user_bet).amount <= pool.side_total(old(user_bet).side) ==> payout
                == spec_payout(
                old(user_bet).amount as int,
                pool.total_up + pool.total_down,
                pool.side_total(old(user_bet).side) as int,
            )
            &&& ev == (PayoutClaimed {
                pool_id: pool.pool_id,
                user: old(user_bet).user,
                amount: payout,
                side: old(user_bet).side,
            })
        },
{
    if !(pool.status == PoolStatus::Resolved) {
        return Err(PoolError::NotResolved);
    }
    if user_bet.claimed {
        return Err(PoolError::AlreadyClaimed);
    }
    let winner = match pool.winner {
        Some(w) => w,
        None => {
            return Err(PoolError::NotResolved);
        },
    };
    if !(user_bet.side == winner) {
        return Err(PoolError::NotWinner);
    }
    if pool.total_up > u64::MAX - pool.total_down {
        return Err(PoolError::Overflow);
    }
    let total_pool: u64 = pool.total_up + pool.total_down;
    let total_winning_side: u64 = match winner {
        Side::Up => pool.total_up,
        Side::Down => pool.total_down,
    };
    if total_winning_side == 0 {
        return Err(PoolError::NoWinningBets);
    }
    let payout = compute_payout(user_bet.amount, total_pool, total_winning_side);
    user_bet.claimed = true;
    let ev = PayoutClaimed {
        pool_id: pool.pool_id,
        user: user_bet.user,
        amount: payout,
        side: user_bet.side,
    };
    Ok((payout, ev))
}

} // verus!
