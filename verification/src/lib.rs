//! A parimutuel betting-pool settlement engine.
//!
//! A pool accepts two-sided directional wagers on an asset's price over a
//! fixed time window, locks deposits at a deadline, resolves the outcome
//! against a strike/final price pair, and pays winners a proportional share
//! of the combined pot.
//!
//! The engine itself is pure: persistent storage, caller authentication and
//! the token transfers that move value in and out of the vault are external
//! collaborators. Each operation here is a single bounded state transition
//! over plain values; the surrounding host looks records up, performs the
//! value transfer, and commits the new state only when the operation
//! succeeded.

use vstd::prelude::*;

pub mod errors;
pub mod events;
pub mod instructions;
pub mod payout;
pub mod state;

verus! {

/// The two mutually exclusive directional bets.
#[derive(Clone, Copy, PartialEq, Eq, Structural, Debug)]
pub enum Side {
    /// Wager that the final price ends strictly above the strike price.
    Up,
    /// Wager that the final price ends at or below the strike price.
    Down,
}

/// Initializes a new pool. See `instructions::initialize_pool::handler`.
pub fn initialize_pool(
    pool_id: u64,
    asset: String,
    authority: u64,
    start_time: i64,
    end_time: i64,
    lock_time: i64,
) -> (r: Result<(state::Pool, events::PoolCreated), errors::PoolError>)
    requires
        asset@.len() <= 16,
    ensures
        r is Ok <==> lock_time < start_time < end_time,
        r is Err ==> r->Err_0 == errors::PoolError::InvalidTimeConfig,
        r matches Ok((pool, ev)) ==> {
            &&& pool == (state::Pool {
                pool_id,
                asset: ev.asset,
                authority,
                start_time,
                end_time,
                lock_time,
                strike_price: 0,
                final_price: 0,
                total_up: 0,
                total_down: 0,
                status: state::PoolStatus::Joining,
                winner: None,
            })
            &&& pool.asset == asset
            &&& pool.wf()
            &&& ev == (events::PoolCreated {
                pool_id,
                asset,
                authority,
                start_time,
                end_time,
                lock_time,
            })
        },
{
    instructions::initialize_pool::handler(pool_id, asset, authority, start_time, end_time, lock_time)
}

/// Deposits a stake on one side of a pool. See `instructions::deposit::handler`.
pub fn deposit(
    pool: &mut state::Pool,
    user: u64,
    bet_exists: bool,
    side: Side,
    amount: u64,
    now: i64,
) -> (r: Result<(state::UserBet, events::Deposited), errors::PoolError>)
    requires
        old(pool).wf(),
    ensures
        final(pool).wf(),
        r is Ok <==> instructions::deposit::deposit_error(*old(pool), bet_exists, side, amount, now)
            is None,
        r matches Err(e) ==> Some(e) == instructions::deposit::deposit_error(
            *old(pool),
            bet_exists,
            side,
            amount,
            now,
        ) && *final(pool) == *old(pool),
        r matches Ok((bet, ev)) ==> {
            &&& *final(pool) == (state::Pool {
                total_up: final(pool).total_up,
                total_down: final(pool).total_down,
                ..*old(pool)
            })
            &&& side is Up ==> final(pool).total_up == old(pool).total_up + amount
                && final(pool).total_down == old(pool).total_down
            &&& side is Down ==> final(pool).total_down == old(pool).total_down + amount
                && final(pool).total_up == old(pool).total_up
            &&& final(pool).total_up + final(pool).total_down == old(pool).total_up + old(
                pool,
            ).total_down + amount
            &&& bet == (state::UserBet { pool: old(pool).pool_id, user, side, amount, claimed: false })
            &&& ev == (events::Deposited {
                pool_id: old(pool).pool_id,
                user,
                side,
                amount,
                total_up: final(pool).total_up,
                total_down: final(pool).total_down,
            })
        },
{
    instructions::deposit::handler(pool, user, bet_exists, side, amount, now)
}

/// Resolves a pool with its final price (authority only). See
/// `instructions::resolve::handler`.
pub fn resolve(
    pool: &mut state::Pool,
    caller: u64,
    strike_price: u64,
    final_price: u64,
    now: i64,
) -> (r: Result<events::PoolResolved, errors::PoolError>)
    requires
        old(pool).wf(),
    ensures
        final(pool).wf(),
        r is Ok <==> instructions::resolve::resolve_error(*old(pool), caller, now) is None,
        r matches Err(e) ==> Some(e) == instructions::resolve::resolve_error(
            *old(pool),
            caller,
            now,
        ) && *final(pool) == *old(pool),
        r matches Ok(ev) ==> {
            &&& *final(pool) == (state::Pool {
                strike_price,
                final_price,
                status: state::PoolStatus::Resolved,
                winner: Some(instructions::resolve::winning_side(strike_price, final_price)),
                ..*old(pool)
            })
            &&& ev == (events::PoolResolved {
                pool_id: old(pool).pool_id,
                strike_price,
                final_price,
                winner: instructions::resolve::winning_side(strike_price, final_price),
                total_up: old(pool).total_up,
                total_down: old(pool).total_down,
            })
        },
{
    instructions::resolve::handler(pool, caller, strike_price, final_price, now)
}

/// Claims a payout from a resolved pool. See `instructions::claim::handler`.
pub fn claim(pool: &state::Pool, user_bet: &mut state::UserBet) -> (r: Result<
    (u64, events::PayoutClaimed),
    errors::PoolError,
>)
    requires
        pool.wf(),
        old(user_bet).pool == pool.pool_id,
    ensures
        r is Ok <==> instructions::claim::claim_error(*pool, *old(user_bet)) is None,
        r matches Err(e) ==> Some(e) == instructions::claim::claim_error(*pool, *old(user_bet))
            && *final(user_bet) == *old(user_bet),
        r matches Ok((payout, ev)) ==> {
            &&& *final(user_bet) == (state::UserBet { claimed: true, ..*old(user_bet) })
            &&& payout == payout::spec_payout(
                old(user_bet).amount as int,
                pool.total_up + pool.total_down,
                pool.side_total(old(user_bet).side) as int,
            ) % 0x10000000000000000
            &&& old(user_bet).amount <= pool.side_total(old(user_bet).side) ==> payout
                == payout::spec_payout(
                old(user_bet).amount as int,
                pool.total_up + pool.total_down,
                pool.side_total(old(user_bet).side) as int,
            )
            &&& ev == (events::PayoutClaimed {
                pool_id: pool.pool_id,
                user: old(user_bet).user,
                amount: payout,
                side: old(user_bet).side,
            })
        },
{
    instructions::claim::handler(pool, user_bet)
}

} // verus!
