//! Creation of a new pool.

use vstd::prelude::*;
use crate::errors::PoolError;
use crate::events::PoolCreated;
use crate::state::{Pool, PoolStatus};

verus! {

/// Creates a pool in `Joining` state with zeroed totals and prices and no
/// winner, or rejects the time configuration: creation succeeds exactly when
/// `lock_time < start_time < end_time`, and fails with `InvalidTimeConfig`
/// otherwise.
pub fn handler(
    pool_id: u64,
    asset: String,
    authority: u64,
    start_time: i64,
    end_time: i64,
    lock_time: i64,
) -> (r: Result<(Pool, PoolCreated), PoolError>)
    requires
        asset@.len() <= 16,
    ensures
        r is Ok <==> lock_time < start_time < end_time,
        r is Err ==> r->Err_0 == PoolError::InvalidTimeConfig,
        r matches Ok((pool, ev)) ==> {
            &&& pool == (Pool {
                pool_id,
                asset: ev.asset,
                authority,
                start_time,
                end_time,
                lock_time,
                strike_price: 0,
                final_price: 0,
                total_up: 0,
                total_down: 0,
                status: PoolStatus::Joining,
                winner: None,
            })
            &&& pool.asset == asset
            &&& pool.wf()
            &&& ev == (PoolCreated { pool_id, asset, authority, start_time, end_time, lock_time })
        },
{
    if !(lock_time < start_time && start_time < end_time) {
        return Err(PoolError::InvalidTimeConfig);
    }
    let pool = Pool {
        pool_id,
        asset: asset.clone(),
        authority,
        start_time,
        end_time,
        lock_time,
        strike_price: 0,
        final_price: 0,
        total_up: 0,
        total_down: 0,
        status: PoolStatus::Joining,
        winner: None,
    };
    let ev = PoolCreated { pool_id, asset, authority, start_time, end_time, lock_time };
    Ok((pool, ev))
}

} // verus!
