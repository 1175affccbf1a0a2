use parimutuel_pools::Side;
use parimutuel_pools::payout::compute_payout;
use parimutuel_pools::state::UserBet;
use parimutuel_pools::{claim, deposit, initialize_pool, resolve};

#[test]
fn compute_payout_exact_values() {
    assert_eq!(compute_payout(150, 400, 300), 200);
    assert_eq!(compute_payout(1, 103, 3), 34);
    assert_eq!(compute_payout(0, 400, 300), 0);
    assert_eq!(compute_payout(300, 400, 300), 400);
    assert_eq!(compute_payout(u64::MAX, u64::MAX, u64::MAX), u64::MAX);
    assert_eq!(compute_payout(7, 10, 3), 23);
    // A stake above its side's total only arises from inconsistent records;
    // the quotient is then reduced to 64 bits: 4 * u64::MAX / 2 wraps to
    // u64::MAX - 1.
    assert_eq!(compute_payout(4, u64::MAX, 2), u64::MAX - 1);
}

#[test]
fn payout_sum_within_dust_bound() {
    let (mut pool, _) = initialize_pool(1, String::from("ETH"), 9, 100, 200, 50).unwrap();
    for user in [21u64, 22, 23] {
        deposit(&mut pool, user, false, Side::Up, 1, 10).unwrap();
    }
    deposit(&mut pool, 30, false, Side::Down, 100, 10).unwrap();
    resolve(&mut pool, 9, 500, 501, 200).unwrap();
    let total_pool = pool.total_up + pool.total_down;
    assert_eq!(total_pool, 103);
    let mut paid: u64 = 0;
    let mut winners: u64 = 0;
    for user in [21u64, 22, 23] {
        let mut bet = UserBet { pool: 1, user, side: Side::Up, amount: 1, claimed: false };
        let (payout, _) = claim(&pool, &mut bet).unwrap();
        assert_eq!(payout, 34);
        paid += payout;
        winners += 1;
    }
    assert!(paid <= total_pool);
    assert!(total_pool - paid < winners);
}

#[test]
fn payout_sum_no_dust_when_division_is_even() {
    let (mut pool, _) = initialize_pool(1, String::from("ETH"), 9, 100, 200, 50).unwrap();
    deposit(&mut pool, 21, false, Side::Up, 100, 10).unwrap();
    deposit(&mut pool, 22, false, Side::Up, 300, 10).unwrap();
    deposit(&mut pool, 30, false, Side::Down, 400, 10).unwrap();
    resolve(&mut pool, 9, 500, 501, 200).unwrap();
    let mut first = UserBet { pool: 1, user: 21, side: Side::Up, amount: 100, claimed: false };
    let mut second = UserBet { pool: 1, user: 22, side: Side::Up, amount: 300, claimed: false };
    let (p1, _) = claim(&pool, &mut first).unwrap();
    let (p2, _) = claim(&pool, &mut second).unwrap();
    assert_eq!(p1, 200);
    assert_eq!(p2, 600);
    assert_eq!(p1 + p2, pool.total_up + pool.total_down);
}
