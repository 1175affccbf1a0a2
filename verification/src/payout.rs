//! Proportional payout arithmetic and its rounding bounds.

use vstd::prelude::*;
use vstd::arithmetic::div_mod::{
    lemma_div_is_ordered,
    lemma_div_multiples_vanish,
    lemma_fundamental_div_mod,
    lemma_mod_bound,
    lemma_small_mod,
};
use vstd::arithmetic::mul::{
    lemma_mul_inequality,
    lemma_mul_is_commutative,
    lemma_mul_is_distributive_add,
};

verus! {

/// The proportional share owed to a winning stake of `amount`, out of a pot
/// of `total_pool`, where the whole winning side staked `total_winning_side`:
/// `floor(amount * total_pool / total_winning_side)`.
pub open spec fn spec_payout(amount: int, total_pool: int, total_winning_side: int) -> int {
    amount * total_pool / total_winning_side
}

/// A stake no larger than its side's total is owed no more than the pot.
proof fn lemma_payout_le_total(amount: int, total_pool: int, total_winning_side: int)
    requires
        0 < total_winning_side,
        0 <= amount <= total_winning_side,
        0 <= total_pool,
    ensures
        0 <= spec_payout(amount, total_pool, total_winning_side) <= total_pool,
{
    lemma_mul_inequality(amount, total_winning_side, total_pool);
    lemma_div_is_ordered(amount * total_pool, total_winning_side * total_pool, total_winning_side);
    lemma_mul_is_commutative(total_winning_side, total_pool);
    lemma_div_multiples_vanish(total_pool, total_winning_side);
    assert(0 <= amount * total_pool) by (nonlinear_arith)
        requires 0 <= amount && 0 <= total_pool;
    assert(0 <= amount * total_pool / total_winning_side) by (nonlinear_arith)
        requires 0 <= amount * total_pool && 0 < total_winning_side;
}

/// Computes the winning payout with a 128-bit intermediate product, so the
/// multiplication cannot overflow before the truncating division. The result
/// is reduced back to 64 bits; whenever the stake does not exceed its side's
/// total — which holds in every pool whose totals account for its bets — the
/// quotient already fits and the reduction is exact.
pub fn compute_payout(amount: u64, total_pool: u64, total_winning_side: u64) -> (payout: u64)
    requires
        total_winning_side > 0,
    ensures
        payout == spec_payout(amount as int, total_pool as int, total_winning_side as int)
            % 0x10000000000000000,
        amount <= total_winning_side ==> payout == spec_payout(
            amount as int,
            total_pool as int,
            total_winning_side as int,
        ),
{
    proof {
        assert((amount as int) * (total_pool as int) < 0x100000000000000000000000000000000)
            by (nonlinear_arith)
            requires amount <= 0xffffffffffffffffu64 && total_pool <= 0xffffffffffffffffu64;
    }
    let wide: u128 = (amount as u128) * (total_pool as u128);
    let quotient: u128 = wide / (total_winning_side as u128);
    let reduced: u128 = quotient % 0x10000000000000000u128;
    proof {
        let a = amount as int;
        let t = total_pool as int;
        let w = total_winning_side as int;
        lemma_mod_bound(a * t / w, 0x10000000000000000);
        if amount <= total_winning_side {
            lemma_payout_le_total(a, t, w);
            lemma_small_mod((a * t / w) as nat, 0x10000000000000000nat);
        }
    }
    reduced as u64
}

/// The sum of a sequence of stakes.
pub open spec fn amount_sum(amounts: Seq<int>) -> int
    decreases amounts.len(),
{
    if amounts.len() == 0 {
        0
    } else {
        amount_sum(amounts.drop_last()) + amounts.last()
    }
}

/// The sum of the payouts owed to a sequence of winning stakes.
pub open spec fn payout_sum(amounts: Seq<int>, total_pool: int, total_winning_side: int) -> int
    decreases amounts.len(),
{
    if amounts.len() == 0 {
        0
    } else {
        payout_sum(amounts.drop_last(), total_pool, total_winning_side) + spec_payout(
            amounts.last(),
            total_pool,
            total_winning_side,
        )
    }
}

/// A sequence of strictly positive stakes has a strictly positive sum.
proof fn lemma_amount_sum_pos(amounts: Seq<int>)
    requires
        amounts.len() > 0,
        forall|i: int| 0 <= i < amounts.len() ==> amounts[i] > 0,
    ensures
        amount_sum(amounts) > 0,
    decreases amounts.len(),
{
    let pre = amounts.drop_last();
    assert(amounts.last() == amounts[amounts.len() - 1]);
    if amounts.len() > 1 {
        assert(forall|i: int| 0 <= i < pre.len() ==> pre[i] == amounts[i]);
        lemma_amount_sum_pos(pre);
    }
}

/// Scaled by the winning-side total `w`, the payout sum brackets the value
/// `amount_sum(amounts) * total_pool`: each floored quotient loses less than
/// one unit of `w`.
proof fn lemma_payout_sum_scaled(amounts: Seq<int>, total_pool: int, w: int)
    requires
        w > 0,
        total_pool >= 0,
        forall|i: int| 0 <= i < amounts.len() ==> amounts[i] >= 0,
    ensures
        w * payout_sum(amounts, total_pool, w) <= amount_sum(amounts) * total_pool,
        amounts.len() > 0 ==> amount_sum(amounts) * total_pool < w * payout_sum(
            amounts,
            total_pool,
            w,
        ) + w * amounts.len(),
    decreases amounts.len(),
{
    if amounts.len() == 0 {
        assert(amount_sum(amounts) * total_pool == 0) by (nonlinear_arith)
            requires amount_sum(amounts) == 0;
    } else {
        let pre = amounts.drop_last();
        let a = amounts.last();
        assert(a == amounts[amounts.len() - 1]);
        assert(a >= 0);
        assert(forall|i: int| 0 <= i < pre.len() ==> pre[i] == amounts[i]);
        lemma_payout_sum_scaled(pre, total_pool, w);
        let x = a * total_pool;
        let q = x / w;
        assert(x >= 0) by (nonlinear_arith)
            requires a >= 0 && total_pool >= 0 && x == a * total_pool;
        lemma_fundamental_div_mod(x, w);
        lemma_mod_bound(x, w);
        let ps_pre = payout_sum(pre, total_pool, w);
        lemma_mul_is_distributive_add(w, ps_pre, q);
        assert(amount_sum(amounts) * total_pool == amount_sum(pre) * total_pool + x)
            by (nonlinear_arith)
            requires
                amount_sum(amounts) == amount_sum(pre) + a,
                x == a * total_pool,
        ;
        lemma_mul_is_distributive_add(w, pre.len() as int, 1);
    }
}

/// The rounding-dust law: when every winning stake is positive and the pot
/// `total_pool` is at least the winning side's combined stake, the floored
/// proportional payouts never pay out more than the pot, and what the pot
/// retains — the dust — is strictly less than one unit per winning position.
pub proof fn lemma_payout_sum_bounded(amounts: Seq<int>, total_pool: int)
    requires
        amounts.len() > 0,
        forall|i: int| 0 <= i < amounts.len() ==> amounts[i] > 0,
        amount_sum(amounts) <= total_pool,
    ensures
        payout_sum(amounts, total_pool, amount_sum(amounts)) <= total_pool,
        total_pool - payout_sum(amounts, total_pool, amount_sum(amounts)) < amounts.len(),
{
    let w = amount_sum(amounts);
    lemma_amount_sum_pos(amounts);
    lemma_payout_sum_scaled(amounts, total_pool, w);
    let ps = payout_sum(amounts, total_pool, w);
    assert(ps <= total_pool) by (nonlinear_arith)
        requires w > 0 && w * ps <= w * total_pool;
    assert(total_pool - ps < amounts.len()) by (nonlinear_arith)
        requires
            w > 0,
            w * total_pool < w * ps + w * (amounts.len() as int),
    ;
}

} // verus!
