//! The outcome predicate and the payout formula.
use vstd::prelude::*;

verus! {

/// Whether a bet with this prediction wins when the price moves from
/// `start_price` to `end_price`. An unchanged price never wins.
pub open spec fn wins(prediction: bool, start_price: u64, end_price: u64) -> bool {
    if prediction {
        end_price > start_price
    } else {
        end_price < start_price
    }
}

/// What a winning stake of `amount` pays: 90% of it, rounded down.
pub open spec fn payout_of(amount: u64) -> int {
    amount * 90 / 100
}

/// A winning payout never exceeds the stake.
pub proof fn lemma_payout_at_most_amount(amount: u64)
    ensures
        0 <= payout_of(amount) <= amount,
{
    assert(0 <= amount * 90 / 100 <= amount) by (nonlinear_arith);
}

/// Decides whether a bet with this prediction wins.
pub fn is_winning(prediction: bool, start_price: u64, end_price: u64) -> (r: bool)
    ensures
        r == wins(prediction, start_price, end_price),
{
    if prediction {
        end_price > start_price
    } else {
        end_price < start_price
    }
}

/// The payout of a winning stake, computed without intermediate overflow.
pub fn compute_payout(amount: u64) -> (r: u64)
    ensures
        r == payout_of(amount),
        r <= amount,
{
    proof {
        lemma_payout_at_most_amount(amount);
    }
    let wide: u128 = (amount as u128) * 90 / 100;
    wide as u64
}

} // verus!
