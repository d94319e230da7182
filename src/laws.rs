//! Properties that hold across operations and over every reachable record.
use vstd::prelude::*;

verus! {

use crate::platform::{counted, creation_error, totals_have_room};
use crate::settlement::{price_error, priced, settled, settlement_error};
use crate::state::{Bet, ErrorCode, Platform};

/// An accepted creation counts exactly one more bet and exactly its stake
/// more volume; neither total ever goes down.
pub proof fn lemma_creation_counts(platform: Platform, amount: u64)
    requires
        creation_error(platform, amount) is None,
        totals_have_room(platform, amount),
    ensures
        counted(platform, amount).total_bets == platform.total_bets + 1,
        counted(platform, amount).total_volume == platform.total_volume + amount,
        counted(platform, amount).total_bets >= platform.total_bets,
        counted(platform, amount).total_volume >= platform.total_volume,
{
}

/// In every well-formed record the payout is at most the stake, and a bet
/// that did not win pays nothing.
pub proof fn lemma_payout_bounded(bet: Bet)
    requires
        bet.wf(),
    ensures
        bet.payout <= bet.amount,
        !bet.is_winner ==> bet.payout == 0,
{
    crate::outcome::lemma_payout_at_most_amount(bet.amount);
}

/// Settlement always yields a well-formed record, whatever the record held
/// before and whatever the end price.
pub proof fn lemma_settlement_well_formed(bet: Bet, end_price: u64)
    ensures
        settled(bet, end_price).wf(),
        settled(bet, end_price).payout <= bet.amount,
{
    crate::outcome::lemma_payout_at_most_amount(bet.amount);
}

/// A bet is settled at most once: after one settlement succeeds, every later
/// attempt, at any time and price, is refused with `BetAlreadySettled`, and
/// the start price can no longer be recorded either.
pub proof fn lemma_settles_once(bet: Bet, now: i64, end_price: u64, later: i64)
    requires
        settlement_error(bet, now) is None,
    ensures
        !bet.is_settled,
        settled(bet, end_price).is_settled,
        settlement_error(settled(bet, end_price), later) == Some(ErrorCode::BetAlreadySettled),
        price_error(settled(bet, end_price)) == Some(ErrorCode::BetAlreadySettled),
{
}

/// The start price is written at most once: after a non-zero start price is
/// recorded, every further attempt is refused with `PriceAlreadySet`,
/// whatever the new value. (Zero is the "unset" value, so recording zero
/// leaves the slot open.)
pub proof fn lemma_start_price_written_once(bet: Bet, start_price: u64)
    requires
        price_error(bet) is None,
        start_price != 0,
    ensures
        bet.start_price == 0,
        !bet.is_settled,
        price_error(priced(bet, start_price)) == Some(ErrorCode::PriceAlreadySet),
{
}

/// An unsettled bet cannot be settled before its end time: the attempt is
/// refused with `BetNotExpired`.
pub proof fn lemma_early_settlement_refused(bet: Bet, now: i64)
    requires
        !bet.is_settled,
        now < bet.end_time,
    ensures
        settlement_error(bet, now) == Some(ErrorCode::BetNotExpired),
{
}

} // verus!
