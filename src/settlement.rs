//! The oracle's operations on a bet: recording the start price, and settling
//! the bet once its window has closed.
use vstd::prelude::*;

verus! {

use crate::outcome::{compute_payout, is_winning, payout_of, wins};
use crate::state::{Bet, BetPriceUpdated, BetSettled, ErrorCode, Pubkey, Transfer};

/// The accounts of a start-price update: the bet record's address.
#[derive(Clone, Copy, Debug, PartialEq, Eq)]
pub struct UpdateBetPrice {
    pub bet: Pubkey,
}

/// The accounts and time of a settlement: the bet record's address and the
/// ledger's current time in seconds.
#[derive(Clone, Copy, Debug, PartialEq, Eq)]
pub struct SettleBet {
    pub bet: Pubkey,
    pub now: i64,
}

/// Why a start price cannot be recorded on `bet`, if it cannot.
pub open spec fn price_error(bet: Bet) -> Option<ErrorCode> {
    if bet.is_settled {
        Some(ErrorCode::BetAlreadySettled)
    } else if bet.start_price != 0 {
        Some(ErrorCode::PriceAlreadySet)
    } else {
        None
    }
}

/// `bet` with its start price recorded.
pub open spec fn priced(bet: Bet, start_price: u64) -> Bet {
    Bet { start_price, ..bet }
}

/// Why `bet` cannot be settled at time `now`, if it cannot.
pub open spec fn settlement_error(bet: Bet, now: i64) -> Option<ErrorCode> {
    if bet.is_settled {
        Some(ErrorCode::BetAlreadySettled)
    } else if now < bet.end_time {
        Some(ErrorCode::BetNotExpired)
    } else {
        None
    }
}

/// `bet` settled at `end_price`.
pub open spec fn settled(bet: Bet, end_price: u64) -> Bet {
    let won = wins(bet.prediction, bet.start_price, end_price);
    Bet {
        end_price,
        is_settled: true,
        is_winner: won,
        payout: if won {
            payout_of(bet.amount) as u64
        } else {
            0
        },
        ..bet
    }
}

/// Records the start price of a bet, once, while it is unsettled.
///
/// Refused with `BetAlreadySettled` on a settled bet, else with
/// `PriceAlreadySet` when a start price is already recorded; a refusal leaves
/// the bet as it was.
pub fn update_bet_price(ctx: &UpdateBetPrice, bet: &mut Bet, start_price: u64) -> (r: Result<
    BetPriceUpdated,
    ErrorCode,
>)
    ensures
        match r {
            Ok(event) => {
                &&& price_error(*old(bet)) is None
                &&& *final(bet) == priced(*old(bet), start_price)
                &&& event == (BetPriceUpdated { bet: ctx.bet, start_price })
            },
            Err(e) => {
                &&& price_error(*old(bet)) == Some(e)
                &&& *final(bet) == *old(bet)
            },
        },
        old(bet).wf() ==> final(bet).wf(),
{
    if bet.is_settled {
        return Err(ErrorCode::BetAlreadySettled);
    }
    if bet.start_price != 0 {
        return Err(ErrorCode::PriceAlreadySet);
    }
    bet.start_price = start_price;
    Ok(BetPriceUpdated { bet: ctx.bet, start_price })
}

/// Settles a bet at `end_price` once its window has closed, and returns the
/// notification and, for a winner, the payout to move from the bet's escrow
/// to its player.
///
/// Refused with `BetAlreadySettled` on a settled bet, else with
/// `BetNotExpired` before the bet's end time; a refusal leaves the bet as it
/// was. A losing bet is settled too, with no payout.
pub fn settle_bet(ctx: &SettleBet, bet: &mut Bet, end_price: u64) -> (r: Result<
    (BetSettled, Option<Transfer>),
    ErrorCode,
>)
    ensures
        match r {
            Ok((event, payment)) => {
                &&& settlement_error(*old(bet), ctx.now) is None
                &&& *final(bet) == settled(*old(bet), end_price)
                &&& final(bet).wf()
                &&& final(bet).payout <= final(bet).amount
                &&& event == (BetSettled {
                    bet: ctx.bet,
                    player: old(bet).player,
                    end_price,
                    is_winner: final(bet).is_winner,
                    payout: final(bet).payout,
                })
                &&& payment == if final(bet).is_winner {
                    Some(Transfer { from: ctx.bet, to: old(bet).player, amount: final(bet).payout })
                } else {
                    None
                }
            },
            Err(e) => {
                &&& settlement_error(*old(bet), ctx.now) == Some(e)
                &&& *final(bet) == *old(bet)
            },
        },
{
    if bet.is_settled {
        return Err(ErrorCode::BetAlreadySettled);
    }
    if ctx.now < bet.end_time {
        return Err(ErrorCode::BetNotExpired);
    }
    bet.end_price = end_price;
    bet.is_settled = true;
    bet.is_winner = is_winning(bet.prediction, bet.start_price, end_price);
    let mut payment: Option<Transfer> = None;
    if bet.is_winner {
        let payout = compute_payout(bet.amount);
        bet.payout = payout;
        payment = Some(Transfer { from: ctx.bet, to: bet.player, amount: payout });
    } else {
        bet.payout = 0;
    }
    let event = BetSettled {
        bet: ctx.bet,
        player: bet.player,
        end_price,
        is_winner: bet.is_winner,
        payout: bet.payout,
    };
    Ok((event, payment))
}

} // verus!
