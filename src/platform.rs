//! Platform initialization and bet creation.
use vstd::prelude::*;

verus! {

use crate::state::{
    Bet, BetCreated, ErrorCode, Platform, PlatformInitialized, Pubkey, Transfer, MAX_FEE_BPS,
};

/// The accounts of a platform initialization: the admin who creates it and
/// the wallet designated to receive fees.
#[derive(Clone, Copy, Debug, PartialEq, Eq)]
pub struct InitializePlatform {
    pub admin: Pubkey,
    pub house_wallet: Pubkey,
}

/// The accounts and time of a bet creation: the new bet record's address, the
/// staking player, and the ledger's current time in seconds.
#[derive(Clone, Copy, Debug, PartialEq, Eq)]
pub struct CreateBet {
    pub bet: Pubkey,
    pub player: Pubkey,
    pub now: i64,
}

/// The platform that initialization creates.
pub open spec fn initialized(
    ctx: InitializePlatform,
    house_fee_bps: u16,
    min_bet: u64,
    max_bet: u64,
) -> Platform {
    Platform {
        admin: ctx.admin,
        house_wallet: ctx.house_wallet,
        house_fee_bps,
        min_bet,
        max_bet,
        total_bets: 0,
        total_volume: 0,
        is_active: true,
    }
}

/// Why `platform` refuses a stake of `amount`, if it does: the checks come in
/// this order, and the first that fails decides.
pub open spec fn creation_error(platform: Platform, amount: u64) -> Option<ErrorCode> {
    if !platform.is_active {
        Some(ErrorCode::PlatformInactive)
    } else if amount < platform.min_bet {
        Some(ErrorCode::BetTooSmall)
    } else if amount > platform.max_bet {
        Some(ErrorCode::BetTooLarge)
    } else {
        None
    }
}

/// Whether the running totals can take one more bet of `amount`.
pub open spec fn totals_have_room(platform: Platform, amount: u64) -> bool {
    &&& platform.total_bets < u64::MAX
    &&& platform.total_volume + amount <= u64::MAX
}

/// `platform` with one more bet of `amount` counted.
pub open spec fn counted(platform: Platform, amount: u64) -> Platform {
    Platform {
        total_bets: (platform.total_bets + 1) as u64,
        total_volume: (platform.total_volume + amount) as u64,
        ..platform
    }
}

/// The fresh bet record of a creation.
pub open spec fn opened(
    ctx: CreateBet,
    amount: u64,
    prediction: bool,
    duration: i64,
    token_mint: Pubkey,
) -> Bet {
    Bet {
        player: ctx.player,
        amount,
        prediction,
        token_mint,
        start_time: ctx.now,
        end_time: (ctx.now + duration) as i64,
        start_price: 0,
        end_price: 0,
        is_settled: false,
        is_winner: false,
        payout: 0,
    }
}

/// Creates an active platform with the given fee rate and bet bounds, empty
/// totals, and the caller's admin and house wallet.
pub fn initialize_platform(
    ctx: &InitializePlatform,
    house_fee_bps: u16,
    min_bet: u64,
    max_bet: u64,
) -> (r: (Platform, PlatformInitialized))
    requires
        house_fee_bps <= MAX_FEE_BPS,
        min_bet <= max_bet,
    ensures
        r.0 == initialized(*ctx, house_fee_bps, min_bet, max_bet),
        r.0.wf(),
        r.1 == (PlatformInitialized {
            admin: ctx.admin,
            house_wallet: ctx.house_wallet,
            house_fee_bps,
            min_bet,
            max_bet,
        }),
{
    let platform = Platform {
        admin: ctx.admin,
        house_wallet: ctx.house_wallet,
        house_fee_bps,
        min_bet,
        max_bet,
        total_bets: 0,
        total_volume: 0,
        is_active: true,
    };
    let event = PlatformInitialized {
        admin: platform.admin,
        house_wallet: platform.house_wallet,
        house_fee_bps,
        min_bet,
        max_bet,
    };
    (platform, event)
}

/// Opens a bet of `amount` on `prediction` over the next `duration` seconds.
///
/// Refused, in this order, with `PlatformInactive` on an inactive platform,
/// `BetTooSmall` below the minimum and `BetTooLarge` above the maximum; a
/// refusal changes nothing. Otherwise the platform counts the bet and its
/// volume, and the result holds the new record, the escrow of the stake from
/// the player to the record, and the notification.
pub fn create_bet(
    ctx: &CreateBet,
    platform: &mut Platform,
    amount: u64,
    prediction: bool,
    duration: i64,
    token_mint: Pubkey,
) -> (r: Result<(Bet, Transfer, BetCreated), ErrorCode>)
    requires
        duration > 0,
        creation_error(*old(platform), amount) is None ==> {
            &&& totals_have_room(*old(platform), amount)
            &&& ctx.now + duration <= i64::MAX
        },
    ensures
        match r {
            Ok((bet, escrow, event)) => {
                &&& creation_error(*old(platform), amount) is None
                &&& *final(platform) == counted(*old(platform), amount)
                &&& final(platform).total_bets == old(platform).total_bets + 1
                &&& final(platform).total_volume == old(platform).total_volume + amount
                &&& bet == opened(*ctx, amount, prediction, duration, token_mint)
                &&& bet.wf()
                &&& escrow == (Transfer { from: ctx.player, to: ctx.bet, amount })
                &&& event == (BetCreated {
                    bet: ctx.bet,
                    player: ctx.player,
                    amount,
                    prediction,
                    duration,
                    token_mint,
                })
            },
            Err(e) => {
                &&& creation_error(*old(platform), amount) == Some(e)
                &&& *final(platform) == *old(platform)
            },
        },
        final(platform).total_bets >= old(platform).total_bets,
        final(platform).total_volume >= old(platform).total_volume,
        old(platform).wf() ==> final(platform).wf(),
{
    if !platform.is_active {
        return Err(ErrorCode::PlatformInactive);
    }
    if amount < platform.min_bet {
        return Err(ErrorCode::BetTooSmall);
    }
    if amount > platform.max_bet {
        return Err(ErrorCode::BetTooLarge);
    }
    let bet = Bet {
        player: ctx.player,
        amount,
        prediction,
        token_mint,
        start_time: ctx.now,
        end_time: ctx.now + duration,
        start_price: 0,
        end_price: 0,
        is_settled: false,
        is_winner: false,
        payout: 0,
    };
    let escrow = Transfer { from: ctx.player, to: ctx.bet, amount };
    platform.total_bets = platform.total_bets + 1;
    platform.total_volume = platform.total_volume + amount;
    let event = BetCreated { bet: ctx.bet, player: ctx.player, amount, prediction, duration, token_mint };
    Ok((bet, escrow, event))
}

} // verus!
