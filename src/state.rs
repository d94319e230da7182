//! Persisted records, notifications, transfers and the error taxonomy.
use vstd::prelude::*;

verus! {

use crate::outcome::payout_of;

/// A 32-byte account address (an identity on the host ledger).
#[derive(Clone, Copy, Debug, PartialEq, Eq)]
pub struct Pubkey {
    pub bytes: [u8; 32],
}

impl Pubkey {
    /// The address with the given bytes.
    pub fn new_from_array(bytes: [u8; 32]) -> (r: Pubkey)
        ensures
            r.bytes == bytes,
    {
        Pubkey { bytes }
    }

    /// The address's bytes.
    pub fn to_bytes(&self) -> (r: [u8; 32])
        ensures
            r == self.bytes,
    {
        self.bytes
    }
}

/// The platform-wide configuration and running totals.
#[derive(Clone, Copy, Debug, PartialEq, Eq)]
pub struct Platform {
    pub admin: Pubkey,
    pub house_wallet: Pubkey,
    pub house_fee_bps: u16,
    pub min_bet: u64,
    pub max_bet: u64,
    pub total_bets: u64,
    pub total_volume: u64,
    pub is_active: bool,
}

/// The largest fee rate in basis points (100%).
pub const MAX_FEE_BPS: u16 = 10000;

impl Platform {
    /// The configuration's own invariant: a fee rate of at most 100% and
    /// bet bounds in order.
    pub open spec fn wf(&self) -> bool {
        &&& self.house_fee_bps <= MAX_FEE_BPS
        &&& self.min_bet <= self.max_bet
    }
}

/// One wager: the stake, the prediction, the window and its outcome.
#[derive(Clone, Copy, Debug, PartialEq, Eq)]
pub struct Bet {
    pub player: Pubkey,
    pub amount: u64,
    /// `true` predicts that the price rises, `false` that it falls.
    pub prediction: bool,
    pub token_mint: Pubkey,
    pub start_time: i64,
    pub end_time: i64,
    /// 0 means that the oracle has not recorded a start price yet.
    pub start_price: u64,
    pub end_price: u64,
    pub is_settled: bool,
    pub is_winner: bool,
    pub payout: u64,
}

impl Bet {
    /// The record's own invariant: only a settled bet can have won or have an
    /// end price, a winner is owed the payout of its stake, and a loser
    /// nothing.
    pub open spec fn wf(&self) -> bool {
        &&& self.is_winner ==> self.is_settled
        &&& !self.is_settled ==> self.end_price == 0
        &&& self.is_winner ==> self.payout == payout_of(self.amount)
        &&& !self.is_winner ==> self.payout == 0
    }
}

/// A movement of `amount` units from one account to another, to be carried
/// out by the host ledger together with the state change that produced it.
#[derive(Clone, Copy, Debug, PartialEq, Eq)]
pub struct Transfer {
    pub from: Pubkey,
    pub to: Pubkey,
    pub amount: u64,
}

/// Notification of a platform's creation.
#[derive(Clone, Copy, Debug, PartialEq, Eq)]
pub struct PlatformInitialized {
    pub admin: Pubkey,
    pub house_wallet: Pubkey,
    pub house_fee_bps: u16,
    pub min_bet: u64,
    pub max_bet: u64,
}

/// Notification of a new wager.
#[derive(Clone, Copy, Debug, PartialEq, Eq)]
pub struct BetCreated {
    pub bet: Pubkey,
    pub player: Pubkey,
    pub amount: u64,
    pub prediction: bool,
    pub duration: i64,
    pub token_mint: Pubkey,
}

/// Notification of a settlement.
#[derive(Clone, Copy, Debug, PartialEq, Eq)]
pub struct BetSettled {
    pub bet: Pubkey,
    pub player: Pubkey,
    pub end_price: u64,
    pub is_winner: bool,
    pub payout: u64,
}

/// Notification that a start price was recorded.
#[derive(Clone, Copy, Debug, PartialEq, Eq)]
pub struct BetPriceUpdated {
    pub bet: Pubkey,
    pub start_price: u64,
}

/// Why an operation was refused. A refused operation changes nothing.
#[derive(Clone, Copy, Debug, PartialEq, Eq)]
pub enum ErrorCode {
    PlatformInactive,
    BetTooSmall,
    BetTooLarge,
    BetAlreadySettled,
    BetNotExpired,
    PriceAlreadySet,
}

/// The human-readable message of each error.
pub open spec fn message_of(e: ErrorCode) -> Seq<char> {
    match e {
        ErrorCode::PlatformInactive => "Platform is inactive"@,
        ErrorCode::BetTooSmall => "Bet amount too small"@,
        ErrorCode::BetTooLarge => "Bet amount too large"@,
        ErrorCode::BetAlreadySettled => "Bet already settled"@,
        ErrorCode::BetNotExpired => "Bet not expired"@,
        ErrorCode::PriceAlreadySet => "Price already set"@,
    }
}

impl ErrorCode {
    /// The human-readable message of the error.
    pub fn message(&self) -> (r: &'static str)
        ensures
            r@ == message_of(*self),
    {
        match self {
            ErrorCode::PlatformInactive => "Platform is inactive",
            ErrorCode::BetTooSmall => "Bet amount too small",
            ErrorCode::BetTooLarge => "Bet amount too large",
            ErrorCode::BetAlreadySettled => "Bet already settled",
            ErrorCode::BetNotExpired => "Bet not expired",
            ErrorCode::PriceAlreadySet => "Price already set",
        }
    }
}

} // verus!
