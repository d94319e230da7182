//! A binary-outcome prediction market: players escrow a stake on whether a
//! tracked price rises or falls over a fixed window, an oracle records the
//! start and end prices, and settlement pays a winner out of escrow.
//!
//! Every operation is a pure state transition over plain values. The host
//! ledger that persists the records, authenticates callers and moves funds
//! performs the transfers that the operations return, atomically with the
//! state change.
use vstd::prelude::*;

pub mod laws;
pub mod outcome;
pub mod platform;
pub mod settlement;
pub mod state;

pub use state::{
    Bet, BetCreated, BetPriceUpdated, BetSettled, ErrorCode, Platform, PlatformInitialized,
    Pubkey, Transfer,
};
pub use platform::{create_bet, initialize_platform, CreateBet, InitializePlatform};
pub use settlement::{settle_bet, update_bet_price, SettleBet, UpdateBetPrice};
