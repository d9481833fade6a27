//! The records that the ledger service keeps and hands out: tickets, wallets
//! and lottery rounds.

use vstd::prelude::*;

verus! {

/// A ticket as recorded on the ledger. Identifiers are the 128-bit values of
/// UUIDs; the timestamp is in seconds since the Unix epoch.
#[derive(Debug, Clone)]
pub struct TicketOnChain {
    pub ticket_id: u128,
    pub user_id: u128,
    pub draw_id: String,
    pub numbers: Vec<i32>,
    pub tx_hash: String,
    pub timestamp: i64,
}

/// A wallet as recorded on the ledger.
#[derive(Debug, Clone)]
pub struct WalletOnChain {
    pub user_id: String,
    pub balance_centimes: i64,
    pub exists: bool,
}

/// A lottery round as recorded on the ledger; times are decimal texts of
/// seconds since the Unix epoch.
#[derive(Debug, Clone)]
pub struct RoundOnChain {
    pub round_id: String,
    pub status: String,
    pub start_time: String,
    pub end_time: String,
    pub winning_numbers: Option<Vec<i32>>,
}

} // verus!
