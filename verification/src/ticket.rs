//! A lottery ticket bought by a user for a draw.

use vstd::prelude::*;
use crate::money::Money;
use crate::ticket_numbers::TicketNumbers;

verus! {

/// The status of a ticket.
#[derive(Debug, Clone, PartialEq, Eq, Structural)]
pub enum TicketStatus {
    /// Awaiting confirmation on the ledger.
    Pending,
    /// Confirmed on the ledger.
    Confirmed,
    /// A winning ticket.
    Won,
    /// A losing ticket.
    Lost,
    /// Cancelled before the draw.
    Cancelled,
}

/// The text a ticket status displays.
pub open spec fn ticket_status_text(s: TicketStatus) -> Seq<char> {
    match s {
        TicketStatus::Pending => "pending"@,
        TicketStatus::Confirmed => "confirmed"@,
        TicketStatus::Won => "won"@,
        TicketStatus::Lost => "lost"@,
        TicketStatus::Cancelled => "cancelled"@,
    }
}

impl TicketStatus {
    /// The text this status displays.
    pub fn to_string(&self) -> (s: String)
        ensures
            s@ == ticket_status_text(*self),
    {
        match self {
            TicketStatus::Pending => String::from_str("pending"),
            TicketStatus::Confirmed => String::from_str("confirmed"),
            TicketStatus::Won => String::from_str("won"),
            TicketStatus::Lost => String::from_str("lost"),
            TicketStatus::Cancelled => String::from_str("cancelled"),
        }
    }
}

/// A ticket. Identifiers are the 128-bit values of UUIDs; the creation time is
/// in nanoseconds since the Unix epoch, UTC.
#[derive(Debug, Clone)]
pub struct Ticket {
    pub id: u128,
    pub user_id: u128,
    pub lottery_draw_id: u128,
    pub numbers: TicketNumbers,
    pub price: Money,
    pub status: TicketStatus,
    pub blockchain_tx_hash: Option<String>,
    pub prize_won: Money,
    pub created_at: i128,
}

} // verus!
