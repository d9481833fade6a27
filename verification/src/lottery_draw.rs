//! A scheduled lottery draw and its lifecycle: scheduled, open for tickets
//! (in progress), completed with winning numbers, or cancelled.

use vstd::prelude::*;
use crate::money::Money;
use crate::clock::{latest_nanos, now_nanos};
use crate::outside::random_uuid;
use crate::text::is_v4_uuid;

verus! {

/// The status of a draw.
#[derive(Debug, Clone, PartialEq, Eq, Structural)]
pub enum DrawStatus {
    Scheduled,
    InProgress,
    Completed,
    Cancelled,
}

/// The text a draw status displays.
pub open spec fn draw_status_text(s: DrawStatus) -> Seq<char> {
    match s {
        DrawStatus::Scheduled => "scheduled"@,
        DrawStatus::InProgress => "in_progress"@,
        DrawStatus::Completed => "completed"@,
        DrawStatus::Cancelled => "cancelled"@,
    }
}

impl DrawStatus {
    /// The text this status displays.
    pub fn to_string(&self) -> (s: String)
        ensures
            s@ == draw_status_text(*self),
    {
        match self {
            DrawStatus::Scheduled => String::from_str("scheduled"),
            DrawStatus::InProgress => String::from_str("in_progress"),
            DrawStatus::Completed => String::from_str("completed"),
            DrawStatus::Cancelled => String::from_str("cancelled"),
        }
    }
}

/// A draw accepts tickets while it is scheduled or in progress.
pub open spec fn status_accepts_tickets(s: DrawStatus) -> bool {
    s == DrawStatus::Scheduled || s == DrawStatus::InProgress
}

/// A lottery draw. Identifiers are the 128-bit values of UUIDs; times are
/// nanoseconds since the Unix epoch, UTC.
#[derive(Debug, Clone)]
pub struct LotteryDraw {
    pub id: u128,
    pub draw_name: String,
    pub draw_date: i128,
    pub winning_numbers: Option<Vec<i32>>,
    pub prize_pool: Money,
    pub status: DrawStatus,
    pub blockchain_tx_hash: Option<String>,
    pub created_at: i128,
    pub updated_at: i128,
}

impl LotteryDraw {
    /// A new scheduled draw with identifier `id`, created at `now`, with an
    /// empty prize pool and no winning numbers.
    pub fn new_at(id: u128, now: i128, draw_name: String, draw_date: i128) -> (d: LotteryDraw)
        ensures
            d.id == id,
            d.draw_name == draw_name,
            d.draw_date == draw_date,
            d.winning_numbers is None,
            d.prize_pool@ == 0,
            d.status == DrawStatus::Scheduled,
            d.blockchain_tx_hash is None,
            d.created_at == now,
            d.updated_at == now,
    {
        LotteryDraw {
            id,
            draw_name,
            draw_date,
            winning_numbers: None,
            prize_pool: Money::zero(),
            status: DrawStatus::Scheduled,
            blockchain_tx_hash: None,
            created_at: now,
            updated_at: now,
        }
    }

    /// A new scheduled draw with a random version-4 identifier, created now.
    pub fn new(draw_name: String, draw_date: i128) -> (d: LotteryDraw)
        ensures
            is_v4_uuid(d.id),
            d.draw_name == draw_name,
            d.draw_date == draw_date,
            d.winning_numbers is None,
            d.prize_pool@ == 0,
            d.status == DrawStatus::Scheduled,
            d.blockchain_tx_hash is None,
            d.created_at == d.updated_at,
    {
        let id = random_uuid();
        let now = now_nanos();
        Self::new_at(id, now, draw_name, draw_date)
    }

    /// Whether the draw accepts tickets (scheduled or in progress).
    pub fn is_open(&self) -> (b: bool)
        ensures
            b == status_accepts_tickets(self.status),
    {
        self.status == DrawStatus::Scheduled || self.status == DrawStatus::InProgress
    }

    /// Whether the draw is completed.
    pub fn is_completed(&self) -> (b: bool)
        ensures
            b == (self.status == DrawStatus::Completed),
    {
        self.status == DrawStatus::Completed
    }

    /// Starts accepting tickets at `now`: a scheduled draw goes in progress;
    /// a draw in any other status is left unchanged.
    pub fn open_at(&mut self, now: i128)
        ensures
            old(self).status == DrawStatus::Scheduled ==> *final(self) == (LotteryDraw {
                status: DrawStatus::InProgress,
                updated_at: now,
                ..*old(self)
            }),
            old(self).status != DrawStatus::Scheduled ==> *final(self) == *old(self),
    {
        if self.status == DrawStatus::Scheduled {
            self.status = DrawStatus::InProgress;
            self.updated_at = now;
        }
    }

    /// Starts accepting tickets: a scheduled draw goes in progress, stamped
    /// with the current time; a draw in any other status is left unchanged.
    pub fn open(&mut self)
        ensures
            old(self).status == DrawStatus::Scheduled ==> *final(self) == (LotteryDraw {
                status: DrawStatus::InProgress,
                updated_at: final(self).updated_at,
                ..*old(self)
            }),
            old(self).status != DrawStatus::Scheduled ==> *final(self) == *old(self),
    {
        if self.status == DrawStatus::Scheduled {
            let now = now_nanos();
            self.open_at(now);
        }
    }

    /// Adds `amount` to the prize pool at `now` (a ticket was bought).
    pub fn add_to_prize_pool_at(&mut self, amount: &Money, now: i128)
        requires
            i64::MIN <= old(self).prize_pool@ + amount@ <= i64::MAX,
        ensures
            final(self).prize_pool@ == old(self).prize_pool@ + amount@,
            *final(self) == (LotteryDraw {
                prize_pool: final(self).prize_pool,
                updated_at: now,
                ..*old(self)
            }),
    {
        self.prize_pool = Money::from_centimes(self.prize_pool.centimes() + amount.centimes());
        self.updated_at = now;
    }

    /// Adds `amount` to the prize pool (a ticket was bought), stamped with the
    /// current time.
    pub fn add_to_prize_pool(&mut self, amount: &Money)
        requires
            i64::MIN <= old(self).prize_pool@ + amount@ <= i64::MAX,
        ensures
            final(self).prize_pool@ == old(self).prize_pool@ + amount@,
            *final(self) == (LotteryDraw {
                prize_pool: final(self).prize_pool,
                updated_at: final(self).updated_at,
                ..*old(self)
            }),
    {
        let now = now_nanos();
        self.add_to_prize_pool_at(amount, now);
    }

    /// Completes the draw at `now` with its winning numbers and the hash of
    /// the ledger transaction that records them.
    pub fn complete_at(&mut self, winning_numbers: Vec<i32>, tx_hash: String, now: i128)
        ensures
            *final(self) == (LotteryDraw {
                winning_numbers: Some(winning_numbers),
                blockchain_tx_hash: Some(tx_hash),
                status: DrawStatus::Completed,
                updated_at: now,
                ..*old(self)
            }),
    {
        self.winning_numbers = Some(winning_numbers);
        self.blockchain_tx_hash = Some(tx_hash);
        self.status = DrawStatus::Completed;
        self.updated_at = now;
    }

    /// Completes the draw with its winning numbers and the hash of the ledger
    /// transaction that records them, stamped with the current time.
    pub fn complete(&mut self, winning_numbers: Vec<i32>, tx_hash: String)
        ensures
            *final(self) == (LotteryDraw {
                winning_numbers: Some(winning_numbers),
                blockchain_tx_hash: Some(tx_hash),
                status: DrawStatus::Completed,
                updated_at: final(self).updated_at,
                ..*old(self)
            }),
    {
        let now = now_nanos();
        self.complete_at(winning_numbers, tx_hash, now);
    }

    /// Cancels the draw at `now`.
    pub fn cancel_at(&mut self, now: i128)
        ensures
            *final(self) == (LotteryDraw {
                status: DrawStatus::Cancelled,
                updated_at: now,
                ..*old(self)
            }),
    {
        self.status = DrawStatus::Cancelled;
        self.updated_at = now;
    }

    /// Cancels the draw, stamped with the current time.
    pub fn cancel(&mut self)
        ensures
            *final(self) == (LotteryDraw {
                status: DrawStatus::Cancelled,
                updated_at: final(self).updated_at,
                ..*old(self)
            }),
    {
        let now = now_nanos();
        self.cancel_at(now);
    }

    /// Whether the draw date lies before `now`.
    pub fn is_past_draw_date_at(&self, now: i128) -> (b: bool)
        ensures
            b == (now > self.draw_date),
    {
        now > self.draw_date
    }

    /// Whether the draw date has passed, by the current time. The answer
    /// depends on the clock; it is settled only for a draw date outside the
    /// range of times the clock can report: one before it has passed, one
    /// after it has not.
    pub fn is_past_draw_date(&self) -> (b: bool)
        ensures
            self.draw_date < 0 ==> b,
            self.draw_date >= latest_nanos() ==> !b,
    {
        let now = now_nanos();
        self.is_past_draw_date_at(now)
    }
}

} // verus!
