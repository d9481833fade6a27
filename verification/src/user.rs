//! A registered user of the platform and the balance of their account.

use vstd::prelude::*;
use crate::money::Money;
use crate::clock::now_nanos;
use crate::outside::random_uuid;
use crate::text::{hundredths_amount_text, is_v4_uuid, push_hundredths_amount};

verus! {

/// The status of a user account.
#[derive(Debug, Clone, PartialEq, Eq, Structural)]
pub enum UserStatus {
    Active,
    Suspended,
    PendingVerification,
}

/// The text a user status displays.
pub open spec fn user_status_text(s: UserStatus) -> Seq<char> {
    match s {
        UserStatus::Active => "active"@,
        UserStatus::Suspended => "suspended"@,
        UserStatus::PendingVerification => "pending_verification"@,
    }
}

impl UserStatus {
    /// The text this status displays.
    pub fn to_string(&self) -> (s: String)
        ensures
            s@ == user_status_text(*self),
    {
        match self {
            UserStatus::Active => String::from_str("active"),
            UserStatus::Suspended => String::from_str("suspended"),
            UserStatus::PendingVerification => String::from_str("pending_verification"),
        }
    }
}

/// A user. The identifier is the 128-bit value of a UUID; times are
/// nanoseconds since the Unix epoch, UTC.
#[derive(Debug, Clone)]
pub struct User {
    pub id: u128,
    pub phone_number: String,
    pub hashed_password: String,
    pub balance: Money,
    pub status: UserStatus,
    pub created_at: i128,
    pub updated_at: i128,
}

/// A user's wallet.
#[derive(Debug, Clone)]
pub struct Wallet {
    pub user_id: u128,
    pub currency: String,
    pub balance: Money,
    pub last_updated: i128,
}

/// The balance after debiting `amount` from `balance`, or `None` when the
/// balance does not cover it.
pub open spec fn debited(balance: int, amount: int) -> Option<int> {
    if balance >= amount {
        Some(balance - amount)
    } else {
        None
    }
}

/// The message of a refused debit; amounts are shown in FCFA.
pub open spec fn insufficient_balance_message(required: int, available: int) -> Seq<char> {
    "Solde insuffisant: requis "@ + hundredths_amount_text(required) + " FCFA, disponible "@
        + hundredths_amount_text(available) + " FCFA"@
}

impl User {
    /// A new user with identifier `id`, created at `now`, with a zero balance,
    /// awaiting verification.
    pub fn new_at(id: u128, now: i128, phone_number: String, hashed_password: String) -> (u: User)
        ensures
            u.id == id,
            u.phone_number == phone_number,
            u.hashed_password == hashed_password,
            u.balance@ == 0,
            u.status == UserStatus::PendingVerification,
            u.created_at == now,
            u.updated_at == now,
    {
        User {
            id,
            phone_number,
            hashed_password,
            balance: Money::zero(),
            status: UserStatus::PendingVerification,
            created_at: now,
            updated_at: now,
        }
    }

    /// A new user with a random version-4 identifier, created now, with a
    /// zero balance, awaiting verification.
    pub fn new(phone_number: String, hashed_password: String) -> (u: User)
        ensures
            is_v4_uuid(u.id),
            u.phone_number == phone_number,
            u.hashed_password == hashed_password,
            u.balance@ == 0,
            u.status == UserStatus::PendingVerification,
            u.created_at == u.updated_at,
    {
        let id = random_uuid();
        let now = now_nanos();
        Self::new_at(id, now, phone_number, hashed_password)
    }

    /// Whether the balance covers `amount`.
    pub fn can_afford(&self, amount: &Money) -> (b: bool)
        ensures
            b == (self.balance@ >= amount@),
    {
        self.balance.centimes() >= amount.centimes()
    }

    /// Debits `amount` at `now`. When the balance does not cover it, the user
    /// is left unchanged and the error tells the amounts.
    pub fn debit_at(&mut self, amount: &Money, now: i128) -> (r: Result<(), String>)
        requires
            old(self).balance@ - amount@ <= i64::MAX,
        ensures
            r is Ok <==> debited(old(self).balance@, amount@) is Some,
            r is Ok ==> Some(final(self).balance@) == debited(old(self).balance@, amount@)
                && *final(self) == (User {
                balance: final(self).balance,
                updated_at: now,
                ..*old(self)
            }),
            r matches Err(m) ==> m@ == insufficient_balance_message(amount@, old(self).balance@)
                && *final(self) == *old(self),
    {
        if !self.can_afford(amount) {
            let mut m = String::from_str("Solde insuffisant: requis ");
            push_hundredths_amount(&mut m, amount.centimes());
            m.append(" FCFA, disponible ");
            push_hundredths_amount(&mut m, self.balance.centimes());
            m.append(" FCFA");
            return Err(m);
        }
        self.balance = Money::from_centimes(self.balance.centimes() - amount.centimes());
        self.updated_at = now;
        Ok(())
    }

    /// Debits `amount`, stamped with the current time. When the balance does
    /// not cover it, the user is left unchanged and the error tells the
    /// amounts.
    pub fn debit(&mut self, amount: &Money) -> (r: Result<(), String>)
        requires
            old(self).balance@ - amount@ <= i64::MAX,
        ensures
            r is Ok <==> debited(old(self).balance@, amount@) is Some,
            r is Ok ==> Some(final(self).balance@) == debited(old(self).balance@, amount@)
                && *final(self) == (User {
                balance: final(self).balance,
                updated_at: final(self).updated_at,
                ..*old(self)
            }),
            r matches Err(m) ==> m@ == insufficient_balance_message(amount@, old(self).balance@)
                && *final(self) == *old(self),
    {
        if !self.can_afford(amount) {
            return self.debit_at(amount, self.updated_at);
        }
        let now = now_nanos();
        self.debit_at(amount, now)
    }

    /// Credits `amount` at `now`.
    pub fn credit_at(&mut self, amount: &Money, now: i128)
        requires
            i64::MIN <= old(self).balance@ + amount@ <= i64::MAX,
        ensures
            final(self).balance@ == old(self).balance@ + amount@,
            *final(self) == (User {
                balance: final(self).balance,
                updated_at: now,
                ..*old(self)
            }),
    {
        self.balance = Money::from_centimes(self.balance.centimes() + amount.centimes());
        self.updated_at = now;
    }

    /// Credits `amount`, stamped with the current time.
    pub fn credit(&mut self, amount: &Money)
        requires
            i64::MIN <= old(self).balance@ + amount@ <= i64::MAX,
        ensures
            final(self).balance@ == old(self).balance@ + amount@,
            *final(self) == (User {
                balance: final(self).balance,
                updated_at: final(self).updated_at,
                ..*old(self)
            }),
    {
        let now = now_nanos();
        self.credit_at(amount, now);
    }

    /// Activates the account at `now`.
    pub fn activate_at(&mut self, now: i128)
        ensures
            *final(self) == (User { status: UserStatus::Active, updated_at: now, ..*old(self) }),
    {
        self.status = UserStatus::Active;
        self.updated_at = now;
    }

    /// Activates the account, stamped with the current time.
    pub fn activate(&mut self)
        ensures
            *final(self) == (User {
                status: UserStatus::Active,
                updated_at: final(self).updated_at,
                ..*old(self)
            }),
    {
        let now = now_nanos();
        self.activate_at(now);
    }

    /// Suspends the account at `now`.
    pub fn suspend_at(&mut self, now: i128)
        ensures
            *final(self) == (User { status: UserStatus::Suspended, updated_at: now, ..*old(self) }),
    {
        self.status = UserStatus::Suspended;
        self.updated_at = now;
    }

    /// Suspends the account, stamped with the current time.
    pub fn suspend(&mut self)
        ensures
            *final(self) == (User {
                status: UserStatus::Suspended,
                updated_at: final(self).updated_at,
                ..*old(self)
            }),
    {
        let now = now_nanos();
        self.suspend_at(now);
    }

    /// Whether the account is active.
    pub fn is_active(&self) -> (b: bool)
        ensures
            b == (self.status == UserStatus::Active),
    {
        self.status == UserStatus::Active
    }
}

/// A debit succeeds exactly when the balance covers the amount, and never
/// leaves the balance negative.
pub proof fn lemma_debit_keeps_balance_non_negative(balance: int, amount: int)
    ensures
        debited(balance, amount) is Some <==> balance >= amount,
        debited(balance, amount) matches Some(b) ==> b >= 0,
{
}

/// Crediting an amount to a non-negative balance and then debiting the same
/// amount succeeds and gives back the balance from before the credit.
pub proof fn lemma_credit_then_debit_restores(balance: int, amount: int)
    requires
        balance >= 0,
    ensures
        debited(balance + amount, amount) == Some(balance),
{
}

} // verus!
