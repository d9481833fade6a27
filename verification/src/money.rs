//! Money value object: an amount in FCFA centimes (1 FCFA = 100 centimes),
//! held as an integer to avoid floating-point error.

use vstd::prelude::*;

verus! {

/// An amount of money in centimes.
#[derive(Debug, Clone, Copy, PartialEq, Eq, PartialOrd, Ord, Hash)]
pub struct Money {
    centimes: i64,
}

impl View for Money {
    type V = int;

    /// The amount in centimes.
    closed spec fn view(&self) -> int {
        self.centimes as int
    }
}

impl Money {
    /// Every amount fits in an `i64`.
    pub broadcast proof fn lemma_view_range(m: Money)
        ensures
            i64::MIN <= #[trigger] m@ <= i64::MAX,
    {
    }

    /// Creates an amount from centimes.
    pub fn from_centimes(centimes: i64) -> (m: Money)
        ensures
            m@ == centimes,
    {
        Money { centimes }
    }

    /// The zero amount.
    pub fn zero() -> (m: Money)
        ensures
            m@ == 0,
    {
        Money { centimes: 0 }
    }

    /// The amount in centimes.
    pub fn centimes(&self) -> (c: i64)
        ensures
            c == self@,
    {
        self.centimes
    }

    /// Whether the amount is zero.
    pub fn is_zero(&self) -> (b: bool)
        ensures
            b == (self@ == 0),
    {
        self.centimes == 0
    }

    /// Whether the amount is strictly positive.
    pub fn is_positive(&self) -> (b: bool)
        ensures
            b == (self@ > 0),
    {
        self.centimes > 0
    }

    /// The sum of two amounts.
    pub fn add(&self, other: &Money) -> (m: Money)
        requires
            i64::MIN <= self@ + other@ <= i64::MAX,
        ensures
            m@ == self@ + other@,
    {
        Money { centimes: self.centimes + other.centimes }
    }

    /// The difference of two amounts, or `None` when it would be negative
    /// (when `other` is larger than `self`).
    pub fn subtract(&self, other: &Money) -> (m: Option<Money>)
        requires
            self@ >= other@ ==> self@ - other@ <= i64::MAX,
        ensures
            m is Some <==> spec_subtract(self@, other@) is Some,
            m matches Some(r) ==> Some(r@) == spec_subtract(self@, other@),
    {
        if self.centimes >= other.centimes {
            Some(Money { centimes: self.centimes - other.centimes })
        } else {
            None
        }
    }
}

/// The result of subtracting `b` from `a`: `None` when `b > a`.
pub open spec fn spec_subtract(a: int, b: int) -> Option<int> {
    if a >= b {
        Some(a - b)
    } else {
        None
    }
}

impl Default for Money {
    /// The zero amount.
    fn default() -> (m: Money)
        ensures
            m@ == 0,
    {
        Money::zero()
    }
}

/// Adding an amount to a non-negative amount and then subtracting it again
/// succeeds and gives back the first amount.
pub proof fn lemma_add_then_subtract(a: int, b: int)
    requires
        a >= 0,
    ensures
        spec_subtract(a + b, b) == Some(a),
{
}

} // verus!
