//! `TicketNumbers` value object: a validated lottery selection, stored sorted.

use vstd::prelude::*;
use crate::errors::DomainError;
use crate::text::{int_text, nat_text, push_i64_text, push_u64_text};

verus! {

/// The default lowest number of a selection.
pub const DEFAULT_MIN_NUMBER: i32 = 1;

/// The default highest number of a selection.
pub const DEFAULT_MAX_NUMBER: i32 = 49;

/// The default size of a selection.
pub const DEFAULT_COUNT: usize = 6;

/// Each number is smaller than every number after it.
pub open spec fn strictly_ascending(s: Seq<i32>) -> bool {
    forall|i: int, j: int| 0 <= i < j < s.len() ==> s[i] < s[j]
}

/// The number at index `i` already occurs before it.
pub open spec fn repeats_earlier(s: Seq<i32>, i: int) -> bool {
    exists|j: int| 0 <= j < i && s[j] == s[i]
}

/// Some number occurs twice.
pub open spec fn has_repeat(s: Seq<i32>) -> bool {
    exists|i: int| 0 <= i < s.len() && repeats_earlier(s, i)
}

/// `i` is the first index whose number repeats an earlier one.
pub open spec fn is_first_repeat(s: Seq<i32>, i: int) -> bool {
    &&& 0 <= i < s.len()
    &&& repeats_earlier(s, i)
    &&& forall|k: int| 0 <= k < i ==> !repeats_earlier(s, k)
}

/// The first index whose number repeats an earlier one.
pub open spec fn first_repeat(s: Seq<i32>) -> int {
    choose|i: int| is_first_repeat(s, i)
}

/// `n` lies outside `min..=max`.
pub open spec fn out_of_range(n: i32, min: i32, max: i32) -> bool {
    n < min || n > max
}

/// Some number lies outside `min..=max`.
pub open spec fn has_out_of_range(s: Seq<i32>, min: i32, max: i32) -> bool {
    exists|i: int| 0 <= i < s.len() && out_of_range(s[i], min, max)
}

/// `i` is the first index whose number lies outside `min..=max`.
pub open spec fn is_first_out_of_range(s: Seq<i32>, min: i32, max: i32, i: int) -> bool {
    &&& 0 <= i < s.len()
    &&& out_of_range(s[i], min, max)
    &&& forall|k: int| 0 <= k < i ==> !out_of_range(s[k], min, max)
}

/// The first index whose number lies outside `min..=max`.
pub open spec fn first_out_of_range(s: Seq<i32>, min: i32, max: i32) -> int {
    choose|i: int| is_first_out_of_range(s, min, max, i)
}

/// The message for a selection of the wrong size.
pub open spec fn count_message(count: nat, given: nat) -> Seq<char> {
    "Vous devez sélectionner exactement "@ + nat_text(count) + " numéros, "@ + nat_text(given)
        + " fournis"@
}

/// The message for a number chosen twice.
pub open spec fn repeat_message(n: i32) -> Seq<char> {
    "Numéro en double: "@ + int_text(n as int)
}

/// The message for a number outside the allowed range.
pub open spec fn range_message(n: i32, min: i32, max: i32) -> Seq<char> {
    "Le numéro "@ + int_text(n as int) + " est hors de la plage "@ + int_text(min as int) + "-"@
        + int_text(max as int)
}

/// Why a selection is refused, checked in this order: its size, then a
/// repeated number (the first repeat), then a number out of range (the first
/// one); `None` when it is accepted.
pub open spec fn selection_error(s: Seq<i32>, min: i32, max: i32, count: nat) -> Option<
    Seq<char>,
> {
    if s.len() != count {
        Some(count_message(count, s.len()))
    } else if has_repeat(s) {
        Some(repeat_message(s[first_repeat(s)]))
    } else if has_out_of_range(s, min, max) {
        Some(range_message(s[first_out_of_range(s, min, max)], min, max))
    } else {
        None
    }
}

/// The numbers of `s` that also occur in `other`, in the order of `s`.
pub open spec fn matches_in(s: Seq<i32>, other: Seq<i32>) -> Seq<i32> {
    s.filter(|n: i32| other.contains(n))
}

/// The numbers of `s` joined by `", "`.
pub open spec fn joined_numbers(s: Seq<i32>) -> Seq<char>
    decreases s.len(),
{
    if s.len() == 0 {
        seq![]
    } else if s.len() == 1 {
        int_text(s[0] as int)
    } else {
        joined_numbers(s.drop_last()) + ", "@ + int_text(s.last() as int)
    }
}

/// The display text of a selection: `[1, 15, 23]`.
pub open spec fn numbers_text(s: Seq<i32>) -> Seq<char> {
    "["@ + joined_numbers(s) + "]"@
}

/// The first repeat is unique, so it is the one `first_repeat` chooses.
proof fn lemma_first_repeat_unique(s: Seq<i32>, i: int)
    requires
        is_first_repeat(s, i),
    ensures
        first_repeat(s) == i,
{
    let k = first_repeat(s);
    assert(is_first_repeat(s, k));
    if k < i {
        assert(!repeats_earlier(s, k));
    } else if i < k {
        assert(!repeats_earlier(s, i));
    }
}

/// The first number out of range is unique, so it is the one
/// `first_out_of_range` chooses.
proof fn lemma_first_out_of_range_unique(s: Seq<i32>, min: i32, max: i32, i: int)
    requires
        is_first_out_of_range(s, min, max, i),
    ensures
        first_out_of_range(s, min, max) == i,
{
    let k = first_out_of_range(s, min, max);
    assert(is_first_out_of_range(s, min, max, k));
}

/// No number occurs twice in `s`.
pub open spec fn all_distinct(s: Seq<i32>) -> bool {
    forall|i: int, j: int| 0 <= i < j < s.len() ==> s[i] != s[j]
}

/// Every number of `s` lies in `min..=max`.
pub open spec fn all_within(s: Seq<i32>, min: i32, max: i32) -> bool {
    forall|i: int| 0 <= i < s.len() ==> min <= #[trigger] s[i] <= max
}

/// A selection is accepted exactly when it has `count` numbers, none twice,
/// all within `min..=max`; a selection of another size is refused with the
/// message naming both sizes.
pub proof fn lemma_selection_rules(s: Seq<i32>, min: i32, max: i32, count: nat)
    ensures
        selection_error(s, min, max, count) is None <==> (s.len() == count && all_distinct(s)
            && all_within(s, min, max)),
        s.len() != count ==> selection_error(s, min, max, count) == Some(
            "Vous devez sélectionner exactement "@ + nat_text(count) + " numéros, "@ + nat_text(
                s.len(),
            ) + " fournis"@,
        ),
{
    if has_repeat(s) {
        let j = choose|j: int| 0 <= j < s.len() && repeats_earlier(s, j);
        let i = choose|i: int| 0 <= i < j && s[i] == s[j];
        assert(!all_distinct(s));
    } else {
        assert forall|i: int, j: int| 0 <= i < j < s.len() implies s[i] != s[j] by {
            if s[i] == s[j] {
                assert(repeats_earlier(s, j));
            }
        }
    }
    if has_out_of_range(s, min, max) {
        let i = choose|i: int| 0 <= i < s.len() && out_of_range(s[i], min, max);
        assert(!(min <= s[i] <= max));
    }
}

/// Whether `x` occurs among the first `end` numbers of `s`.
pub fn occurs_before(s: &[i32], end: usize, x: i32) -> (b: bool)
    requires
        end <= s@.len(),
    ensures
        b == exists|j: int| 0 <= j < end && s@[j] == x,
{
    let mut j: usize = 0;
    while j < end
        invariant
            j <= end <= s@.len(),
            forall|k: int| 0 <= k < j ==> s@[k] != x,
        decreases end - j,
    {
        if s[j] == x {
            return true;
        }
        j = j + 1;
    }
    false
}

/// The index of the first number that repeats an earlier one.
pub fn find_first_repeat(s: &[i32]) -> (r: Option<usize>)
    ensures
        match r {
            Some(i) => is_first_repeat(s@, i as int),
            None => !has_repeat(s@),
        },
{
    let mut i: usize = 0;
    while i < s.len()
        invariant
            i <= s@.len(),
            forall|k: int| 0 <= k < i ==> !repeats_earlier(s@, k),
        decreases s@.len() - i,
    {
        if occurs_before(s, i, s[i]) {
            return Some(i);
        }
        i = i + 1;
    }
    None
}

/// The index of the first number outside `min..=max`.
pub fn find_first_out_of_range(s: &[i32], min: i32, max: i32) -> (r: Option<usize>)
    ensures
        match r {
            Some(i) => is_first_out_of_range(s@, min, max, i as int),
            None => !has_out_of_range(s@, min, max),
        },
{
    let mut i: usize = 0;
    while i < s.len()
        invariant
            i <= s@.len(),
            forall|k: int| 0 <= k < i ==> !out_of_range(s@[k], min, max),
        decreases s@.len() - i,
    {
        if s[i] < min || s[i] > max {
            return Some(i);
        }
        i = i + 1;
    }
    None
}

/// The numbers of `s` in ascending order, for `s` without repeats.
pub fn sorted_copy(s: &[i32]) -> (r: Vec<i32>)
    requires
        !has_repeat(s@),
    ensures
        strictly_ascending(r@),
        r@.len() == s@.len(),
        forall|x: i32| r@.contains(x) <==> s@.contains(x),
{
    let mut r: Vec<i32> = Vec::new();
    let mut i: usize = 0;
    while i < s.len()
        invariant
            i <= s@.len(),
            !has_repeat(s@),
            strictly_ascending(r@),
            r@.len() == i,
            forall|x: i32| r@.contains(x) <==> s@.subrange(0, i as int).contains(x),
        decreases s@.len() - i,
    {
        let x = s[i];
        assert(!repeats_earlier(s@, i as int));
        assert(!r@.contains(x)) by {
            if r@.contains(x) {
                let j = choose|j: int| 0 <= j < i && s@.subrange(0, i as int)[j] == x;
                assert(s@[j] == s@[i as int]);
            }
        }
        let mut p: usize = 0;
        while p < r.len() && r[p] < x
            invariant
                p <= r@.len(),
                strictly_ascending(r@),
                forall|k: int| 0 <= k < p ==> r@[k] < x,
            decreases r@.len() - p,
        {
            p = p + 1;
        }
        assert(p < r@.len() ==> r@[p as int] > x) by {
            if p < r@.len() {
                assert(r@[p as int] != x);
            }
        }
        let ghost old_r = r@;
        r.insert(p, x);
        assert(r@ == old_r.insert(p as int, x));
        assert(strictly_ascending(r@)) by {
            assert forall|a: int, b: int| 0 <= a < b < r@.len() implies r@[a] < r@[b] by {
                if b < p {
                } else if b == p {
                } else if a < p {
                    assert(r@[b] == old_r[b - 1]);
                } else if a == p {
                    assert(r@[b] == old_r[b - 1]);
                    assert(old_r[p as int] > x);
                } else {
                    assert(r@[a] == old_r[a - 1]);
                    assert(r@[b] == old_r[b - 1]);
                }
            }
        }
        let ghost s1 = s@.subrange(0, i as int);
        let ghost s2 = s@.subrange(0, i + 1);
        assert forall|y: i32| r@.contains(y) <==> s2.contains(y) by {
            if r@.contains(y) {
                let k = choose|k: int| 0 <= k < r@.len() && r@[k] == y;
                if k == p {
                    assert(s2[i as int] == y);
                } else {
                    let kk = if k < p {
                        k
                    } else {
                        k - 1
                    };
                    assert(old_r[kk] == y);
                    assert(old_r.contains(y));
                    let j = choose|j: int| 0 <= j < i && #[trigger] s1[j] == y;
                    assert(s2[j] == y);
                }
            }
            if s2.contains(y) {
                let j = choose|j: int| 0 <= j < i + 1 && #[trigger] s2[j] == y;
                if j == i {
                    assert(r@[p as int] == y);
                } else {
                    assert(s1[j] == y);
                    assert(old_r.contains(y));
                    let k = choose|k: int| 0 <= k < old_r.len() && old_r[k] == y;
                    if k < p {
                        assert(r@[k] == y);
                    } else {
                        assert(r@[k + 1] == y);
                    }
                }
            }
        }
        i = i + 1;
    }
    assert(s@.subrange(0, s@.len() as int) == s@);
    r
}

/// A validated lottery selection: distinct numbers, stored in ascending order.
#[derive(Debug, PartialEq, Eq)]
pub struct TicketNumbers {
    numbers: Vec<i32>,
}

impl View for TicketNumbers {
    type V = Seq<i32>;

    /// The numbers, in ascending order.
    closed spec fn view(&self) -> Seq<i32> {
        self.numbers@
    }
}

impl TicketNumbers {
    #[verifier::type_invariant]
    spec fn ascending(self) -> bool {
        strictly_ascending(self.numbers@)
    }

    /// Validates a selection with the default configuration: 6 distinct
    /// numbers between 1 and 49.
    pub fn new(numbers: Vec<i32>) -> (r: Result<TicketNumbers, DomainError>)
        ensures
            r is Ok <==> selection_error(numbers@, DEFAULT_MIN_NUMBER, DEFAULT_MAX_NUMBER, DEFAULT_COUNT as nat) is None,
            r is Ok <==> (numbers@.len() == 6 && all_distinct(numbers@) && all_within(
                numbers@,
                1,
                49,
            )),
            r matches Ok(t) ==> t@.len() == 6 && all_within(t@, 1, 49),
            r matches Ok(t) ==> strictly_ascending(t@) && t@.len() == numbers@.len() && forall|
                x: i32,
            | t@.contains(x) <==> numbers@.contains(x),
            r matches Err(e) ==> e matches DomainError::InvalidTicketNumbers(m) && Some(m@)
                == selection_error(numbers@, DEFAULT_MIN_NUMBER, DEFAULT_MAX_NUMBER, DEFAULT_COUNT as nat),
    {
        proof {
            lemma_selection_rules(numbers@, DEFAULT_MIN_NUMBER, DEFAULT_MAX_NUMBER, 6);
        }
        Self::with_config(numbers, DEFAULT_MIN_NUMBER, DEFAULT_MAX_NUMBER, DEFAULT_COUNT)
    }

    /// Validates a selection: exactly `count` numbers, no number twice, each
    /// between `min` and `max`. The accepted numbers are stored sorted.
    pub fn with_config(numbers: Vec<i32>, min: i32, max: i32, count: usize) -> (r: Result<
        TicketNumbers,
        DomainError,
    >)
        ensures
            r is Ok <==> selection_error(numbers@, min, max, count as nat) is None,
            r is Ok <==> (numbers@.len() == count && all_distinct(numbers@) && all_within(
                numbers@,
                min,
                max,
            )),
            r matches Ok(t) ==> t@.len() == count && all_within(t@, min, max),
            r matches Ok(t) ==> strictly_ascending(t@) && t@.len() == numbers@.len() && forall|
                x: i32,
            | t@.contains(x) <==> numbers@.contains(x),
            r matches Err(e) ==> e matches DomainError::InvalidTicketNumbers(m) && Some(m@)
                == selection_error(numbers@, min, max, count as nat),
    {
        proof {
            lemma_selection_rules(numbers@, min, max, count as nat);
        }
        if numbers.len() != count {
            let mut m = String::from_str("Vous devez sélectionner exactement ");
            push_u64_text(&mut m, count as u64);
            m.append(" numéros, ");
            push_u64_text(&mut m, numbers.len() as u64);
            m.append(" fournis");
            return Err(DomainError::InvalidTicketNumbers(m));
        }
        match find_first_repeat(numbers.as_slice()) {
            Some(i) => {
                proof {
                    lemma_first_repeat_unique(numbers@, i as int);
                }
                let mut m = String::from_str("Numéro en double: ");
                push_i64_text(&mut m, numbers[i] as i64);
                return Err(DomainError::InvalidTicketNumbers(m));
            },
            None => {},
        }
        match find_first_out_of_range(numbers.as_slice(), min, max) {
            Some(i) => {
                proof {
                    lemma_first_out_of_range_unique(numbers@, min, max, i as int);
                }
                let mut m = String::from_str("Le numéro ");
                push_i64_text(&mut m, numbers[i] as i64);
                m.append(" est hors de la plage ");
                push_i64_text(&mut m, min as i64);
                m.append("-");
                push_i64_text(&mut m, max as i64);
                return Err(DomainError::InvalidTicketNumbers(m));
            },
            None => {},
        }
        let sorted = sorted_copy(numbers.as_slice());
        proof {
            assert forall|i: int| 0 <= i < sorted@.len() implies min <= #[trigger] sorted@[i]
                <= max by {
                assert(sorted@.contains(sorted@[i]));
                let j = choose|j: int| 0 <= j < numbers@.len() && numbers@[j] == sorted@[i];
            }
        }
        Ok(TicketNumbers { numbers: sorted })
    }

    /// The numbers, in ascending order.
    pub fn as_slice(&self) -> (r: &[i32])
        ensures
            r@ == self@,
            strictly_ascending(self@),
    {
        proof {
            use_type_invariant(self);
        }
        self.numbers.as_slice()
    }

    /// A copy of the numbers, in ascending order.
    pub fn to_vec(&self) -> (r: Vec<i32>)
        ensures
            r@ == self@,
            strictly_ascending(self@),
    {
        proof {
            use_type_invariant(self);
        }
        let mut r: Vec<i32> = Vec::new();
        let mut i: usize = 0;
        while i < self.numbers.len()
            invariant
                i <= self.numbers@.len(),
                r@ == self.numbers@.subrange(0, i as int),
            decreases self.numbers@.len() - i,
        {
            r.push(self.numbers[i]);
            i = i + 1;
        }
        assert(self.numbers@.subrange(0, self.numbers@.len() as int) == self.numbers@);
        r
    }

    /// Whether `number` is part of the selection.
    pub fn contains(&self, number: i32) -> (b: bool)
        ensures
            b == self@.contains(number),
    {
        let n = self.numbers.len();
        let found = occurs_before(self.numbers.as_slice(), n, number);
        proof {
            if found {
                let j = choose|j: int| 0 <= j < n && self.numbers@[j] == number;
                assert(self@[j] == number);
            }
        }
        found
    }

    /// How many numbers of the selection occur in `other`.
    pub fn count_matches(&self, other: &[i32]) -> (c: usize)
        ensures
            c == matches_in(self@, other@).len(),
    {
        let m = self.get_matches(other);
        m.len()
    }

    /// The numbers of the selection that occur in `other`, in ascending order.
    pub fn get_matches(&self, other: &[i32]) -> (r: Vec<i32>)
        ensures
            r@ == matches_in(self@, other@),
    {
        let ghost pred = |n: i32| other@.contains(n);
        let mut r: Vec<i32> = Vec::new();
        let mut i: usize = 0;
        while i < self.numbers.len()
            invariant
                i <= self.numbers@.len(),
                pred == (|n: i32| other@.contains(n)),
                r@ == self.numbers@.subrange(0, i as int).filter(pred),
            decreases self.numbers@.len() - i,
        {
            let x = self.numbers[i];
            let hit = occurs_before(other, other.len(), x);
            proof {
                reveal_with_fuel(Seq::<_>::filter, 1);
                assert(self.numbers@.subrange(0, i + 1).drop_last() == self.numbers@.subrange(
                    0,
                    i as int,
                ));
                if hit {
                    let j = choose|j: int| 0 <= j < other@.len() && other@[j] == x;
                    assert(other@.contains(x));
                }
            }
            if hit {
                r.push(x);
            }
            i = i + 1;
        }
        assert(self.numbers@.subrange(0, self.numbers@.len() as int) == self.numbers@);
        r
    }

    /// The display text of the selection, such as `[1, 15, 23]`.
    pub fn to_string(&self) -> (s: String)
        ensures
            s@ == numbers_text(self@),
    {
        let mut s = String::from_str("[");
        let mut i: usize = 0;
        while i < self.numbers.len()
            invariant
                i <= self.numbers@.len(),
                s@ == "["@ + joined_numbers(self.numbers@.subrange(0, i as int)),
            decreases self.numbers@.len() - i,
        {
            if i > 0 {
                s.append(", ");
            }
            push_i64_text(&mut s, self.numbers[i] as i64);
            proof {
                let t = self.numbers@.subrange(0, i + 1);
                assert(t.drop_last() == self.numbers@.subrange(0, i as int));
                assert(t.last() == self.numbers@[i as int]);
                if i == 0 {
                    assert(joined_numbers(self.numbers@.subrange(0, 0)) == Seq::<char>::empty());
                    assert(s@ =~= "["@ + joined_numbers(t));
                } else {
                    assert(s@ =~= "["@ + joined_numbers(t));
                }
            }
            i = i + 1;
        }
        s.append("]");
        assert(self.numbers@.subrange(0, self.numbers@.len() as int) == self.numbers@);
        s
    }
}

impl Clone for TicketNumbers {
    /// A copy of the selection.
    fn clone(&self) -> (r: Self)
        ensures
            r@ == self@,
    {
        TicketNumbers { numbers: self.to_vec() }
    }
}

/// The size of the matches is what `count_matches` reports: counting and
/// listing the matches agree, and both are bounded by the selection.
pub proof fn lemma_count_is_number_of_matches(s: Seq<i32>, other: Seq<i32>)
    ensures
        matches_in(s, other).len() <= s.len(),
        forall|x: i32| #[trigger]
            matches_in(s, other).contains(x) <==> s.contains(x) && other.contains(x),
{
    let pred = |n: i32| other.contains(n);
    s.lemma_filter_len(pred);
    assert forall|x: i32| #[trigger] matches_in(s, other).contains(x) <==> s.contains(x)
        && other.contains(x) by {
        if matches_in(s, other).contains(x) {
            let i = choose|i: int| 0 <= i < s.filter(pred).len() && s.filter(pred)[i] == x;
            s.lemma_filter_pred(pred, i);
            s.lemma_filter_contains_rev(pred, x);
        }
        if s.contains(x) && other.contains(x) {
            let i = choose|i: int| 0 <= i < s.len() && s[i] == x;
            s.lemma_filter_contains(pred, i);
        }
    }
}

} // verus!
