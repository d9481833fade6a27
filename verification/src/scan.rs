//! Reading text: finding a marker, testing for blank text, parsing a decimal
//! `i64` as `str::parse` does.

use vstd::prelude::*;
use crate::text::{digit_char, int_text, nat_text};

verus! {

/// `needle` occurs in `hay` starting at index `i`.
pub open spec fn occurs_at(hay: Seq<char>, needle: Seq<char>, i: int) -> bool {
    0 <= i && i + needle.len() <= hay.len() && hay.subrange(i, i + needle.len()) == needle
}

/// `i` is where `needle` first occurs in `hay`.
pub open spec fn is_first_occurrence(hay: Seq<char>, needle: Seq<char>, i: int) -> bool {
    occurs_at(hay, needle, i) && forall|j: int| 0 <= j < i ==> !occurs_at(hay, needle, j)
}

/// Where `needle` first occurs in `hay`, if it occurs.
pub open spec fn first_occurrence(hay: Seq<char>, needle: Seq<char>) -> Option<int> {
    if exists|i: int| occurs_at(hay, needle, i) {
        Some(choose|i: int| is_first_occurrence(hay, needle, i))
    } else {
        None
    }
}

/// `needle` occurs somewhere in `hay`.
pub open spec fn contains_text(hay: Seq<char>, needle: Seq<char>) -> bool {
    exists|i: int| occurs_at(hay, needle, i)
}

/// The characters that Unicode gives the `White_Space` property, which is
/// what `char::is_whitespace` and `str::trim` go by.
pub open spec fn is_white_space(c: char) -> bool {
    let u = c as u32;
    (0x9 <= u <= 0xd) || u == 0x20 || u == 0x85 || u == 0xa0 || u == 0x1680 || (0x2000 <= u
        <= 0x200a) || u == 0x2028 || u == 0x2029 || u == 0x202f || u == 0x205f || u == 0x3000
}

/// Nothing but white space is left after trimming.
pub open spec fn is_blank(s: Seq<char>) -> bool {
    forall|i: int| 0 <= i < s.len() ==> is_white_space(#[trigger] s[i])
}

/// The value of a sequence of decimal digits.
pub open spec fn digits_value(s: Seq<char>) -> int
    decreases s.len(),
{
    if s.len() == 0 {
        0
    } else {
        10 * digits_value(s.drop_last()) + ((s.last() as u32) - 48)
    }
}

/// At least one character, all of them decimal digits.
pub open spec fn all_digits(s: Seq<char>) -> bool {
    s.len() > 0 && forall|i: int| 0 <= i < s.len() ==> '0' <= #[trigger] s[i] <= '9'
}

/// The value that `str::parse` reads from a text for an integer type whose
/// values are `min..=max`: an optional `+` sign (or `-`, for a signed type,
/// whose `min` is negative), then one or more decimal digits, with a value in
/// the range; `None` for anything else.
pub open spec fn parsed_int(s: Seq<char>, min: int, max: int) -> Option<i128> {
    let negative = s.len() > 0 && s[0] == '-' && min < 0;
    let signed = s.len() > 0 && (s[0] == '+' || negative);
    let body = if signed {
        s.drop_first()
    } else {
        s
    };
    let v = if negative {
        -digits_value(body)
    } else {
        digits_value(body)
    };
    if all_digits(body) && min <= v <= max {
        Some(v as i128)
    } else {
        None
    }
}

/// The value that `str::parse::<i64>` reads from a text.
pub open spec fn parsed_i64(s: Seq<char>) -> Option<i64> {
    match parsed_int(s, i64::MIN as int, i64::MAX as int) {
        Some(v) => Some(v as i64),
        None => None,
    }
}

/// The characters of a text.
pub fn chars_of(s: &str) -> (r: Vec<char>)
    ensures
        r@ == s@,
{
    let n = s.unicode_len();
    let mut r: Vec<char> = Vec::new();
    let mut i: usize = 0;
    while i < n
        invariant
            n == s@.len(),
            i <= n,
            r@ == s@.subrange(0, i as int),
        decreases n - i,
    {
        r.push(s.get_char(i));
        i = i + 1;
        assert(r@ =~= s@.subrange(0, i as int));
    }
    assert(s@.subrange(0, n as int) =~= s@);
    r
}

/// Whether `needle` occurs in `hay` at index `i`.
pub fn occurs_at_exec(hay: &Vec<char>, needle: &Vec<char>, i: usize) -> (b: bool)
    ensures
        b == occurs_at(hay@, needle@, i as int),
{
    if i > hay.len() || needle.len() > hay.len() - i {
        return false;
    }
    let mut k: usize = 0;
    while k < needle.len()
        invariant
            i + needle@.len() <= hay@.len(),
            hay@.len() == hay.len(),
            k <= needle@.len(),
            forall|j: int| 0 <= j < k ==> hay@[i + j] == needle@[j],
        decreases needle@.len() - k,
    {
        if hay[i + k] != needle[k] {
            assert(hay@.subrange(i as int, i + needle@.len())[k as int] != needle@[k as int]);
            return false;
        }
        k = k + 1;
    }
    assert(hay@.subrange(i as int, i + needle@.len()) =~= needle@);
    true
}

/// Where `needle` first occurs in `hay` at or after index `from`.
pub fn find_from(hay: &Vec<char>, needle: &Vec<char>, from: usize) -> (r: Option<usize>)
    requires
        from <= hay@.len(),
    ensures
        match r {
            Some(i) => from <= i && occurs_at(hay@, needle@, i as int) && forall|j: int|
                from <= j < i ==> !occurs_at(hay@, needle@, j),
            None => forall|j: int| from <= j ==> !occurs_at(hay@, needle@, j),
        },
{
    let mut i: usize = from;
    while i < hay.len()
        invariant
            from <= i <= hay@.len(),
            forall|j: int| from <= j < i ==> !occurs_at(hay@, needle@, j),
        decreases hay@.len() - i,
    {
        if occurs_at_exec(hay, needle, i) {
            return Some(i);
        }
        i = i + 1;
    }
    if occurs_at_exec(hay, needle, i) {
        return Some(i);
    }
    None
}

/// Where `needle` first occurs in `hay`.
pub fn find_text(hay: &Vec<char>, needle: &Vec<char>) -> (r: Option<usize>)
    ensures
        r is Some <==> first_occurrence(hay@, needle@) is Some,
        r matches Some(i) ==> first_occurrence(hay@, needle@) == Some(i as int)
            && is_first_occurrence(hay@, needle@, i as int),
{
    let r = find_from(hay, needle, 0);
    match r {
        Some(i) => {
            proof {
                assert(is_first_occurrence(hay@, needle@, i as int));
                let k = choose|k: int| is_first_occurrence(hay@, needle@, k);
                if k < i {
                    assert(!occurs_at(hay@, needle@, k));
                } else if i < k {
                    assert(!occurs_at(hay@, needle@, i as int));
                }
            }
        },
        None => {},
    }
    r
}

/// Whether `needle` occurs in `hay`.
pub fn contains_str(hay: &str, needle: &str) -> (b: bool)
    ensures
        b == contains_text(hay@, needle@),
{
    let h = chars_of(hay);
    let n = chars_of(needle);
    let r = find_from(&h, &n, 0);
    r.is_some()
}

/// Whether `c` is white space.
pub fn is_white_space_exec(c: char) -> (b: bool)
    ensures
        b == is_white_space(c),
{
    let u = c as u32;
    (0x9 <= u && u <= 0xd) || u == 0x20 || u == 0x85 || u == 0xa0 || u == 0x1680 || (0x2000 <= u
        && u <= 0x200a) || u == 0x2028 || u == 0x2029 || u == 0x202f || u == 0x205f || u == 0x3000
}

/// Whether the text is empty once trimmed (`s.trim().is_empty()`).
pub fn is_blank_str(s: &str) -> (b: bool)
    ensures
        b == is_blank(s@),
{
    let c = chars_of(s);
    let mut i: usize = 0;
    while i < c.len()
        invariant
            c@ == s@,
            i <= c@.len(),
            forall|j: int| 0 <= j < i ==> is_white_space(#[trigger] c@[j]),
        decreases c@.len() - i,
    {
        if !is_white_space_exec(c[i]) {
            return false;
        }
        i = i + 1;
    }
    true
}

/// The value of the digits never shrinks as digits are appended.
proof fn lemma_digits_value_prefix(s: Seq<char>, k: int)
    requires
        0 <= k <= s.len(),
        forall|i: int| 0 <= i < s.len() ==> '0' <= #[trigger] s[i] <= '9',
    ensures
        0 <= digits_value(s.subrange(0, k)) <= digits_value(s),
    decreases s.len() - k,
{
    if k < s.len() {
        lemma_digits_value_prefix(s, k + 1);
        let t = s.subrange(0, k + 1);
        assert(t.drop_last() =~= s.subrange(0, k));
        assert('0' <= t.last() <= '9');
        lemma_digits_value_non_negative(t.drop_last());
    } else {
        assert(s.subrange(0, k) =~= s);
        lemma_digits_value_non_negative(s);
    }
}

/// The value of digits is not negative.
proof fn lemma_digits_value_non_negative(s: Seq<char>)
    requires
        forall|i: int| 0 <= i < s.len() ==> '0' <= #[trigger] s[i] <= '9',
    ensures
        digits_value(s) >= 0,
    decreases s.len(),
{
    if s.len() > 0 {
        assert(forall|i: int|
            0 <= i < s.drop_last().len() ==> s.drop_last()[i] == s[i]);
        lemma_digits_value_non_negative(s.drop_last());
        assert('0' <= s.last() <= '9');
    }
}

/// The decimal text of `n` is all digits, and their value is `n`.
pub proof fn lemma_nat_text_value(n: nat)
    ensures
        all_digits(nat_text(n)),
        digits_value(nat_text(n)) == n,
    decreases n,
{
    let d = (n % 10) as int;
    let s = nat_text(n);
    assert(digit_char(d) as u32 == d + 48);
    assert(s.last() == digit_char(d));
    assert(digits_value(s) == 10 * digits_value(s.drop_last()) + ((s.last() as u32) - 48));
    if n < 10 {
        assert(s.drop_last() =~= Seq::<char>::empty());
        assert(digits_value(s.drop_last()) == 0);
    } else {
        lemma_nat_text_value(n / 10);
        let p = nat_text(n / 10);
        assert(s.drop_last() =~= p);
        assert(s.last() == digit_char(d));
        assert forall|i: int| 0 <= i < s.len() implies '0' <= #[trigger] s[i] <= '9' by {
            if i < p.len() {
                assert(s[i] == p[i]);
            }
        }
    }
}

/// The decimal text of an integer in the range `min..=max` of an integer
/// type reads back as that integer.
pub proof fn lemma_int_text_parses(v: int, min: int, max: int)
    requires
        min <= v <= max,
        min <= 0,
        i128::MIN <= min,
        max <= i128::MAX,
    ensures
        parsed_int(int_text(v), min, max) == Some(v as i128),
{
    let s = int_text(v);
    if v < 0 {
        lemma_nat_text_value((-v) as nat);
        assert(s.drop_first() =~= nat_text((-v) as nat));
        assert(s[0] == '-');
    } else {
        lemma_nat_text_value(v as nat);
        assert('0' <= s[0] <= '9');
    }
}

/// Parses a decimal integer as `str::parse` does for an integer type whose
/// values are `min..=max` (a type of at most 64 bits).
pub fn parse_int(s: &str, min: i128, max: i128) -> (r: Option<i128>)
    requires
        -0x1_0000_0000_0000_0000 <= min <= 0 <= max <= 0x1_0000_0000_0000_0000,
    ensures
        r == parsed_int(s@, min as int, max as int),
{
    let c = chars_of(s);
    let n = c.len();
    if n == 0 {
        return None;
    }
    let negative = c[0] == '-' && min < 0;
    let start: usize = if c[0] == '+' || negative {
        1
    } else {
        0
    };
    let ghost body = c@.subrange(start as int, n as int);
    proof {
        if start == 1 {
            assert(body =~= s@.drop_first());
        } else {
            assert(body =~= s@);
        }
    }
    if start == n {
        return None;
    }
    // The largest magnitude allowed for the sign read.
    let limit: u128 = if negative {
        (-min) as u128
    } else {
        max as u128
    };
    let mut v: u128 = 0;
    let mut i: usize = start;
    while i < n
        invariant
            c@ == s@,
            n == c@.len(),
            start <= i <= n,
            body == c@.subrange(start as int, n as int),
            s@.len() > 0,
            negative == (s@[0] == '-' && min < 0),
            (start == 1) == (s@[0] == '+' || negative),
            start == 0 || start == 1,
            body == (if start == 1 {
                s@.drop_first()
            } else {
                s@
            }),
            limit == (if negative {
                -min
            } else {
                max as int
            }),
            limit <= 0x1_0000_0000_0000_0000,
            forall|j: int| start <= j < i ==> '0' <= #[trigger] c@[j] <= '9',
            v as int == digits_value(c@.subrange(start as int, i as int)),
            v <= limit,
        decreases n - i,
    {
        let ch = c[i];
        if ch < '0' || ch > '9' {
            proof {
                assert(body[i - start] == ch);
                assert(!all_digits(body));
            }
            return None;
        }
        assert(48 <= ch as u32 <= 57);
        let d = (ch as u32 - 48) as u128;
        let ghost pre = c@.subrange(start as int, i as int);
        let ghost next = c@.subrange(start as int, i + 1);
        proof {
            assert(next.drop_last() =~= pre);
            assert(next.last() == ch);
        }
        if v * 10 + d > limit {
            proof {
                if all_digits(body) {
                    lemma_digits_value_prefix(body, i + 1 - start);
                    assert(body.subrange(0, i + 1 - start) =~= next);
                }
            }
            return None;
        }
        v = v * 10 + d;
        i = i + 1;
    }
    proof {
        assert(c@.subrange(start as int, n as int) =~= body);
        assert(all_digits(body));
    }
    if negative {
        Some(-(v as i128))
    } else {
        Some(v as i128)
    }
}

/// Parses a decimal `i64` as `str::parse::<i64>` does.
pub fn parse_i64(s: &str) -> (r: Option<i64>)
    ensures
        r == parsed_i64(s@),
{
    match parse_int(s, i64::MIN as i128, i64::MAX as i128) {
        Some(v) => Some(v as i64),
        None => None,
    }
}

} // verus!
