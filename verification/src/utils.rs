//! Validation of lottery numbers and masking of phone numbers for display.

use vstd::prelude::*;
use vstd::string::StringSliceAdditionalSpecFns;
use vstd::utf8::{decode_utf8, encode_utf8_decode_utf8, is_char_boundary};
use crate::text::{int_text, nat_text, push_i64_text, push_u64_text, repeat_char};
use crate::ticket_numbers::{
    all_distinct,
    all_within,
    has_out_of_range,
    has_repeat,
    occurs_before,
    out_of_range,
    repeats_earlier,
    selection_error,
};

verus! {

/// The number at index `i` is out of range or repeats an earlier one.
pub open spec fn bad_number_at(s: Seq<i32>, min: i32, max: i32, i: int) -> bool {
    out_of_range(s[i], min, max) || repeats_earlier(s, i)
}

/// `i` is the first index whose number is out of range or a repeat.
pub open spec fn is_first_bad_number(s: Seq<i32>, min: i32, max: i32, i: int) -> bool {
    &&& 0 <= i < s.len()
    &&& bad_number_at(s, min, max, i)
    &&& forall|k: int| 0 <= k < i ==> !bad_number_at(s, min, max, k)
}

/// Why `validate_lottery_numbers` refuses a selection: the size first, then
/// the first number that is out of range or a repeat (out of range is
/// reported before repeat for the same number); `None` when it is accepted.
pub open spec fn lottery_numbers_error(s: Seq<i32>, min: i32, max: i32, count: nat) -> Option<
    Seq<char>,
> {
    if s.len() != count {
        Some("Vous devez sélectionner exactement "@ + nat_text(count) + " numéros"@)
    } else if exists|i: int| 0 <= i < s.len() && bad_number_at(s, min, max, i) {
        let i = choose|i: int| is_first_bad_number(s, min, max, i);
        if out_of_range(s[i], min, max) {
            Some("Les numéros doivent être entre "@ + int_text(min as int) + " et "@ + int_text(
                max as int,
            ))
        } else {
            Some("Les numéros doivent être uniques"@)
        }
    } else {
        None
    }
}

/// A selection passes `validate_lottery_numbers` exactly when it has `count`
/// numbers, none twice, all within `min..=max`; a selection of another size
/// is refused with the message naming the size required.
pub proof fn lemma_lottery_rules(s: Seq<i32>, min: i32, max: i32, count: nat)
    ensures
        lottery_numbers_error(s, min, max, count) is None <==> (s.len() == count && all_distinct(s)
            && all_within(s, min, max)),
        s.len() != count ==> lottery_numbers_error(s, min, max, count) == Some(
            "Vous devez sélectionner exactement "@ + nat_text(count) + " numéros"@,
        ),
{
    if s.len() == count {
        if exists|i: int| 0 <= i < s.len() && bad_number_at(s, min, max, i) {
            let i = choose|i: int| 0 <= i < s.len() && bad_number_at(s, min, max, i);
            if out_of_range(s[i], min, max) {
                assert(!(min <= s[i] <= max));
            } else {
                let j = choose|j: int| 0 <= j < i && s[j] == s[i];
                assert(!all_distinct(s));
            }
        } else {
            assert forall|i: int, j: int| 0 <= i < j < s.len() implies s[i] != s[j] by {
                if s[i] == s[j] {
                    assert(repeats_earlier(s, j));
                    assert(bad_number_at(s, min, max, j));
                }
            }
            assert forall|i: int| 0 <= i < s.len() implies min <= #[trigger] s[i] <= max by {
                assert(!bad_number_at(s, min, max, i));
            }
        }
    }
}

/// Checks that `numbers` holds exactly `count` distinct numbers between `min`
/// and `max`.
pub fn validate_lottery_numbers(numbers: &[i32], min: i32, max: i32, count: usize) -> (r: Result<
    (),
    String,
>)
    ensures
        r is Ok <==> lottery_numbers_error(numbers@, min, max, count as nat) is None,
        r is Ok <==> (numbers@.len() == count && all_distinct(numbers@) && all_within(
            numbers@,
            min,
            max,
        )),
        r matches Err(m) ==> Some(m@) == lottery_numbers_error(numbers@, min, max, count as nat),
{
    proof {
        lemma_lottery_rules(numbers@, min, max, count as nat);
    }
    if numbers.len() != count {
        let mut m = String::from_str("Vous devez sélectionner exactement ");
        push_u64_text(&mut m, count as u64);
        m.append(" numéros");
        return Err(m);
    }
    let mut i: usize = 0;
    while i < numbers.len()
        invariant
            i <= numbers@.len(),
            numbers@.len() == count,
            forall|k: int| 0 <= k < i ==> !bad_number_at(numbers@, min, max, k),
        decreases numbers@.len() - i,
    {
        let num = numbers[i];
        let outside = num < min || num > max;
        let seen = occurs_before(numbers, i, num);
        if outside || seen {
            proof {
                assert(is_first_bad_number(numbers@, min, max, i as int));
                let k = choose|k: int| is_first_bad_number(numbers@, min, max, k);
                assert(k == i) by {
                    if k < i {
                        assert(!bad_number_at(numbers@, min, max, k));
                    } else if k > i {
                        assert(!bad_number_at(numbers@, min, max, i as int));
                    }
                }
            }
            if outside {
                let mut m = String::from_str("Les numéros doivent être entre ");
                push_i64_text(&mut m, min as i64);
                m.append(" et ");
                push_i64_text(&mut m, max as i64);
                return Err(m);
            } else {
                return Err(String::from_str("Les numéros doivent être uniques"));
            }
        }
        i = i + 1;
    }
    Ok(())
}

/// `validate_lottery_numbers` and `TicketNumbers::with_config` accept exactly
/// the same selections; they differ only in the message of a refusal.
pub proof fn lemma_validation_agrees_with_ticket_numbers(
    s: Seq<i32>,
    min: i32,
    max: i32,
    count: nat,
)
    ensures
        lottery_numbers_error(s, min, max, count) is None <==> selection_error(
            s,
            min,
            max,
            count,
        ) is None,
{
    if s.len() == count {
        if exists|i: int| 0 <= i < s.len() && bad_number_at(s, min, max, i) {
            let i = choose|i: int| 0 <= i < s.len() && bad_number_at(s, min, max, i);
            if out_of_range(s[i], min, max) {
                assert(has_out_of_range(s, min, max));
            } else {
                assert(has_repeat(s));
            }
            lemma_first_bad_exists(s, min, max, i);
        } else {
            if has_repeat(s) {
                let i = choose|i: int| 0 <= i < s.len() && repeats_earlier(s, i);
                assert(bad_number_at(s, min, max, i));
            }
            if has_out_of_range(s, min, max) {
                let i = choose|i: int| 0 <= i < s.len() && out_of_range(s[i], min, max);
                assert(bad_number_at(s, min, max, i));
            }
        }
    }
}

/// Where some number is bad, there is a first bad number.
proof fn lemma_first_bad_exists(s: Seq<i32>, min: i32, max: i32, i: int)
    requires
        0 <= i < s.len(),
        bad_number_at(s, min, max, i),
    ensures
        exists|k: int| is_first_bad_number(s, min, max, k),
    decreases i,
{
    if exists|k: int| 0 <= k < i && bad_number_at(s, min, max, k) {
        let k = choose|k: int| 0 <= k < i && bad_number_at(s, min, max, k);
        lemma_first_bad_exists(s, min, max, k);
    } else {
        assert(is_first_bad_number(s, min, max, i));
    }
}

/// How many bytes stay visible at each end of a phone number of `len` bytes:
/// a third of it, at most 4.
pub open spec fn visible_len(len: nat) -> nat {
    if len / 3 < 4 {
        len / 3
    } else {
        4
    }
}

/// A phone number of fewer than 8 bytes is shown unchanged; a longer one keeps
/// its first and last `visible_len` bytes and shows a `*` for each byte in
/// between.
pub open spec fn masked_phone(chars: Seq<char>, bytes: Seq<u8>) -> Seq<char> {
    if bytes.len() < 8 {
        chars
    } else {
        let v = visible_len(bytes.len());
        decode_utf8(bytes.subrange(0, v as int)) + repeat_char('*', (bytes.len() - 2 * v) as nat)
            + decode_utf8(bytes.subrange(bytes.len() - v, bytes.len() as int))
    }
}

/// Masks a phone number for display, e.g. `+2250701234567` becomes
/// `+225******4567`. The cuts fall on byte positions, so they must fall between
/// characters.
pub fn mask_phone_number(phone: &str) -> (r: String)
    requires
        phone.spec_bytes().len() <= usize::MAX,
        phone.spec_bytes().len() >= 8 ==> is_char_boundary(
            phone.spec_bytes(),
            visible_len(phone.spec_bytes().len()) as int,
        ) && is_char_boundary(
            phone.spec_bytes(),
            phone.spec_bytes().len() - visible_len(phone.spec_bytes().len()),
        ),
    ensures
        r@ == masked_phone(phone@, phone.spec_bytes()),
{
    let len = phone.len();
    if len < 8 {
        return String::from_str(phone);
    }
    let v: usize = if len / 3 < 4 {
        len / 3
    } else {
        4
    };
    let (start, _) = phone.split_at(v);
    let (_, end) = phone.split_at(len - v);
    let masked_len = len - 2 * v;
    let mut r = String::from_str(start);
    let mut k: usize = 0;
    while k < masked_len
        invariant
            k <= masked_len,
            r@ == start@ + repeat_char('*', k as nat),
        decreases masked_len - k,
    {
        proof {
            reveal_strlit("*");
        }
        r.append("*");
        k = k + 1;
        assert(r@ =~= start@ + repeat_char('*', k as nat));
    }
    r.append(end);
    proof {
        let b = phone.spec_bytes();
        encode_utf8_decode_utf8(start@);
        encode_utf8_decode_utf8(end@);
        assert(v == visible_len(b.len()));
        assert(start.spec_bytes() == b.subrange(0, v as int));
        assert(decode_utf8(b.subrange(0, v as int)) == start@);
        assert(end.spec_bytes() == b.subrange(b.len() - v, b.len() as int));
        assert(decode_utf8(b.subrange(b.len() - v, b.len() as int)) == end@);
        assert(r@ =~= masked_phone(phone@, phone.spec_bytes()));
    }
    r
}

} // verus!
