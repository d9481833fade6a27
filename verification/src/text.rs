//! Decimal and hexadecimal text of integers, as `Display` writes them, and the
//! few string helpers that the rest of the library builds messages with.

use vstd::prelude::*;

verus! {

/// The character of the decimal digit `d` (`0 <= d < 10`).
pub open spec fn digit_char(d: int) -> char {
    (d + 48) as char
}

/// The decimal digits of `n`, most significant first, without leading zeros.
pub open spec fn nat_text(n: nat) -> Seq<char>
    decreases n,
{
    if n < 10 {
        seq![digit_char(n as int)]
    } else {
        nat_text(n / 10).push(digit_char((n % 10) as int))
    }
}

/// The decimal text of an integer: a `-` sign for negative values, then the
/// digits of its magnitude.
pub open spec fn int_text(i: int) -> Seq<char> {
    if i < 0 {
        seq!['-'] + nat_text((-i) as nat)
    } else {
        nat_text(i as nat)
    }
}

/// The lower-case hexadecimal character of the nibble `d` (`0 <= d < 16`).
pub open spec fn hex_char(d: int) -> char {
    if d < 10 {
        (d + 48) as char
    } else {
        (d + 87) as char
    }
}

/// Two lower-case hexadecimal characters per byte, high nibble first.
pub open spec fn hex_lower(bytes: Seq<u8>) -> Seq<char>
    decreases bytes.len(),
{
    if bytes.len() == 0 {
        seq![]
    } else {
        seq![hex_char((bytes[0] / 16) as int), hex_char((bytes[0] % 16) as int)] + hex_lower(bytes.drop_first())
    }
}

/// The sixteen bytes of `x`, most significant first.
pub open spec fn u128_be_bytes(x: u128) -> Seq<u8> {
    Seq::new(16, |i: int| ((x >> ((8 * (15 - i)) as u128)) & 0xff) as u8)
}

/// The hyphenated lower-case text of a UUID whose 128-bit value is `id`:
/// 8, 4, 4, 4 and 12 hexadecimal digits separated by `-`.
pub open spec fn uuid_text(id: u128) -> Seq<char> {
    let h = hex_lower(u128_be_bytes(id));
    h.subrange(0, 8) + seq!['-'] + h.subrange(8, 12) + seq!['-'] + h.subrange(12, 16) + seq![
        '-',
    ] + h.subrange(16, 20) + seq!['-'] + h.subrange(20, 32)
}

/// `id` is the 128-bit value of a version-4 (random) UUID: its version
/// nibble is 4 and its variant bits are `10`.
pub open spec fn is_v4_uuid(id: u128) -> bool {
    (id >> 76u128) & 0xfu128 == 4u128 && (id >> 62u128) & 0x3u128 == 2u128
}

/// `n` copies of `c`.
pub open spec fn repeat_char(c: char, n: nat) -> Seq<char> {
    Seq::new(n, |i: int| c)
}

/// The digits after the decimal point of an amount of hundredths whose
/// remainder is `r` (`0 <= r < 100`): none for a whole amount, one digit when
/// the second is zero, else two.
pub open spec fn hundredths_text(r: nat) -> Seq<char> {
    if r == 0 {
        seq![]
    } else if r % 10 == 0 {
        seq!['.', digit_char((r / 10) as int)]
    } else {
        seq!['.', digit_char((r / 10) as int), digit_char((r % 10) as int)]
    }
}

/// The text of `c` hundredths as a decimal number with trailing zeros of the
/// fraction removed: 100000 gives "1000", 12345 gives "123.45", -50 gives
/// "-0.5".
pub open spec fn hundredths_amount_text(c: int) -> Seq<char> {
    let m: nat = if c < 0 {
        (-c) as nat
    } else {
        c as nat
    };
    (if c < 0 {
        seq!['-']
    } else {
        seq![]
    }) + nat_text(m / 100) + hundredths_text(m % 100)
}

/// The literal of a decimal digit.
pub fn digit_str(d: u64) -> (s: &'static str)
    requires
        d < 10,
    ensures
        s@ == seq![digit_char(d as int)],
{
    if d == 0 {
        proof {
            reveal_strlit("0");
        }
        "0"
    } else if d == 1 {
        proof {
            reveal_strlit("1");
        }
        "1"
    } else if d == 2 {
        proof {
            reveal_strlit("2");
        }
        "2"
    } else if d == 3 {
        proof {
            reveal_strlit("3");
        }
        "3"
    } else if d == 4 {
        proof {
            reveal_strlit("4");
        }
        "4"
    } else if d == 5 {
        proof {
            reveal_strlit("5");
        }
        "5"
    } else if d == 6 {
        proof {
            reveal_strlit("6");
        }
        "6"
    } else if d == 7 {
        proof {
            reveal_strlit("7");
        }
        "7"
    } else if d == 8 {
        proof {
            reveal_strlit("8");
        }
        "8"
    } else {
        proof {
            reveal_strlit("9");
        }
        "9"
    }
}

/// Appends the decimal digits of `n` to `out`.
pub fn push_u64_text(out: &mut String, n: u64)
    ensures
        final(out)@ == old(out)@ + nat_text(n as nat),
    decreases n,
{
    if n >= 10 {
        push_u64_text(out, n / 10);
    }
    let d = digit_str(n % 10);
    out.append(d);
    proof {
        if n >= 10 {
            assert(nat_text(n as nat) == nat_text((n / 10) as nat).push(digit_char((n % 10) as int)));
            assert(out@ =~= old(out)@ + nat_text(n as nat));
        } else {
            assert(nat_text(n as nat) == seq![digit_char(n as int)]);
            assert(out@ =~= old(out)@ + nat_text(n as nat));
        }
    }
}

/// The magnitude of `n` as an unsigned number.
pub fn i64_magnitude(n: i64) -> (m: u64)
    ensures
        m as int == if n < 0 {
            -(n as int)
        } else {
            n as int
        },
{
    if n >= 0 {
        n as u64
    } else if n == i64::MIN {
        9223372036854775808u64
    } else {
        (-n) as u64
    }
}

/// Appends the decimal text of `n` (with a `-` sign when negative) to `out`.
pub fn push_i64_text(out: &mut String, n: i64)
    ensures
        final(out)@ == old(out)@ + int_text(n as int),
{
    let m = i64_magnitude(n);
    if n < 0 {
        out.append(minus_str());
    }
    push_u64_text(out, m);
    assert(out@ =~= old(out)@ + int_text(n as int));
}

/// The literal `-`.
pub fn minus_str() -> (s: &'static str)
    ensures
        s@ == seq!['-'],
{
    proof {
        reveal_strlit("-");
    }
    "-"
}

/// Appends the text of `c` hundredths (see `hundredths_amount_text`) to `out`.
pub fn push_hundredths_amount(out: &mut String, c: i64)
    ensures
        final(out)@ == old(out)@ + hundredths_amount_text(c as int),
{
    let m = i64_magnitude(c);
    if c < 0 {
        out.append(minus_str());
    }
    let ghost with_sign = out@;
    push_u64_text(out, m / 100);
    let r = m % 100;
    if r != 0 {
        proof {
            reveal_strlit(".");
        }
        out.append(".");
        out.append(digit_str(r / 10));
        if r % 10 != 0 {
            out.append(digit_str(r % 10));
        }
    }
    assert(out@ =~= old(out)@ + hundredths_amount_text(c as int));
}

} // verus!
