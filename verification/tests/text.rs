use ivoirechain::scan::{parse_i64, parse_int};
use ivoirechain::text::{push_i64_text, push_u64_text};

fn i64_text(n: i64) -> String {
    let mut s = String::new();
    push_i64_text(&mut s, n);
    s
}

fn u64_text(n: u64) -> String {
    let mut s = String::new();
    push_u64_text(&mut s, n);
    s
}

#[test]
fn decimal_text() {
    assert_eq!(i64_text(0), "0");
    assert_eq!(i64_text(-42), "-42");
    assert_eq!(i64_text(i64::MIN), i64::MIN.to_string());
    assert_eq!(i64_text(i64::MAX), i64::MAX.to_string());
    assert_eq!(u64_text(u64::MAX), u64::MAX.to_string());
    assert_eq!(u64_text(1000), "1000");
}

#[test]
fn parse_like_std() {
    for s in [
        "0", "-0", "+7", "-9223372036854775808", "9223372036854775807", "9223372036854775808",
        "-9223372036854775809", "", "-", "+", " 1", "1 ", "12a", "007", "99999999999999999999",
    ] {
        assert_eq!(parse_i64(s), s.parse::<i64>().ok(), "input {:?}", s);
    }
}

#[test]
fn parse_int_like_std() {
    for s in ["0", "+0", "-0", "-1", "65535", "65536", "+65535", "", "+", "-", "1e3", " 7"] {
        assert_eq!(parse_int(s, 0, 65535), s.parse::<u16>().ok().map(i128::from), "u16 {:?}", s);
        assert_eq!(
            parse_int(s, i32::MIN as i128, i32::MAX as i128),
            s.parse::<i32>().ok().map(i128::from),
            "i32 {:?}",
            s
        );
    }
    for s in ["18446744073709551615", "18446744073709551616", "-1", "+18"] {
        assert_eq!(parse_int(s, 0, u64::MAX as i128), s.parse::<u64>().ok().map(i128::from));
    }
    assert_eq!(parse_int("-2147483648", i32::MIN as i128, i32::MAX as i128), Some(-2147483648));
    assert_eq!(parse_int("-2147483649", i32::MIN as i128, i32::MAX as i128), None);
}
