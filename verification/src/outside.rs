//! The calls that the library makes into `uuid`, `chrono`, `hex` and the
//! standard library where vstd gives the function no specification. Each
//! contract here is believed, not proved: its doc comment says what it claims.

use vstd::prelude::*;
use vstd::utf8::*;
use crate::text::{hex_lower, uuid_text};

verus! {

/// Calls `uuid::Uuid::new_v4()` and returns the UUID's 128-bit value
/// (`Uuid::as_u128`, big-endian). The value is random; the only claim is what
/// `new_v4` fixes in every outcome: the version nibble is 4 and the variant
/// bits are `10`.
#[verifier::external_body]
pub fn random_uuid() -> (id: u128)
    ensures
        (id >> 76u128) & 0xfu128 == 4u128,
        (id >> 62u128) & 0x3u128 == 2u128,
{
    uuid::Uuid::new_v4().as_u128()
}

/// The latest second that a `chrono::DateTime<Utc>` can hold: the last second
/// of December 31 of year 262142, `NaiveDate::MAX`.
pub const LATEST_UTC_SECONDS: i64 = 8_210_266_876_799i64;

/// Calls `chrono::Utc::now()` once and returns its `timestamp()` (seconds
/// since the Unix epoch, UTC) and its `timestamp_subsec_nanos()` (the
/// nanoseconds within that second). It reads the clock, so the only claim is
/// what holds of every outcome: `Utc::now` panics on a system time before the
/// Unix epoch and builds its value with `DateTime::from_timestamp(secs,
/// subsec_nanos).unwrap()`, so the seconds are not negative and not past the
/// range of `DateTime<Utc>`, and the nanoseconds are those of a `Duration`,
/// below a billion.
#[verifier::external_body]
pub fn utc_now() -> (t: (i64, u32))
    ensures
        0 <= t.0 <= LATEST_UTC_SECONDS,
        t.1 < 1_000_000_000,
{
    let now = chrono::Utc::now();
    (now.timestamp(), now.timestamp_subsec_nanos())
}

/// The text that `chrono` writes for the second `secs` after the Unix epoch,
/// UTC, in the format `%Y-%m-%dT%H:%M:%SZ`.
pub uninterp spec fn utc_seconds_text(secs: i64) -> Seq<char>;

/// Calls `chrono::DateTime::from_timestamp(secs, 0)` and writes the time with
/// `format("%Y-%m-%dT%H:%M:%SZ")`. The calendar arithmetic is not restated:
/// the result is named by `utc_seconds_text`. `from_timestamp` gives a time
/// for every second in the range of `DateTime<Utc>`, to which `requires`
/// keeps `secs`.
#[verifier::external_body]
pub fn format_utc_seconds(secs: i64) -> (s: String)
    requires
        0 <= secs <= LATEST_UTC_SECONDS,
    ensures
        s@ == utc_seconds_text(secs),
{
    match chrono::DateTime::from_timestamp(secs, 0) {
        Some(t) => t.format("%Y-%m-%dT%H:%M:%SZ").to_string(),
        None => String::new(),
    }
}

/// Calls `hex::encode(bytes)`, which writes each byte as two lower-case
/// hexadecimal digits, high nibble first (the table `0123456789abcdef`).
#[verifier::external_body]
pub fn hex_encode(bytes: &[u8]) -> (s: String)
    ensures
        s@ == hex_lower(bytes@),
{
    hex::encode(bytes)
}

/// Calls `uuid::Uuid::from_u128(id).to_string()`: `Display` of `Uuid` writes
/// the hyphenated lower-case form of the big-endian bytes of `id`.
#[verifier::external_body]
pub fn uuid_string(id: u128) -> (s: String)
    ensures
        s@ == uuid_text(id),
{
    uuid::Uuid::from_u128(id).to_string()
}

/// What `uuid::Uuid::parse_str` gives for a text: the 128-bit value of the
/// UUID it reads, or `None` where it returns an error.
pub uninterp spec fn parsed_uuid(text: Seq<char>) -> Option<u128>;

/// Calls `uuid::Uuid::parse_str(text)` and maps the UUID to its 128-bit value.
/// The accepted forms (simple, hyphenated, braced, URN) are not restated: the
/// result is named by `parsed_uuid`.
#[verifier::external_body]
pub fn parse_uuid(text: &str) -> (r: Option<u128>)
    ensures
        r == parsed_uuid(text@),
{
    match uuid::Uuid::parse_str(text) {
        Ok(u) => Some(u.as_u128()),
        Err(_) => None,
    }
}

/// What `String::from_utf8_lossy` gives for a byte sequence.
pub uninterp spec fn lossy_text(bytes: Seq<u8>) -> Seq<char>;

/// Calls `String::from_utf8_lossy(bytes)`. Its documentation states that
/// valid UTF-8 is decoded unchanged; what it writes for invalid sequences (the
/// replacement character) is left to the name `lossy_text`.
#[verifier::external_body]
pub fn utf8_lossy(bytes: &[u8]) -> (s: String)
    ensures
        s@ == lossy_text(bytes@),
        valid_utf8(bytes@) ==> s@ == decode_utf8(bytes@),
{
    String::from_utf8_lossy(bytes).into_owned()
}

} // verus!
