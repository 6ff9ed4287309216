//! Instants as microseconds since the Unix epoch (UTC), and the calls into
//! `chrono` that read the clock, build instants and parse RFC 3339 texts.
use vstd::prelude::*;

verus! {

/// The earliest second that `chrono` represents (January 1 of the year -262143).
pub const CHRONO_MIN_TIMESTAMP_SECS: i64 = -8_334_601_228_800;
/// The last second that `chrono` represents (December 31, 262142 CE, 23:59:59).
pub const CHRONO_MAX_TIMESTAMP_SECS: i64 = 8_210_266_876_799;

pub const MICROS_PER_SECOND: i64 = 1_000_000;
pub const MICROS_PER_MINUTE: i64 = 60_000_000;

/// The instant that `chrono::DateTime::parse_from_rfc3339` reads from a text,
/// in microseconds since the epoch, or `None` where it reports an error.
pub uninterp spec fn rfc3339_instant_micros(text: Seq<char>) -> Option<i64>;

/// An instant that `chrono::DateTime<Utc>` represents, in microseconds.
pub open spec fn in_chrono_range(micros: i64) -> bool {
    CHRONO_MIN_TIMESTAMP_SECS * MICROS_PER_SECOND <= micros
        && micros <= CHRONO_MAX_TIMESTAMP_SECS * MICROS_PER_SECOND + 999_999
}

/// `chrono::Utc::now()`, in microseconds since the epoch. Only what holds of
/// every `DateTime<Utc>` is claimed: it lies in chrono's range.
#[verifier::external_body]
pub(crate) fn utc_now_micros() -> (r: i64)
    ensures
        in_chrono_range(r),
{
    chrono::Utc::now().timestamp_micros()
}

/// `chrono::DateTime::<Utc>::from_timestamp(secs, 0)` in microseconds: an
/// instant exactly when `secs` lies in chrono's range.
#[verifier::external_body]
pub(crate) fn utc_micros_from_timestamp(secs: i64) -> (r: Option<i64>)
    ensures
        r is Some <==> (CHRONO_MIN_TIMESTAMP_SECS <= secs && secs <= CHRONO_MAX_TIMESTAMP_SECS),
        r matches Some(m) ==> m == secs * MICROS_PER_SECOND,
{
    chrono::DateTime::<chrono::Utc>::from_timestamp(secs, 0).map(|d| d.timestamp_micros())
}

/// `chrono::DateTime::<Utc>::from_timestamp_millis(millis)` in microseconds:
/// an instant exactly when the millisecond lies in chrono's range.
#[verifier::external_body]
pub(crate) fn utc_micros_from_timestamp_millis(millis: i64) -> (r: Option<i64>)
    ensures
        r is Some <==> (CHRONO_MIN_TIMESTAMP_SECS * 1000 <= millis && millis <= CHRONO_MAX_TIMESTAMP_SECS * 1000 + 999),
        r matches Some(m) ==> m == millis * 1000,
{
    chrono::DateTime::<chrono::Utc>::from_timestamp_millis(millis).map(|d| d.timestamp_micros())
}

/// `chrono::DateTime::parse_from_rfc3339(text)`, converted to UTC, in
/// microseconds since the epoch (sub-microsecond digits are dropped); a
/// parsed instant lies in chrono's range.
#[verifier::external_body]
pub(crate) fn parse_rfc3339_micros(text: &str) -> (r: Option<i64>)
    ensures
        r == rfc3339_instant_micros(text@),
        r matches Some(m) ==> in_chrono_range(m),
{
    match chrono::DateTime::parse_from_rfc3339(text) {
        Ok(d) => Some(d.timestamp_micros()),
        Err(_) => None,
    }
}

/// The text that `chrono::DateTime::<Utc>::to_rfc3339` writes for an
/// instant given in microseconds since the epoch.
pub uninterp spec fn rfc3339_text(micros: i64) -> Seq<char>;

/// `DateTime::<Utc>::from_timestamp_micros(micros)` written by `to_rfc3339`
/// (`2026-02-28T16:30:00+00:00`).
#[verifier::external_body]
pub(crate) fn format_rfc3339_micros(micros: i64) -> (r: String)
    requires
        in_chrono_range(micros),
    ensures
        r@ == rfc3339_text(micros),
{
    match chrono::DateTime::<chrono::Utc>::from_timestamp_micros(micros) {
        Some(d) => d.to_rfc3339(),
        None => String::new(),
    }
}

} // verus!
