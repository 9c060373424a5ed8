//! Instants in UTC, as the entities record them.
//!
//! An instant is kept as whole seconds since the Unix epoch and the
//! nanoseconds into that second, the way chrono reports a `DateTime<Utc>`.
//! chrono reads the clock and writes and reads RFC 3339 text.
use vstd::prelude::*;

verus! {

/// The earliest second that chrono can represent: 1 January of the year
/// -262143 (262144 BCE), the first day of its `NaiveDate::MIN`.
pub const MIN_INSTANT_SECS: i64 = -8_334_601_228_800i64;

/// The last second that chrono can represent (31 December 262142 CE).
pub const MAX_INSTANT_SECS: i64 = 8_210_266_876_799i64;

/// The first second of the year 0000.
pub const FOUR_DIGIT_YEAR_FIRST_SECS: i64 = -62_167_219_200i64;

/// The last second of the year 9999.
pub const FOUR_DIGIT_YEAR_LAST_SECS: i64 = 253_402_300_799i64;

/// An instant in UTC: seconds since 1970-01-01T00:00:00Z and nanoseconds.
///
/// Nanoseconds from one second up mark a leap second, which chrono allows
/// only in the last second of a minute.
#[derive(Clone, Copy, Debug)]
pub struct Timestamp {
    pub secs: i64,
    pub nanos: u32,
}

impl Timestamp {
    /// Whether chrono can represent this instant as a `DateTime<Utc>`.
    pub open spec fn is_instant(self) -> bool {
        &&& MIN_INSTANT_SECS <= self.secs <= MAX_INSTANT_SECS
        &&& (self.nanos < 1_000_000_000 || (self.nanos < 2_000_000_000 && self.secs % 60 == 59))
    }

    /// Whether the instant falls in a year that RFC 3339 writes with four
    /// digits (0000 to 9999).
    pub open spec fn has_four_digit_year(self) -> bool {
        FOUR_DIGIT_YEAR_FIRST_SECS <= self.secs <= FOUR_DIGIT_YEAR_LAST_SECS
    }

    /// The instant as a pair of seconds and nanoseconds.
    pub open spec fn parts(self) -> (i64, u32) {
        (self.secs, self.nanos)
    }

    /// The instant given by `secs` and `nanos`, when chrono can represent it.
    pub fn from_unix(secs: i64, nanos: u32) -> (r: Option<Timestamp>)
        ensures
            r is Some <==> (Timestamp { secs, nanos }).is_instant(),
            r matches Some(t) ==> t.secs == secs && t.nanos == nanos,
    {
        let t = Timestamp { secs, nanos };
        let last_of_minute = secs % 60 == 59 || secs % 60 == -1;
        if MIN_INSTANT_SECS <= secs && secs <= MAX_INSTANT_SECS && (nanos < 1_000_000_000 || (
        nanos < 2_000_000_000 && last_of_minute)) {
            Some(t)
        } else {
            None
        }
    }
}

/// The RFC 3339 text that chrono's `DateTime::to_rfc3339` writes for an
/// instant in UTC.
pub uninterp spec fn rfc3339_form(secs: i64, nanos: u32) -> Seq<char>;

/// The instant that chrono's `DateTime::parse_from_rfc3339` reads from a
/// text, in UTC, or `None` where it refuses the text.
pub uninterp spec fn rfc3339_instant(text: Seq<char>) -> Option<(i64, u32)>;

/// The text that chrono's `format(pattern)` writes for an instant in UTC.
pub uninterp spec fn instant_format(secs: i64, nanos: u32, pattern: Seq<char>) -> Seq<char>;

/// The patterns the library formats instants with: the day of an
/// automatic idempotency key, and the date-and-time and time of a replay.
pub open spec fn known_pattern(pattern: Seq<char>) -> bool {
    ||| pattern == "%Y%m%d"@
    ||| pattern == "%Y-%m-%d %H:%M:%S UTC"@
    ||| pattern == "%H:%M:%S"@
}

/// The `%Y%m%d` text (year, month and day, digits only) of an instant.
pub open spec fn day_form(secs: i64, nanos: u32) -> Seq<char> {
    instant_format(secs, nanos, "%Y%m%d"@)
}

/// Reads the clock: calls chrono's `Utc::now`.
///
/// Claims only that the instant is one chrono can represent, which holds
/// because `Utc::now` builds it with `DateTime::from_timestamp(..).unwrap()`.
/// Which instant comes back depends on the clock, so nothing else is claimed.
#[verifier::external_body]
pub(crate) fn utc_now() -> (t: Timestamp)
    ensures
        t.is_instant(),
{
    let now = chrono::Utc::now();
    Timestamp { secs: now.timestamp(), nanos: now.timestamp_subsec_nanos() }
}

/// Writes an instant as RFC 3339 text: calls chrono's `DateTime::to_rfc3339`
/// on the `DateTime<Utc>` of the instant.
///
/// Claims that the text is `rfc3339_form` of the instant, and that, for a
/// year of four digits, chrono's `parse_from_rfc3339` reads the same instant
/// back: `write_rfc3339` writes the year as four digits, the fraction in
/// full (3, 6 or 9 digits) and a leap second as second 60, all of which
/// `parse_rfc3339` reads back exactly. Years outside 0000..9999 are written
/// with a sign, which the parser refuses, so nothing is claimed for them.
#[verifier::external_body]
pub(crate) fn rfc3339_text(t: Timestamp) -> (s: String)
    requires
        t.is_instant(),
    ensures
        s@ == rfc3339_form(t.secs, t.nanos),
        t.has_four_digit_year() ==> rfc3339_instant(s@) == Some(t.parts()),
{
    chrono::DateTime::from_timestamp(t.secs, t.nanos).unwrap().to_rfc3339()
}

/// Reads RFC 3339 text: calls chrono's `DateTime::parse_from_rfc3339` and
/// takes the instant of the result in UTC.
///
/// Claims that the result is `rfc3339_instant` of the text, and that an
/// instant read is one chrono can represent.
#[verifier::external_body]
pub(crate) fn parse_rfc3339(s: &str) -> (r: Option<Timestamp>)
    ensures
        r matches Some(t) ==> rfc3339_instant(s@) == Some(t.parts()) && t.is_instant(),
        r is None ==> rfc3339_instant(s@) is None,
{
    match chrono::DateTime::parse_from_rfc3339(s) {
        Ok(dt) => Some(Timestamp { secs: dt.timestamp(), nanos: dt.timestamp_subsec_nanos() }),
        Err(_) => None,
    }
}

/// Formats an instant in UTC: calls chrono's `format` with the pattern on
/// the `DateTime<Utc>` of the instant, and `to_string` on the result.
///
/// Claims that the text is `instant_format` of the instant and the pattern.
/// chrono's `to_string` panics where a pattern holds an item it cannot
/// write, so the pattern is one of the library's own, which hold only
/// numeric fields and plain text.
#[verifier::external_body]
pub(crate) fn format_instant(t: Timestamp, pattern: &str) -> (s: String)
    requires
        t.is_instant(),
        known_pattern(pattern@),
    ensures
        s@ == instant_format(t.secs, t.nanos, pattern@),
{
    chrono::DateTime::from_timestamp(t.secs, t.nanos).unwrap().format(pattern).to_string()
}

} // verus!
