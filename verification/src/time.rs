//! Instants on the UTC time line.
//!
//! An instant is a count of whole seconds since 1970-01-01T00:00:00Z and a
//! count of nanoseconds into that second. Calendar questions (which hour of
//! the day, which civil date) are answered by `chrono`; everything else is
//! integer arithmetic done here.

use vstd::prelude::*;

verus! {

/// Nanoseconds in a second.
pub const NANOS_PER_SECOND: u32 = 1_000_000_000;

/// 0000-01-01T00:00:00Z, the first second of the years that are written
/// with four digits.
pub const MIN_SECONDS: i64 = -62_167_219_200;

/// 9999-12-31T23:59:59Z, the last second of the years that are written with
/// four digits.
pub const MAX_SECONDS: i64 = 253_402_300_799;

/// An instant on the UTC time line.
#[derive(Clone, Copy, Debug, PartialEq, Eq)]
pub struct Timestamp {
    /// Whole seconds since the Unix epoch; negative before it.
    pub secs: i64,
    /// Nanoseconds past `secs`.
    pub nanos: u32,
}

/// The civil date of the UTC day that holds the instant `secs` seconds after
/// the Unix epoch, as `chrono` writes it (`2024-05-01`).
pub uninterp spec fn utc_date_text(secs: int) -> Seq<char>;

impl Timestamp {
    /// A timestamp is well formed when it lies in the years 0000 to 9999 and
    /// its nanoseconds stay within one second.
    pub open spec fn wf(&self) -> bool {
        &&& MIN_SECONDS <= self.secs <= MAX_SECONDS
        &&& self.nanos < NANOS_PER_SECOND
    }

    /// Nanoseconds since the Unix epoch.
    pub open spec fn as_nanos(&self) -> int {
        self.secs * 1_000_000_000 + self.nanos
    }

    /// The hour of the UTC day, 0 to 23.
    pub open spec fn hour(&self) -> int {
        (self.secs as int % 86_400) / 3_600
    }

    /// The civil UTC date of the instant.
    pub open spec fn date_text(&self) -> Seq<char> {
        utc_date_text(self.secs as int)
    }

    /// The timestamp `secs` seconds and `nanos` nanoseconds after the Unix
    /// epoch, or `None` when that is not well formed.
    pub fn new(secs: i64, nanos: u32) -> (t: Option<Timestamp>)
        ensures
            t == if (Timestamp { secs, nanos }).wf() {
                Some(Timestamp { secs, nanos })
            } else {
                None::<Timestamp>
            },
    {
        if MIN_SECONDS <= secs && secs <= MAX_SECONDS && nanos < NANOS_PER_SECOND {
            Some(Timestamp { secs, nanos })
        } else {
            None
        }
    }

    /// Whether more than `window_secs` seconds lie between `earlier` and
    /// `self`. An `earlier` that is in fact later gives `false`.
    pub fn elapsed_since_exceeds(&self, earlier: &Timestamp, window_secs: i64) -> (b: bool)
        ensures
            b == (self.as_nanos() - earlier.as_nanos() > window_secs * 1_000_000_000),
    {
        let whole: i128 = self.secs as i128 - earlier.secs as i128;
        let part: i128 = self.nanos as i128 - earlier.nanos as i128;
        let elapsed: i128 = whole * 1_000_000_000 + part;
        elapsed > window_secs as i128 * 1_000_000_000
    }

    /// The hour of the UTC day in which the instant falls.
    pub fn utc_hour(&self) -> (h: u32)
        requires
            self.wf(),
        ensures
            h == self.hour(),
            h < 24,
    {
        hour_of(self)
    }

    /// The civil UTC date of the instant, as text.
    pub fn utc_date(&self) -> (text: String)
        requires
            self.wf(),
        ensures
            text@ == self.date_text(),
    {
        date_of(self)
    }
}

/// Trusted: builds the instant with `chrono::DateTime::from_timestamp` and
/// reads its hour with `chrono::Timelike::hour`. `from_timestamp` splits the
/// seconds into days and seconds of the day by Euclidean division by 86 400,
/// and `hour` divides the seconds of the day by 3 600. For a well-formed
/// timestamp `from_timestamp` returns a value.
#[verifier::external_body]
fn hour_of(t: &Timestamp) -> (h: u32)
    requires
        t.wf(),
    ensures
        h == (t.secs as int % 86_400) / 3_600,
{
    chrono::Timelike::hour(&chrono::DateTime::from_timestamp(t.secs, t.nanos).unwrap())
}

/// Trusted: builds the instant with `chrono::DateTime::from_timestamp`, takes
/// its date with `DateTime::date_naive` and writes it with `NaiveDate`'s
/// `Display`. The date is that of the day in which the seconds fall, whatever
/// the nanoseconds are; the contract names the text and says nothing of its
/// characters. For a well-formed timestamp `from_timestamp` returns a value.
#[verifier::external_body]
fn date_of(t: &Timestamp) -> (text: String)
    requires
        t.wf(),
    ensures
        text@ == utc_date_text(t.secs as int),
{
    chrono::DateTime::from_timestamp(t.secs, t.nanos).unwrap().date_naive().to_string()
}

} // verus!
