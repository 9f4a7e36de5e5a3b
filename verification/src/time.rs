//! Plain values for time: instants, lengths of time and calendar dates.

use vstd::prelude::*;
use vstd::string::StringExecFns;
use crate::text::{push_zero_padded, zero_padded};

verus! {

/// Nanoseconds in one millisecond.
pub const NANOS_PER_MILLI: u128 = 1_000_000;

/// Nanoseconds in one minute.
pub const NANOS_PER_MINUTE: u128 = 60_000_000_000;

/// Nanoseconds in one hour.
pub const NANOS_PER_HOUR: u128 = 3_600_000_000_000;

/// An instant on the UTC time line, counted in nanoseconds from the Unix
/// epoch. 64 bits reach from the year 1677 to the year 2262.
///
/// Its view is that count as a mathematical integer.
#[derive(Clone, Copy, Debug, PartialEq, Eq, Hash)]
pub struct Timestamp {
    pub nanos: i64,
}

impl View for Timestamp {
    type V = int;

    open spec fn view(&self) -> int {
        self.nanos as int
    }
}

/// A non-negative length of time in nanoseconds.
///
/// Its view is that length as a natural number.
#[derive(Clone, Copy, Debug, PartialEq, Eq, Hash)]
pub struct Duration {
    pub nanos: u128,
}

impl View for Duration {
    type V = nat;

    open spec fn view(&self) -> nat {
        self.nanos as nat
    }
}

impl Timestamp {
    /// The instant `nanos` nanoseconds after the Unix epoch (before it, if negative).
    pub fn from_nanos(nanos: i64) -> (t: Timestamp)
        ensures
            t@ == nanos,
    {
        Timestamp { nanos }
    }

    /// Whether this instant is `other` or earlier.
    pub fn not_after(&self, other: Timestamp) -> (b: bool)
        ensures
            b == (self@ <= other@),
    {
        self.nanos <= other.nanos
    }

    /// The time elapsed from `earlier` to this instant.
    pub fn duration_since(&self, earlier: Timestamp) -> (d: Duration)
        requires
            earlier@ <= self@,
        ensures
            d@ == self@ - earlier@,
    {
        let span: i128 = self.nanos as i128 - earlier.nanos as i128;
        Duration { nanos: span as u128 }
    }

    /// The instant `d` after this one, or `None` when it lies beyond the last
    /// instant that a `Timestamp` can hold.
    pub fn checked_add(&self, d: Duration) -> (r: Option<Timestamp>)
        ensures
            self@ + d@ <= i64::MAX ==> r is Some && r->0@ == self@ + d@,
            self@ + d@ > i64::MAX ==> r is None,
    {
        let room: u128 = (i64::MAX as i128 - self.nanos as i128) as u128;
        if d.nanos <= room {
            let sum: i128 = self.nanos as i128 + d.nanos as i128;
            Some(Timestamp { nanos: sum as i64 })
        } else {
            None
        }
    }
}

impl Duration {
    /// The empty length of time.
    pub fn zero() -> (d: Duration)
        ensures
            d@ == 0,
    {
        Duration { nanos: 0 }
    }

    /// A length of `nanos` nanoseconds.
    pub fn from_nanos(nanos: u128) -> (d: Duration)
        ensures
            d@ == nanos,
    {
        Duration { nanos }
    }

    /// A length of `minutes` minutes.
    pub fn minutes(minutes: u64) -> (d: Duration)
        ensures
            d@ == minutes * NANOS_PER_MINUTE,
    {
        Duration { nanos: minutes as u128 * NANOS_PER_MINUTE }
    }

    /// The number of whole milliseconds in this length of time.
    pub fn num_milliseconds(&self) -> (n: u128)
        ensures
            n == self@ / NANOS_PER_MILLI as nat,
    {
        self.nanos / NANOS_PER_MILLI
    }

    /// The number of whole minutes in this length of time.
    pub fn num_minutes(&self) -> (n: u128)
        ensures
            n == self@ / NANOS_PER_MINUTE as nat,
    {
        self.nanos / NANOS_PER_MINUTE
    }

    /// The number of whole hours in this length of time.
    pub fn num_hours(&self) -> (n: u128)
        ensures
            n == self@ / NANOS_PER_HOUR as nat,
    {
        self.nanos / NANOS_PER_HOUR
    }
}

/// A calendar date as its year, month and day numbers.
#[derive(Clone, Copy, Debug, PartialEq, Eq, Hash)]
pub struct Date {
    pub year: i32,
    pub month: u32,
    pub day: u32,
}

/// A year as ISO 8601 writes it: four digits for the years 0 to 9999, and
/// otherwise a sign and at least four digits.
pub open spec fn year_text(year: int) -> Seq<char> {
    if 0 <= year <= 9999 {
        zero_padded(year as nat, 4)
    } else if year < 0 {
        "-"@ + zero_padded((-year) as nat, 4)
    } else {
        "+"@ + zero_padded(year as nat, 4)
    }
}

impl Date {
    /// The date in ISO 8601 form: year, month and day, with hyphens
    /// between them, month and day in two digits.
    pub open spec fn iso_text(self) -> Seq<char> {
        year_text(self.year as int) + "-"@ + zero_padded(self.month as nat, 2) + "-"@
            + zero_padded(self.day as nat, 2)
    }

    /// The date in ISO 8601 form.
    pub fn to_iso(&self) -> (text: String)
        ensures
            text@ == self.iso_text(),
    {
        let mut text = String::new();
        if 0 <= self.year && self.year <= 9999 {
            push_zero_padded(&mut text, self.year as u128, 4);
        } else if self.year < 0 {
            text.append("-");
            push_zero_padded(&mut text, (-(self.year as i64)) as u128, 4);
        } else {
            text.append("+");
            push_zero_padded(&mut text, self.year as u128, 4);
        }
        text.append("-");
        push_zero_padded(&mut text, self.month as u128, 2);
        text.append("-");
        push_zero_padded(&mut text, self.day as u128, 2);
        text
    }
}

} // verus!
