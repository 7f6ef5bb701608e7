//! Calendar dates and the day on which a run takes place.

use crate::number::{is_digit, lemma_decimal, lemma_padded, padded, push_padded};
use vstd::prelude::*;

verus! {

/// A day of the calendar.
#[derive(Clone, Copy, Debug, PartialEq, Eq, Structural)]
pub struct Date {
    pub year: i32,
    pub month: u8,
    pub day: u8,
}

/// The date in ISO 8601 notation: the year in at least four digits, with a
/// sign where it is negative or has more than four digits, then month and
/// day in two digits each, with hyphens between.
pub open spec fn iso_date(year: int, month: nat, day: nat) -> Seq<char> {
    let sign = if year < 0 {
        seq!['-']
    } else if year > 9999 {
        seq!['+']
    } else {
        Seq::empty()
    };
    let magnitude = if year < 0 {
        (-year) as nat
    } else {
        year as nat
    };
    sign + padded(magnitude, 4) + seq!['-'] + padded(month, 2) + seq!['-'] + padded(day, 2)
}

impl Date {
    /// Whether month and day are in the range of a calendar.
    pub open spec fn in_range(&self) -> bool {
        1 <= self.month <= 12 && 1 <= self.day <= 31
    }

    /// The date in ISO 8601 notation.
    pub open spec fn iso_spec(&self) -> Seq<char> {
        iso_date(self.year as int, self.month as nat, self.day as nat)
    }

    /// The date in ISO 8601 notation, as characters.
    pub fn iso_chars(&self) -> (r: Vec<char>)
        ensures
            r@ == self.iso_spec(),
    {
        let mut r: Vec<char> = Vec::new();
        let magnitude: u64 = if self.year < 0 {
            r.push('-');
            (-(self.year as i64)) as u64
        } else {
            if self.year > 9999 {
                r.push('+');
            }
            self.year as u64
        };
        push_padded(&mut r, magnitude, 4);
        r.push('-');
        push_padded(&mut r, self.month as u64, 2);
        r.push('-');
        push_padded(&mut r, self.day as u64, 2);
        r
    }
}

/// A day of the years 0 to 9999 is written as four digits, a hyphen, two
/// digits, a hyphen and two digits.
pub proof fn lemma_iso_date_shape(date: Date)
    requires
        date.in_range(),
        0 <= date.year <= 9999,
    ensures
        date.iso_spec().len() == 10,
        date.iso_spec()[4] == '-',
        date.iso_spec()[7] == '-',
        forall|i: int|
            0 <= i < 10 && i != 4 && i != 7 ==> is_digit(#[trigger] date.iso_spec()[i]),
{
    let d = padded(date.day as nat, 2);
    lemma_decimal(date.year as nat);
    lemma_decimal(date.month as nat);
    lemma_decimal(date.day as nat);
    lemma_padded(date.year as nat, 4);
    lemma_padded(date.month as nat, 2);
    lemma_padded(date.day as nat, 2);
}

/// Asks `time::OffsetDateTime::now_utc` for the present moment and
/// `to_calendar_date` for its day in UTC. Believed: the month is from 1 to
/// 12 and the day from 1 to 31. Which day comes back depends on the clock.
#[verifier::external_body]
pub(crate) fn utc_today() -> (d: Date)
    ensures
        d.in_range(),
{
    let (year, month, day) = time::OffsetDateTime::now_utc().to_calendar_date();
    Date { year, month: u8::from(month), day }
}

} // verus!
