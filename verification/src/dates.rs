//! Calendar dates as plain fields, parsed and obtained through `chrono`.

use vstd::prelude::*;

use chrono::Datelike;

use crate::interaction::DateParts;
use crate::strutil::push_char;
use crate::strutil::spec_u64_string;
use crate::strutil::u64_to_string;

verus! {

/// The calendar date an ISO `YYYY-MM-DD` string names, if it names one.
pub uninterp spec fn iso_date_of(s: Seq<char>) -> Option<DateParts>;

/// Relies on `chrono::NaiveDate::parse_from_str` with the format
/// `"%Y-%m-%d"`, and on `NaiveDate::year`, `month` and `day` to read the
/// result out: parsing is a deterministic function of the text, and a parsed
/// date's month and day lie in their calendar ranges.
#[verifier::external_body]
pub fn parse_iso_date(s: &str) -> (r: Option<DateParts>)
    ensures
        r == iso_date_of(s@),
        r matches Some(d) ==> 1 <= d.month <= 12 && 1 <= d.day <= 31,
{
    match chrono::NaiveDate::parse_from_str(s, "%Y-%m-%d") {
        Ok(d) => Some(
            DateParts { year: d.year(), month: d.month() as u8, day: d.day() as u8 },
        ),
        Err(_) => None,
    }
}

/// Relies on `chrono::Local::now` and `NaiveDate::year`/`month`/`day`: the
/// current local calendar date. Which day it is promises nothing, beyond the
/// calendar ranges of month and day.
#[verifier::external_body]
pub fn today() -> (r: DateParts)
    ensures
        1 <= r.month <= 12,
        1 <= r.day <= 31,
{
    let d = chrono::Local::now().date_naive();
    DateParts { year: d.year(), month: d.month() as u8, day: d.day() as u8 }
}

/// `n` in decimal, zero-padded to two digits.
pub open spec fn spec_padded2(n: nat) -> Seq<char> {
    if n < 10 {
        seq!['0'] + spec_u64_string(n)
    } else {
        spec_u64_string(n)
    }
}

/// `n` in decimal, zero-padded to four digits.
pub open spec fn spec_padded4(n: nat) -> Seq<char> {
    if n < 10 {
        seq!['0', '0', '0'] + spec_u64_string(n)
    } else if n < 100 {
        seq!['0', '0'] + spec_u64_string(n)
    } else if n < 1000 {
        seq!['0'] + spec_u64_string(n)
    } else {
        spec_u64_string(n)
    }
}

/// The ISO `YYYY-MM-DD` text of a date: the year zero-padded to four digits
/// (with a leading minus for a year before zero), month and day to two.
pub open spec fn spec_iso_of_parts(d: DateParts) -> Seq<char> {
    let y: Seq<char> = if d.year >= 0 {
        spec_padded4(d.year as nat)
    } else {
        seq!['-'] + spec_padded4((-(d.year as int)) as nat)
    };
    y + seq!['-'] + spec_padded2(d.month as nat) + seq!['-'] + spec_padded2(d.day as nat)
}

fn push_padded4(out: &mut String, n: u64)
    ensures
        final(out)@ == old(out)@ + spec_padded4(n as nat),
{
    if n < 10 {
        push_char(out, '0');
        push_char(out, '0');
        push_char(out, '0');
    } else if n < 100 {
        push_char(out, '0');
        push_char(out, '0');
    } else if n < 1000 {
        push_char(out, '0');
    }
    let digits = u64_to_string(n);
    out.append(digits.as_str());
    proof {
        assert(out@ =~= old(out)@ + spec_padded4(n as nat));
    }
}

/// Formats a date as ISO `YYYY-MM-DD` text.
pub fn date_to_iso(d: DateParts) -> (r: String)
    ensures
        r@ == spec_iso_of_parts(d),
{
    let mut out = String::new();
    if d.year >= 0 {
        push_padded4(&mut out, d.year as u64);
    } else {
        push_char(&mut out, '-');
        let mag: i64 = -(d.year as i64);
        push_padded4(&mut out, mag as u64);
    }
    push_char(&mut out, '-');
    if d.month < 10 {
        push_char(&mut out, '0');
    }
    let m = u64_to_string(d.month as u64);
    out.append(m.as_str());
    push_char(&mut out, '-');
    if d.day < 10 {
        push_char(&mut out, '0');
    }
    let dd = u64_to_string(d.day as u64);
    out.append(dd.as_str());
    proof {
        assert(out@ =~= spec_iso_of_parts(d));
    }
    out
}

} // verus!
