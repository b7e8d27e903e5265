//! Capture timestamps: UTC at second resolution, rendered as a sortable
//! token that names a snapshot directory.

use vstd::prelude::*;
use chrono::Datelike;
use chrono::Timelike;
use std::time::SystemTime;
use std::time::UNIX_EPOCH;
use crate::text::pad2_seq;
use crate::text::pad4_seq;
use crate::text::pad2_string;
use crate::text::pad4_string;
use crate::text::lex_less;
use crate::text::lemma_lex_prefix_less;
use crate::text::lemma_lex_prefix_equal;
use crate::text::lemma_pad2_order;
use crate::text::lemma_pad4_order;

verus! {

/// One capture instant, in UTC, at second resolution.
#[derive(Debug, Clone, Copy, PartialEq, Eq, Structural)]
pub struct Timestamp {
    pub year: u16,
    pub month: u8,
    pub day: u8,
    pub hour: u8,
    pub minute: u8,
    pub second: u8,
}

impl Timestamp {
    /// Field ranges: the year fits the four-digit token, the calendar and
    /// clock fields are within their usual bounds.
    pub open spec fn wf(&self) -> bool {
        &&& self.year <= 9999
        &&& 1 <= self.month <= 12
        &&& 1 <= self.day <= 31
        &&& self.hour <= 23
        &&& self.minute <= 59
        &&& self.second <= 59
    }

    /// The sortable token that names this instant's snapshot directory.
    pub open spec fn token_seq(&self) -> Seq<char> {
        pad4_seq(self.year as int) + "-"@ + pad2_seq(self.month as int) + "-"@ + pad2_seq(
            self.day as int,
        ) + "_"@ + pad2_seq(self.hour as int) + "-"@ + pad2_seq(self.minute as int) + "-"@
            + pad2_seq(self.second as int) + "_UTC"@
    }

    /// Build a timestamp from raw calendar and clock fields; `None` exactly
    /// where a field is out of range.
    pub fn from_parts(year: i32, month: u32, day: u32, hour: u32, minute: u32, second: u32) -> (r:
        Option<Timestamp>)
        ensures
            r is Some <==> (0 <= year <= 9999 && 1 <= month <= 12 && 1 <= day <= 31 && hour <= 23
                && minute <= 59 && second <= 59),
            r matches Some(t) ==> t.wf() && t.year == year && t.month == month && t.day == day
                && t.hour == hour && t.minute == minute && t.second == second,
    {
        if 0 <= year && year <= 9999 && 1 <= month && month <= 12 && 1 <= day && day <= 31 && hour
            <= 23 && minute <= 59 && second <= 59 {
            Some(
                Timestamp {
                    year: year as u16,
                    month: month as u8,
                    day: day as u8,
                    hour: hour as u8,
                    minute: minute as u8,
                    second: second as u8,
                },
            )
        } else {
            None
        }
    }

    /// Render the token, e.g. `2024-01-31_23-59-59_UTC`.
    pub fn token(&self) -> (r: String)
        requires
            self.wf(),
        ensures
            r@ == self.token_seq(),
    {
        let mut s = pad4_string(self.year as u64);
        s.append("-");
        s.append(pad2_string(self.month as u64).as_str());
        s.append("-");
        s.append(pad2_string(self.day as u64).as_str());
        s.append("_");
        s.append(pad2_string(self.hour as u64).as_str());
        s.append("-");
        s.append(pad2_string(self.minute as u64).as_str());
        s.append("-");
        s.append(pad2_string(self.second as u64).as_str());
        s.append("_UTC");
        proof {
            assert(s@ =~= self.token_seq());
        }
        s
    }
}

/// Calendar-and-clock order on timestamps: earlier year first, then month,
/// day, hour, minute, second.
pub open spec fn chronologically_before(t1: Timestamp, t2: Timestamp) -> bool {
    if t1.year != t2.year {
        t1.year < t2.year
    } else if t1.month != t2.month {
        t1.month < t2.month
    } else if t1.day != t2.day {
        t1.day < t2.day
    } else if t1.hour != t2.hour {
        t1.hour < t2.hour
    } else if t1.minute != t2.minute {
        t1.minute < t2.minute
    } else {
        t1.second < t2.second
    }
}

/// The token is sortable: an earlier instant renders as a lexicographically
/// smaller token, so listing snapshot directories by name lists them in
/// capture order.
#[verifier::rlimit(60)]
pub proof fn lemma_token_sortable(t1: Timestamp, t2: Timestamp)
    requires
        t1.wf(),
        t2.wf(),
        chronologically_before(t1, t2),
    ensures
        lex_less(t1.token_seq(), t2.token_seq()),
{
    reveal_strlit("-");
    reveal_strlit("_");
    reveal_strlit("_UTC");
    let dash = "-"@;
    let under = "_"@;
    let utc = "_UTC"@;
    if t1.year != t2.year {
        lemma_pad4_order(t1.year as int, t2.year as int);
        let r1 = dash + pad2_seq(t1.month as int) + dash + pad2_seq(t1.day as int) + under
            + pad2_seq(t1.hour as int) + dash + pad2_seq(t1.minute as int) + dash + pad2_seq(
            t1.second as int,
        ) + utc;
        let r2 = dash + pad2_seq(t2.month as int) + dash + pad2_seq(t2.day as int) + under
            + pad2_seq(t2.hour as int) + dash + pad2_seq(t2.minute as int) + dash + pad2_seq(
            t2.second as int,
        ) + utc;
        lemma_lex_prefix_less(pad4_seq(t1.year as int), r1, pad4_seq(t2.year as int), r2);
        assert(t1.token_seq() =~= pad4_seq(t1.year as int) + r1);
        assert(t2.token_seq() =~= pad4_seq(t2.year as int) + r2);
    } else if t1.month != t2.month {
        lemma_pad2_order(t1.month as int, t2.month as int);
        let p = pad4_seq(t1.year as int) + dash;
        let r1 = dash + pad2_seq(t1.day as int) + under + pad2_seq(t1.hour as int) + dash
            + pad2_seq(t1.minute as int) + dash + pad2_seq(t1.second as int) + utc;
        let r2 = dash + pad2_seq(t2.day as int) + under + pad2_seq(t2.hour as int) + dash
            + pad2_seq(t2.minute as int) + dash + pad2_seq(t2.second as int) + utc;
        lemma_lex_prefix_less(pad2_seq(t1.month as int), r1, pad2_seq(t2.month as int), r2);
        lemma_lex_prefix_equal(p, pad2_seq(t1.month as int) + r1, pad2_seq(t2.month as int) + r2);
        assert(t1.token_seq() =~= p + (pad2_seq(t1.month as int) + r1));
        assert(t2.token_seq() =~= p + (pad2_seq(t2.month as int) + r2));
    } else if t1.day != t2.day {
        lemma_pad2_order(t1.day as int, t2.day as int);
        let p = pad4_seq(t1.year as int) + dash + pad2_seq(t1.month as int) + dash;
        let r1 = under + pad2_seq(t1.hour as int) + dash + pad2_seq(t1.minute as int) + dash
            + pad2_seq(t1.second as int) + utc;
        let r2 = under + pad2_seq(t2.hour as int) + dash + pad2_seq(t2.minute as int) + dash
            + pad2_seq(t2.second as int) + utc;
        lemma_lex_prefix_less(pad2_seq(t1.day as int), r1, pad2_seq(t2.day as int), r2);
        lemma_lex_prefix_equal(p, pad2_seq(t1.day as int) + r1, pad2_seq(t2.day as int) + r2);
        assert(t1.token_seq() =~= p + (pad2_seq(t1.day as int) + r1));
        assert(t2.token_seq() =~= p + (pad2_seq(t2.day as int) + r2));
    } else if t1.hour != t2.hour {
        lemma_pad2_order(t1.hour as int, t2.hour as int);
        let p = pad4_seq(t1.year as int) + dash + pad2_seq(t1.month as int) + dash + pad2_seq(
            t1.day as int,
        ) + under;
        let r1 = dash + pad2_seq(t1.minute as int) + dash + pad2_seq(t1.second as int) + utc;
        let r2 = dash + pad2_seq(t2.minute as int) + dash + pad2_seq(t2.second as int) + utc;
        lemma_lex_prefix_less(pad2_seq(t1.hour as int), r1, pad2_seq(t2.hour as int), r2);
        lemma_lex_prefix_equal(p, pad2_seq(t1.hour as int) + r1, pad2_seq(t2.hour as int) + r2);
        assert(t1.token_seq() =~= p + (pad2_seq(t1.hour as int) + r1));
        assert(t2.token_seq() =~= p + (pad2_seq(t2.hour as int) + r2));
    } else if t1.minute != t2.minute {
        lemma_pad2_order(t1.minute as int, t2.minute as int);
        let p = pad4_seq(t1.year as int) + dash + pad2_seq(t1.month as int) + dash + pad2_seq(
            t1.day as int,
        ) + under + pad2_seq(t1.hour as int) + dash;
        let r1 = dash + pad2_seq(t1.second as int) + utc;
        let r2 = dash + pad2_seq(t2.second as int) + utc;
        lemma_lex_prefix_less(pad2_seq(t1.minute as int), r1, pad2_seq(t2.minute as int), r2);
        lemma_lex_prefix_equal(p, pad2_seq(t1.minute as int) + r1, pad2_seq(t2.minute as int) + r2);
        assert(t1.token_seq() =~= p + (pad2_seq(t1.minute as int) + r1));
        assert(t2.token_seq() =~= p + (pad2_seq(t2.minute as int) + r2));
    } else {
        lemma_pad2_order(t1.second as int, t2.second as int);
        let p = pad4_seq(t1.year as int) + dash + pad2_seq(t1.month as int) + dash + pad2_seq(
            t1.day as int,
        ) + under + pad2_seq(t1.hour as int) + dash + pad2_seq(t1.minute as int) + dash;
        lemma_lex_prefix_less(pad2_seq(t1.second as int), utc, pad2_seq(t2.second as int), utc);
        lemma_lex_prefix_equal(p, pad2_seq(t1.second as int) + utc, pad2_seq(t2.second as int) + utc);
        assert(t1.token_seq() =~= p + (pad2_seq(t1.second as int) + utc));
        assert(t2.token_seq() =~= p + (pad2_seq(t2.second as int) + utc));
    }
}

/// Relies on std's `SystemTime::now`: the clock's whole seconds since the
/// Unix epoch, `None` where the clock stands before the epoch or its seconds
/// do not fit `i64`. The clock can read anything, so nothing more is
/// promised of the value; the call itself cannot panic.
#[verifier::external_body]
fn clock_unix_seconds() -> (r: Option<i64>)
    ensures
        r matches Some(s) ==> s >= 0,
{
    match SystemTime::now().duration_since(UNIX_EPOCH) {
        Ok(duration) => i64::try_from(duration.as_secs()).ok(),
        Err(_) => None,
    }
}

/// Relies on `chrono::DateTime::<Utc>::from_timestamp`, read through
/// chrono's `Datelike` and `Timelike` accessors: `None` exactly where
/// chrono cannot represent the moment; on `Some`, the accessors' documented
/// ranges are month 1..=12, day 1..=31, hour 0..=23, minute 0..=59 and
/// second 0..=59. The year is handed on as chrono gives it. The call
/// returns `None` instead of panicking on any out-of-range argument.
#[verifier::external_body]
fn calendar_of_unix_seconds(seconds: i64) -> (r: Option<(i32, u32, u32, u32, u32, u32)>)
    ensures
        r matches Some(p) ==> 1 <= p.1 <= 12 && 1 <= p.2 <= 31 && p.3 <= 23 && p.4 <= 59 && p.5
            <= 59,
{
    chrono::DateTime::<chrono::Utc>::from_timestamp(seconds, 0).map(
        |moment|
            (
                moment.year(),
                moment.month(),
                moment.day(),
                moment.hour(),
                moment.minute(),
                moment.second(),
            ),
    )
}

/// The current UTC time; `None` where the clock cannot be read as a
/// calendar date (a clock before the Unix epoch, or out of chrono's range)
/// or where its year does not fit the four-digit token. The read never
/// panics: every failure comes back as `None`.
pub fn now_utc() -> (r: Option<Timestamp>)
    ensures
        r matches Some(t) ==> t.wf(),
{
    match clock_unix_seconds() {
        None => None,
        Some(seconds) => match calendar_of_unix_seconds(seconds) {
            None => None,
            Some((year, month, day, hour, minute, second)) => Timestamp::from_parts(
                year,
                month,
                day,
                hour,
                minute,
                second,
            ),
        },
    }
}

} // verus!
