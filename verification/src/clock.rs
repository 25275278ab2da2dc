//! The time of day of an instant given in seconds since the Unix epoch,
//! read in UTC on a 12-hour clock, and its rendering as text.

use chrono::{MappedLocalTime, TimeZone, Timelike, Utc};
use vstd::prelude::*;
use vstd::string::*;

verus! {

/// The first second that the calendar can represent: midnight of
/// January 1 of the year -262143, counted from the epoch.
pub const EARLIEST_SECOND: i64 = -8_334_601_228_800;

/// The last second that the calendar can represent: 23:59:59 of
/// December 31 of the year 262142, counted from the epoch.
pub const LATEST_SECOND: i64 = 8_210_266_876_799;

/// A reading of a 12-hour clock.
#[derive(Clone, Copy, Debug, PartialEq, Eq, Structural)]
pub struct ClockTime {
    /// `true` from noon on.
    pub is_pm: bool,
    /// The hour shown, 1 to 12.
    pub hour: u32,
    /// The minute shown, 0 to 59.
    pub minute: u32,
}

/// Whether the calendar can represent the instant `secs` seconds after the epoch.
pub open spec fn representable(secs: int) -> bool {
    EARLIEST_SECOND <= secs <= LATEST_SECOND
}

/// Seconds since the last midnight, 0 to 86399 (also before the epoch).
pub open spec fn second_of_day(secs: int) -> int {
    secs % 86_400
}

/// The hour of the day, 0 to 23.
pub open spec fn hour_of_day(secs: int) -> int {
    second_of_day(secs) / 3_600
}

/// The minute of the hour, 0 to 59.
pub open spec fn minute_of_hour(secs: int) -> int {
    (second_of_day(secs) / 60) % 60
}

/// The hour as a 12-hour clock shows it: 0 and 12 are shown as 12.
pub open spec fn twelve_hour(hour: int) -> int {
    if hour % 12 == 0 {
        12
    } else {
        hour % 12
    }
}

/// What a 12-hour clock set to UTC shows `secs` seconds after the epoch.
pub open spec fn clock_at(secs: int) -> ClockTime {
    ClockTime {
        is_pm: hour_of_day(secs) >= 12,
        hour: twelve_hour(hour_of_day(secs)) as u32,
        minute: minute_of_hour(secs) as u32,
    }
}

impl ClockTime {
    /// The reading stays within what a clock face can show.
    pub open spec fn on_the_dial(self) -> bool {
        1 <= self.hour <= 12 && self.minute <= 59
    }

    /// Reads the clock at `secs` seconds after the epoch, or `None` where the
    /// calendar cannot represent that instant.
    pub fn from_epoch_seconds(secs: i64) -> (r: Option<ClockTime>)
        ensures
            r == if representable(secs as int) {
                Some(clock_at(secs as int))
            } else {
                None::<ClockTime>
            },
            r matches Some(c) ==> c.on_the_dial(),
    {
        match utc_hour12_minute(secs) {
            Some((is_pm, hour, minute)) => Some(ClockTime { is_pm, hour, minute }),
            None => None,
        }
    }

    /// "AM" before noon, "PM" from noon on.
    pub fn meridiem(&self) -> (r: &'static str)
        ensures
            r@ == meridiem_text(self.is_pm),
    {
        if self.is_pm {
            "PM"
        } else {
            "AM"
        }
    }
}

/// `chrono::TimeZone::timestamp_opt` on `Utc` with no nanoseconds, then
/// `Timelike::hour12` and `Timelike::minute` on the instant it gives.
///
/// Trusted: the instant exists exactly for the seconds between the first
/// second of the calendar's first year (-262143) and the last second of its
/// last year (262142); the hour is the second of the day divided by 3600, with
/// 0 and 12 shown as 12 and the flag set from 12 on; the minute is the minute of
/// that hour.
#[verifier::external_body]
fn utc_hour12_minute(secs: i64) -> (r: Option<(bool, u32, u32)>)
    ensures
        r == if representable(secs as int) {
            Some(
                (
                    hour_of_day(secs as int) >= 12,
                    twelve_hour(hour_of_day(secs as int)) as u32,
                    minute_of_hour(secs as int) as u32,
                ),
            )
        } else {
            None::<(bool, u32, u32)>
        },
{
    match Utc.timestamp_opt(secs, 0) {
        MappedLocalTime::Single(instant) => {
            let (is_pm, hour) = instant.hour12();
            Some((is_pm, hour, instant.minute()))
        },
        _ => None,
    }
}

/// "PM" or "AM".
pub open spec fn meridiem_text(is_pm: bool) -> Seq<char> {
    if is_pm {
        "PM"@
    } else {
        "AM"@
    }
}

/// The character of a decimal digit.
pub open spec fn digit_char(d: int) -> char {
    "0123456789"@[d]
}

/// `n` in decimal, without leading zeros.
pub open spec fn decimal(n: nat) -> Seq<char>
    decreases n,
{
    if n < 10 {
        seq![digit_char(n as int)]
    } else {
        decimal(n / 10) + seq![digit_char((n % 10) as int)]
    }
}

/// `n` in decimal, with a leading zero where it has one digit only.
pub open spec fn zero_padded(n: nat) -> Seq<char> {
    if n < 10 {
        seq!['0'] + decimal(n)
    } else {
        decimal(n)
    }
}

fn digit_text(d: u32) -> (r: &'static str)
    requires
        d < 10,
    ensures
        r@ == seq![digit_char(d as int)],
{
    proof {
        reveal_strlit("0123456789");
        reveal_strlit("0");
        reveal_strlit("1");
        reveal_strlit("2");
        reveal_strlit("3");
        reveal_strlit("4");
        reveal_strlit("5");
        reveal_strlit("6");
        reveal_strlit("7");
        reveal_strlit("8");
        reveal_strlit("9");
    }
    let r = match d {
        0 => "0",
        1 => "1",
        2 => "2",
        3 => "3",
        4 => "4",
        5 => "5",
        6 => "6",
        7 => "7",
        8 => "8",
        _ => "9",
    };
    assert(r@ =~= seq![digit_char(d as int)]);
    r
}

/// Appends `n` in decimal to `out`.
pub fn push_decimal(out: &mut String, n: u32)
    ensures
        final(out)@ == old(out)@ + decimal(n as nat),
    decreases n,
{
    if n >= 10 {
        push_decimal(out, n / 10);
    }
    out.append(digit_text(n % 10));
    assert(out@ =~= old(out)@ + decimal(n as nat));
}

/// Appends `n` in decimal to `out`, in two digits at least.
pub fn push_zero_padded(out: &mut String, n: u32)
    ensures
        final(out)@ == old(out)@ + zero_padded(n as nat),
{
    if n < 10 {
        proof {
            reveal_strlit("0");
        }
        out.append("0");
    }
    push_decimal(out, n);
    assert(out@ =~= old(out)@ + zero_padded(n as nat));
}

/// Every reading of the clock is on the dial, and a midnight reads 12 AM, a
/// noon 12 PM: the 12-hour clock wraps to 12, never to 0.
pub proof fn lemma_clock_at(secs: int)
    ensures
        clock_at(secs).on_the_dial(),
        second_of_day(secs) == 0 ==> clock_at(secs) == (ClockTime {
            is_pm: false,
            hour: 12,
            minute: 0,
        }),
        second_of_day(secs) == 43_200 ==> clock_at(secs) == (ClockTime {
            is_pm: true,
            hour: 12,
            minute: 0,
        }),
{
}

/// A number below 100 is written in two digits: its tens, then its units.
pub proof fn lemma_zero_padded_two_digits(n: nat)
    requires
        n < 100,
    ensures
        zero_padded(n) == seq![digit_char((n / 10) as int), digit_char((n % 10) as int)],
{
    reveal_strlit("0123456789");
    if n >= 10 {
        assert(decimal(n / 10) == seq![digit_char((n / 10) as int)]);
    }
    assert(zero_padded(n) =~= seq![digit_char((n / 10) as int), digit_char((n % 10) as int)]);
}

} // verus!
