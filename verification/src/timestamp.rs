//! The time column: day of the month, month, hour and minute of an instant,
//! as a clock at a given offset from UTC shows them.

use crate::digits::{digit_char, digit_str};
use chrono::{DateTime, Datelike, FixedOffset, Timelike};
use vstd::prelude::*;

verus! {

/// What a calendar and a clock show of an instant, as far as a listing
/// prints it.
#[derive(Clone, Copy, Debug, PartialEq, Eq)]
pub struct CivilTime {
    /// Day of the month, from 1.
    pub day: u32,
    /// Month of the year, from 1.
    pub month: u32,
    /// Hour of the day, on a 24-hour clock.
    pub hour: u32,
    /// Minute of the hour.
    pub minute: u32,
}

/// The ranges of a calendar and a clock.
pub open spec fn in_calendar(day: u32, month: u32, hour: u32, minute: u32) -> bool {
    &&& 1 <= day <= 31
    &&& 1 <= month <= 12
    &&& hour <= 23
    &&& minute <= 59
}

/// The calendar day and clock time of the instant `secs` seconds after
/// 1970-01-01 00:00:00 UTC, where local time is `offset` seconds ahead of UTC;
/// `None` where the calendar does not reach that instant or knows no such
/// offset.
pub uninterp spec fn civil_time(secs: int, offset: int) -> Option<CivilTime>;

/// A number below one hundred in two columns: a single digit stands behind
/// `pad`.
pub open spec fn two_digits(n: int, pad: char) -> Seq<char>
    recommends
        0 <= n < 100,
{
    if n < 10 {
        seq![pad, digit_char(n)]
    } else {
        seq![digit_char(n / 10), digit_char(n % 10)]
    }
}

/// The three-letter English name of a month.
pub open spec fn month_text(month: int) -> Seq<char>
    recommends
        1 <= month <= 12,
{
    if month == 1 {
        "Jan"@
    } else if month == 2 {
        "Feb"@
    } else if month == 3 {
        "Mar"@
    } else if month == 4 {
        "Apr"@
    } else if month == 5 {
        "May"@
    } else if month == 6 {
        "Jun"@
    } else if month == 7 {
        "Jul"@
    } else if month == 8 {
        "Aug"@
    } else if month == 9 {
        "Sep"@
    } else if month == 10 {
        "Oct"@
    } else if month == 11 {
        "Nov"@
    } else {
        "Dec"@
    }
}

/// The time column, which is what the strftime pattern `%_d %b %H:%M` gives:
/// the day in two columns, behind a space where it has one digit, the month's
/// name, then hour and minute in two digits each with a colon between them.
pub open spec fn stamp_text(time: CivilTime) -> Seq<char> {
    two_digits(time.day as int, ' ') + seq![' '] + month_text(time.month as int) + seq![' ']
        + two_digits(time.hour as int, '0') + seq![':'] + two_digits(time.minute as int, '0')
}

impl CivilTime {
    /// Each field lies in the range of a calendar or a clock.
    pub open spec fn wf(&self) -> bool {
        in_calendar(self.day, self.month, self.hour, self.minute)
    }

    /// A time of the four fields, where each lies in its range.
    pub fn new(day: u32, month: u32, hour: u32, minute: u32) -> (time: Option<CivilTime>)
        ensures
            time is Some <==> in_calendar(day, month, hour, minute),
            time matches Some(t) ==> t == (CivilTime { day, month, hour, minute }) && t.wf(),
    {
        if 1 <= day && day <= 31 && 1 <= month && month <= 12 && hour <= 23 && minute <= 59 {
            Some(CivilTime { day, month, hour, minute })
        } else {
            None
        }
    }

    /// Renders the time column, as in ` 3 Aug 09:05`.
    pub fn render(&self) -> (text: String)
        requires
            self.wf(),
        ensures
            text@ == stamp_text(*self),
            text@.len() == 12,
    {
        let mut text = String::new();
        push_two_digits(&mut text, self.day, ' ');
        text.append(" ");
        text.append(month_name(self.month));
        text.append(" ");
        push_two_digits(&mut text, self.hour, '0');
        text.append(":");
        push_two_digits(&mut text, self.minute, '0');
        proof {
            reveal_strlit(" ");
            reveal_strlit(":");
            assert(text@ =~= stamp_text(*self));
            lemma_stamp_text_len(*self);
        }
        text
    }
}

fn push_two_digits(text: &mut String, n: u32, pad: char)
    requires
        n < 100,
        pad == '0' || pad == ' ',
    ensures
        final(text)@ == old(text)@ + two_digits(n as int, pad),
{
    if n >= 10 {
        text.append(digit_str((n / 10) as u64));
    } else if pad == '0' {
        text.append("0");
    } else {
        text.append(" ");
    }
    text.append(digit_str((n % 10) as u64));
    proof {
        reveal_strlit("0");
        reveal_strlit(" ");
        assert(final(text)@ =~= old(text)@ + two_digits(n as int, pad));
    }
}

fn month_name(month: u32) -> (name: &'static str)
    requires
        1 <= month <= 12,
    ensures
        name@ == month_text(month as int),
{
    match month {
        1 => "Jan",
        2 => "Feb",
        3 => "Mar",
        4 => "Apr",
        5 => "May",
        6 => "Jun",
        7 => "Jul",
        8 => "Aug",
        9 => "Sep",
        10 => "Oct",
        11 => "Nov",
        _ => "Dec",
    }
}

/// Finds day, month, hour and minute of an instant at an offset from UTC.
///
/// Trusted: the body asks chrono, and nothing here is proved of what chrono
/// answers. `FixedOffset::east_opt` accepts an offset of less than a day
/// either way and no other. `DateTime::from_timestamp` accepts the seconds
/// that its calendar reaches. `with_timezone` moves the instant to the
/// offset, and `Datelike::day`, `Datelike::month`, `Timelike::hour` and
/// `Timelike::minute` read it there: chrono documents them as 1 to 31, 1 to
/// 12, 0 to 23 and 0 to 59. The answer depends on the two arguments alone,
/// which is all that `civil_time` says of it; which day an instant falls on
/// is chrono's to say.
#[verifier::external_body]
fn civil_at(secs: i64, offset: i32) -> (time: Option<CivilTime>)
    ensures
        time == civil_time(secs as int, offset as int),
        time matches Some(t) ==> t.wf(),
        time is Some ==> -86_400 < offset < 86_400,
{
    let zone = FixedOffset::east_opt(offset)?;
    let at = DateTime::from_timestamp(secs, 0)?.with_timezone(&zone);
    Some(CivilTime { day: at.day(), month: at.month(), hour: at.hour(), minute: at.minute() })
}

/// The calendar has a day for the instant, and day and time lie in their
/// ranges.
pub open spec fn on_calendar(secs: i64, offset: i32) -> bool {
    civil_time(secs as int, offset as int) matches Some(time) && time.wf()
}

/// The time column of the instant `secs` seconds after the epoch at `offset`
/// seconds east of UTC; `None` where the calendar has no day for it.
pub open spec fn local_stamp(secs: i64, offset: i32) -> Option<Seq<char>> {
    match civil_time(secs as int, offset as int) {
        Some(time) => Some(stamp_text(time)),
        None => None,
    }
}

/// The characters of a text that may be missing.
pub open spec fn text_of(text: Option<String>) -> Option<Seq<char>> {
    match text {
        Some(t) => Some(t@),
        None => None,
    }
}

/// Renders the time column of an instant, given in seconds since
/// 1970-01-01 00:00:00 UTC, for a place whose clocks are `offset` seconds
/// ahead of UTC.
pub fn stamp_at(secs: i64, offset: i32) -> (text: Option<String>)
    ensures
        text_of(text) == local_stamp(secs, offset),
        text matches Some(t) ==> t@.len() == 12,
        text is Some ==> on_calendar(secs, offset) && -86_400 < offset < 86_400,
{
    match civil_at(secs, offset) {
        Some(time) => Some(time.render()),
        None => None,
    }
}

/// The time column is twelve characters wide.
pub proof fn lemma_stamp_text_len(time: CivilTime)
    requires
        time.wf(),
    ensures
        stamp_text(time).len() == 12,
{
    reveal_strlit("Jan");
    reveal_strlit("Feb");
    reveal_strlit("Mar");
    reveal_strlit("Apr");
    reveal_strlit("May");
    reveal_strlit("Jun");
    reveal_strlit("Jul");
    reveal_strlit("Aug");
    reveal_strlit("Sep");
    reveal_strlit("Oct");
    reveal_strlit("Nov");
    reveal_strlit("Dec");
}

} // verus!
