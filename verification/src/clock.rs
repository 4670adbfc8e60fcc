//! The digital clock's settings and the text it shows: the time in 24 h or
//! 12 h form and the date line.

use vstd::prelude::*;
use vstd::string::StringExecFns;
use crate::color::Color;
use crate::config::{parse_tz, tz_lookup};
use crate::text::{
    padded2, push_char, push_padded2, push_signed_decimal, push_str, signed_decimal, str_eq,
};

verus! {

pub fn default_tz() -> (s: String)
    ensures
        s@ == "UTC"@,
{
    String::from_str("UTC")
}

pub fn default_format() -> (s: String)
    ensures
        s@ == "24h"@,
{
    String::from_str("24h")
}

pub fn default_label() -> (b: bool)
    ensures
        b,
{
    true
}

pub fn default_color() -> (c: Color)
    ensures
        c == (Color { r: 0x7d, g: 0xf5, b: 0xd2, a: 0xff }),
{
    Color::rgb(0x7d, 0xf5, 0xd2)
}

/// What a clock element was configured to show.
pub struct ClockSettings {
    pub tz: chrono_tz::Tz,
    /// The zone name as configured, drawn as the clock's label.
    pub label_text: String,
    pub twenty_four_hour: bool,
}

#[derive(Debug, Clone, PartialEq, Eq)]
pub enum ClockConfigError {
    /// Not an IANA zone name.
    UnknownTimezone(String),
    /// Not one of "24h", "24", "12h", "12".
    BadFormat(String),
}

/// Which hour format a `format` value selects: `Some(true)` for 24 h,
/// `Some(false)` for 12 h.
pub open spec fn format_choice(format: Seq<char>) -> Option<bool> {
    if format == "24h"@ || format == "24"@ {
        Some(true)
    } else if format == "12h"@ || format == "12"@ {
        Some(false)
    } else {
        None
    }
}

/// The format values select the dial their names say: "24h" and "24" a
/// 24-hour dial, "12h" and "12" a 12-hour one, and nothing else is a format.
pub proof fn law_format_names(format: Seq<char>)
    ensures
        format_choice(format) == Some(true) <==> (format == "24h"@ || format == "24"@),
        format_choice(format) == Some(false) <==> (format == "12h"@ || format == "12"@),
        format_choice(format) is None <==> !(format == "24h"@ || format == "24"@ || format
            == "12h"@ || format == "12"@),
{
    reveal_strlit("24h");
    reveal_strlit("24");
    reveal_strlit("12h");
    reveal_strlit("12");
    assert("24h"@[1] != "12h"@[1]);
    assert("24"@[1] != "12"@[1]);
    assert("24h"@.len() != "12"@.len());
    assert("24"@.len() != "12h"@.len());
}

impl ClockSettings {
    /// Check a clock's `timezone` and `format`, in that order.
    pub fn from_config(timezone: String, format: &str) -> (r: Result<Self, ClockConfigError>)
        ensures
            tz_lookup(timezone@) is None ==> (r matches Err(ClockConfigError::UnknownTimezone(z))
                && z@ == timezone@),
            tz_lookup(timezone@) is Some && format_choice(format@) is None ==> (r matches Err(
                ClockConfigError::BadFormat(f),
            ) && f@ == format@),
            tz_lookup(timezone@) is Some && format_choice(format@) is Some ==> (r matches Ok(c)
                && tz_lookup(timezone@) == Some(c.tz) && c.label_text@ == timezone@
                && Some(c.twenty_four_hour) == format_choice(
                format@,
            )),
    {
        let tz = match parse_tz(timezone.as_str()) {
            Some(tz) => tz,
            None => return Err(ClockConfigError::UnknownTimezone(timezone)),
        };
        let twenty_four_hour = if str_eq(format, "24h") || str_eq(format, "24") {
            true
        } else if str_eq(format, "12h") || str_eq(format, "12") {
            false
        } else {
            return Err(ClockConfigError::BadFormat(format.to_owned()));
        };
        Ok(ClockSettings { tz, label_text: timezone, twenty_four_hour })
    }
}

pub open spec fn weekday_text(d: int) -> Seq<char> {
    if d == 0 {
        "MON"@
    } else if d == 1 {
        "TUE"@
    } else if d == 2 {
        "WED"@
    } else if d == 3 {
        "THU"@
    } else if d == 4 {
        "FRI"@
    } else if d == 5 {
        "SAT"@
    } else {
        "SUN"@
    }
}

/// Three-letter weekday name; days counted from Monday (0) to Sunday (6).
pub fn weekday_short(days_from_monday: u32) -> (s: &'static str)
    requires
        days_from_monday < 7,
    ensures
        s@ == weekday_text(days_from_monday as int),
{
    if days_from_monday == 0 {
        "MON"
    } else if days_from_monday == 1 {
        "TUE"
    } else if days_from_monday == 2 {
        "WED"
    } else if days_from_monday == 3 {
        "THU"
    } else if days_from_monday == 4 {
        "FRI"
    } else if days_from_monday == 5 {
        "SAT"
    } else {
        "SUN"
    }
}

pub open spec fn month_text(i: int) -> Seq<char> {
    if i == 0 {
        "JAN"@
    } else if i == 1 {
        "FEB"@
    } else if i == 2 {
        "MAR"@
    } else if i == 3 {
        "APR"@
    } else if i == 4 {
        "MAY"@
    } else if i == 5 {
        "JUN"@
    } else if i == 6 {
        "JUL"@
    } else if i == 7 {
        "AUG"@
    } else if i == 8 {
        "SEP"@
    } else if i == 9 {
        "OCT"@
    } else if i == 10 {
        "NOV"@
    } else {
        "DEC"@
    }
}

/// Three-letter month name for month `m` (1 = January); months past 12
/// read as December.
pub fn month_short(m: u32) -> (s: &'static str)
    requires
        m >= 1,
    ensures
        s@ == month_text(if m - 1 < 11 {
            m - 1
        } else {
            11
        }),
{
    let i = if m - 1 < 11 {
        m - 1
    } else {
        11
    };
    if i == 0 {
        "JAN"
    } else if i == 1 {
        "FEB"
    } else if i == 2 {
        "MAR"
    } else if i == 3 {
        "APR"
    } else if i == 4 {
        "MAY"
    } else if i == 5 {
        "JUN"
    } else if i == 6 {
        "JUL"
    } else if i == 7 {
        "AUG"
    } else if i == 8 {
        "SEP"
    } else if i == 9 {
        "OCT"
    } else if i == 10 {
        "NOV"
    } else {
        "DEC"
    }
}

/// Milliseconds until the next whole second, but at least 50, given the
/// milliseconds past the current second (up to 1999 within a leap second).
pub fn next_second_delay_ms(subsec_millis: u32) -> (d: u64)
    ensures
        d == (if 1000 - subsec_millis > 50 {
            1000 - subsec_millis
        } else {
            50
        }),
{
    if subsec_millis < 950 {
        (1000 - subsec_millis) as u64
    } else {
        50
    }
}

/// chrono's `hour12`: whether the hour is after noon, and the hour on a
/// 12-hour dial (1..=12 for hours 0..=23).
pub open spec fn hour12_spec(hour: int) -> (bool, int) {
    (hour >= 12, if hour % 12 == 0 {
        12
    } else {
        hour % 12
    })
}

/// chrono's `Timelike::hour12`, for an hour of the day.
pub fn hour12(hour: u32) -> (r: (bool, u32))
    ensures
        (r.0, r.1 as int) == hour12_spec(hour as int),
{
    let mut h = hour % 12;
    if h == 0 {
        h = 12;
    }
    (hour >= 12, h)
}

/// The clock's time line: `HH:MM:SS`, or ` h:MM:SS AM` on a 12-hour dial.
pub open spec fn time_text(hour: nat, minute: nat, second: nat, twenty_four_hour: bool) -> Seq<
    char,
> {
    if twenty_four_hour {
        padded2(hour, '0') + seq![':'] + padded2(minute, '0') + seq![':'] + padded2(second, '0')
    } else {
        let (is_pm, h12) = hour12_spec(hour as int);
        padded2(h12 as nat, ' ') + seq![':'] + padded2(minute, '0') + seq![':'] + padded2(
            second,
            '0',
        ) + seq![' '] + if is_pm {
            "PM"@
        } else {
            "AM"@
        }
    }
}

/// Format the time of day as the clock shows it.
pub fn format_time(hour: u32, minute: u32, second: u32, twenty_four_hour: bool) -> (s: String)
    ensures
        s@ == time_text(hour as nat, minute as nat, second as nat, twenty_four_hour),
{
    let mut s = String::new();
    if twenty_four_hour {
        push_padded2(&mut s, hour as u64, '0');
    } else {
        let (_, h12) = hour12(hour);
        push_padded2(&mut s, h12 as u64, ' ');
    }
    push_char(&mut s, ':');
    push_padded2(&mut s, minute as u64, '0');
    push_char(&mut s, ':');
    push_padded2(&mut s, second as u64, '0');
    if !twenty_four_hour {
        push_char(&mut s, ' ');
        if hour >= 12 {
            push_str(&mut s, "PM");
        } else {
            push_str(&mut s, "AM");
        }
    }
    proof {
        assert(s@ =~= time_text(hour as nat, minute as nat, second as nat, twenty_four_hour));
    }
    s
}

/// The clock's date line: weekday, day of month, month and year.
pub open spec fn date_text(days_from_monday: int, day: nat, month: int, year: int) -> Seq<char> {
    weekday_text(days_from_monday) + seq![' '] + padded2(day, '0') + seq![' '] + month_text(
        if month - 1 < 11 {
            month - 1
        } else {
            11
        },
    ) + seq![' '] + signed_decimal(year)
}

/// Format a date as the clock shows it (`MON 07 JUL 2025`).
pub fn format_date(days_from_monday: u32, day: u32, month: u32, year: i32) -> (s: String)
    requires
        days_from_monday < 7,
        month >= 1,
    ensures
        s@ == date_text(days_from_monday as int, day as nat, month as int, year as int),
{
    let mut s = String::new();
    push_str(&mut s, weekday_short(days_from_monday));
    push_char(&mut s, ' ');
    push_padded2(&mut s, day as u64, '0');
    push_char(&mut s, ' ');
    push_str(&mut s, month_short(month));
    push_char(&mut s, ' ');
    push_signed_decimal(&mut s, year as i64);
    proof {
        assert(s@ =~= date_text(days_from_monday as int, day as nat, month as int, year as int));
    }
    s
}

/// On a 12-hour dial the hour is between 1 and 12, and the 24-hour hour is
/// recovered from it and the AM/PM half.
pub proof fn law_hour12_round_trip(hour: int)
    requires
        0 <= hour < 24,
    ensures
        1 <= hour12_spec(hour).1 <= 12,
        hour == (if hour12_spec(hour).0 {
            12int
        } else {
            0int
        }) + hour12_spec(hour).1 % 12,
{
}

} // verus!
