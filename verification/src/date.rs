//! Calendar dates as plain values.  The webhook layer parses the source
//! system's timestamp strings and hands the date part in here; the logic
//! only ever reads year, month and day, and renders them as `YYYY-MM-DD`
//! for the outbound request body.

use vstd::prelude::*;

verus! {

/// A calendar date as year, month and day numbers.
#[derive(Debug, Clone, Copy, PartialEq, Eq, Structural)]
pub struct Date {
    pub year: u32,
    pub month: u32,
    pub day: u32,
}

/// The decimal digit character for `d` (meaningful for `0 <= d <= 9`).
pub open spec fn digit_char(d: int) -> char {
    if d == 0 {
        '0'
    } else if d == 1 {
        '1'
    } else if d == 2 {
        '2'
    } else if d == 3 {
        '3'
    } else if d == 4 {
        '4'
    } else if d == 5 {
        '5'
    } else if d == 6 {
        '6'
    } else if d == 7 {
        '7'
    } else if d == 8 {
        '8'
    } else {
        '9'
    }
}

/// The ten characters of a date rendered as `YYYY-MM-DD`, with the year
/// zero-padded to four digits and month and day to two.
pub open spec fn spec_ymd(date: Date) -> Seq<char> {
    seq![
        digit_char(date.year as int / 1000 % 10),
        digit_char(date.year as int / 100 % 10),
        digit_char(date.year as int / 10 % 10),
        digit_char(date.year as int % 10),
        '-',
        digit_char(date.month as int / 10 % 10),
        digit_char(date.month as int % 10),
        '-',
        digit_char(date.day as int / 10 % 10),
        digit_char(date.day as int % 10),
    ]
}

/// Returns the one-character string for a decimal digit.
fn digit_str(d: u32) -> (r: &'static str)
    requires
        d <= 9,
    ensures
        r@ =~= seq![digit_char(d as int)],
{
    proof {
        reveal_strlit("0");
        reveal_strlit("1");
        reveal_strlit("2");
        reveal_strlit("3");
        reveal_strlit("4");
        reveal_strlit("5");
        reveal_strlit("6");
        reveal_strlit("7");
        reveal_strlit("8");
        reveal_strlit("9");
    }
    match d {
        0 => "0",
        1 => "1",
        2 => "2",
        3 => "3",
        4 => "4",
        5 => "5",
        6 => "6",
        7 => "7",
        8 => "8",
        _ => "9",
    }
}

impl Date {
    /// A date the formatting logic accepts: a four-digit year and month
    /// and day numbers in calendar range.
    pub open spec fn wf(self) -> bool {
        &&& self.year <= 9999
        &&& 1 <= self.month <= 12
        &&& 1 <= self.day <= 31
    }

    /// Renders the date exactly as `YYYY-MM-DD`.
    pub fn format_ymd(&self) -> (r: String)
        requires
            self.wf(),
        ensures
            r@ == spec_ymd(*self),
    {
        let mut out = String::new();
        out.append(digit_str(self.year / 1000 % 10));
        out.append(digit_str(self.year / 100 % 10));
        out.append(digit_str(self.year / 10 % 10));
        out.append(digit_str(self.year % 10));
        out.append("-");
        out.append(digit_str(self.month / 10 % 10));
        out.append(digit_str(self.month % 10));
        out.append("-");
        out.append(digit_str(self.day / 10 % 10));
        out.append(digit_str(self.day % 10));
        proof {
            reveal_strlit("-");
            assert(out@ =~= spec_ymd(*self));
        }
        out
    }
}

} // verus!
