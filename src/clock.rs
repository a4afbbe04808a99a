//! Calendar instants in UTC, and the fixed text forms that identifiers,
//! display names and stored timestamps are written in.

use chrono::Datelike;
use chrono::Timelike;
use vstd::prelude::*;
use vstd::string::*;

verus! {

/// An instant in UTC, broken into its calendar and clock fields.
#[derive(Clone, Copy, Debug, PartialEq, Eq, Structural)]
pub struct UtcInstant {
    pub year: i32,
    pub month: u32,
    pub day: u32,
    pub hour: u32,
    pub minute: u32,
    pub second: u32,
}

impl UtcInstant {
    /// Every field in its calendar range (the day is not checked against
    /// the month).
    pub open spec fn wf(&self) -> bool {
        &&& 1 <= self.month <= 12
        &&& 1 <= self.day <= 31
        &&& self.hour <= 23
        &&& self.minute <= 59
        &&& self.second <= 59
    }

    /// Both instants fall on the same calendar day.
    pub open spec fn same_day(&self, other: UtcInstant) -> bool {
        self.year == other.year && self.month == other.month && self.day == other.day
    }
}

/// Relies on `chrono::Utc::now` and on chrono's `Datelike` / `Timelike`
/// accessors, whose documentation gives month 1 to 12, day 1 to 31, hour 0
/// to 23, minute 0 to 59 and second 0 to 59. The instant itself is the
/// system clock's, so nothing more is known of it.
#[verifier::external_body]
pub(crate) fn utc_now() -> (r: UtcInstant)
    ensures
        r.wf(),
{
    let now = chrono::Utc::now();
    UtcInstant {
        year: now.year(),
        month: now.month(),
        day: now.day(),
        hour: now.hour(),
        minute: now.minute(),
        second: now.second(),
    }
}

pub open spec fn digit_chars() -> Seq<char> {
    seq!['0', '1', '2', '3', '4', '5', '6', '7', '8', '9']
}

/// Decimal digits of `n`, without leading zeros.
pub open spec fn decimal(n: nat) -> Seq<char>
    decreases n,
{
    if n < 10 {
        seq![digit_chars()[n as int]]
    } else {
        decimal(n / 10) + seq![digit_chars()[(n % 10) as int]]
    }
}

/// Decimal digits of `n`, zero-padded on the left to at least `width`.
pub open spec fn padded(n: nat, width: nat) -> Seq<char> {
    let d = decimal(n);
    if d.len() < width {
        Seq::new((width - d.len()) as nat, |i: int| '0') + d
    } else {
        d
    }
}

/// The year as `%Y` writes it: four digits for years 0 to 9999, otherwise
/// an explicit sign before at least four digits.
pub open spec fn year_text(y: int) -> Seq<char> {
    if 0 <= y <= 9999 {
        padded(y as nat, 4)
    } else if y > 9999 {
        seq!['+'] + padded(y as nat, 4)
    } else {
        seq!['-'] + padded((-y) as nat, 4)
    }
}

/// `%Y-%m-%d`.
pub open spec fn date_text(t: UtcInstant) -> Seq<char> {
    year_text(t.year as int) + seq!['-'] + padded(t.month as nat, 2) + seq!['-'] + padded(
        t.day as nat,
        2,
    )
}

/// `%Y-%m-%dT%H:%M:%SZ`.
pub open spec fn iso_text(t: UtcInstant) -> Seq<char> {
    date_text(t) + seq!['T'] + padded(t.hour as nat, 2) + seq![':'] + padded(t.minute as nat, 2)
        + seq![':'] + padded(t.second as nat, 2) + seq!['Z']
}

/// `%H:%M`.
pub open spec fn clock_text(t: UtcInstant) -> Seq<char> {
    padded(t.hour as nat, 2) + seq![':'] + padded(t.minute as nat, 2)
}

pub open spec fn month_name(m: u32) -> Seq<char> {
    if m == 1 {
        "January"@
    } else if m == 2 {
        "February"@
    } else if m == 3 {
        "March"@
    } else if m == 4 {
        "April"@
    } else if m == 5 {
        "May"@
    } else if m == 6 {
        "June"@
    } else if m == 7 {
        "July"@
    } else if m == 8 {
        "August"@
    } else if m == 9 {
        "September"@
    } else if m == 10 {
        "October"@
    } else if m == 11 {
        "November"@
    } else {
        "December"@
    }
}

/// `%B %d, %Y`.
pub open spec fn long_date_text(t: UtcInstant) -> Seq<char> {
    month_name(t.month) + seq![' '] + padded(t.day as nat, 2) + seq![',', ' '] + year_text(
        t.year as int,
    )
}

fn digit(d: u32) -> (r: String)
    requires
        d < 10,
    ensures
        r@ == seq![digit_chars()[d as int]],
{
    let table = "0123456789";
    proof {
        reveal_strlit("0123456789");
    }
    let s = table.substring_char(d as usize, d as usize + 1);
    assert(s@ =~= seq![digit_chars()[d as int]]);
    String::from_str(s)
}

/// Decimal digits of `n`.
pub fn decimal_text(n: u32) -> (r: String)
    ensures
        r@ == decimal(n as nat),
    decreases n,
{
    if n < 10 {
        digit(n)
    } else {
        let head = decimal_text(n / 10);
        let tail = digit(n % 10);
        head.concat(tail.as_str())
    }
}

/// Decimal digits of `n`, zero-padded on the left to at least `width`.
pub fn padded_text(n: u32, width: usize) -> (r: String)
    ensures
        r@ == padded(n as nat, width as nat),
{
    let d = decimal_text(n);
    let len = d.as_str().unicode_len();
    if len >= width {
        return d;
    }
    let mut zeros = String::new();
    let mut k: usize = 0;
    while k < width - len
        invariant
            k <= width - len,
            zeros@ =~= Seq::new(k as nat, |i: int| '0'),
        decreases width - len - k,
    {
        proof {
            reveal_strlit("0");
        }
        zeros.append("0");
        k = k + 1;
    }
    zeros.concat(d.as_str())
}

/// The year as `%Y` writes it.
pub fn year_string(y: i32) -> (r: String)
    ensures
        r@ == year_text(y as int),
{
    proof {
        reveal_strlit("+");
        reveal_strlit("-");
    }
    if 0 <= y && y <= 9999 {
        padded_text(y as u32, 4)
    } else if y > 9999 {
        String::from_str("+").concat(padded_text(y as u32, 4).as_str())
    } else {
        let magnitude: u32 = (0i64 - y as i64) as u32;
        String::from_str("-").concat(padded_text(magnitude, 4).as_str())
    }
}

/// The calendar date as `YYYY-MM-DD`.
pub fn date_string(t: &UtcInstant) -> (r: String)
    ensures
        r@ == date_text(*t),
{
    proof {
        reveal_strlit("-");
    }
    year_string(t.year).concat("-").concat(padded_text(t.month, 2).as_str()).concat("-").concat(
        padded_text(t.day, 2).as_str(),
    )
}

/// The instant as `YYYY-MM-DDTHH:MM:SSZ`.
pub fn iso_string(t: &UtcInstant) -> (r: String)
    ensures
        r@ == iso_text(*t),
{
    proof {
        reveal_strlit("T");
        reveal_strlit(":");
        reveal_strlit("Z");
    }
    date_string(t).concat("T").concat(padded_text(t.hour, 2).as_str()).concat(":").concat(
        padded_text(t.minute, 2).as_str(),
    ).concat(":").concat(padded_text(t.second, 2).as_str()).concat("Z")
}

/// The time of day as `HH:MM`.
pub fn clock_string(t: &UtcInstant) -> (r: String)
    ensures
        r@ == clock_text(*t),
{
    proof {
        reveal_strlit(":");
    }
    padded_text(t.hour, 2).concat(":").concat(padded_text(t.minute, 2).as_str())
}

fn month_string(m: u32) -> (r: String)
    ensures
        r@ == month_name(m),
{
    if m == 1 {
        String::from_str("January")
    } else if m == 2 {
        String::from_str("February")
    } else if m == 3 {
        String::from_str("March")
    } else if m == 4 {
        String::from_str("April")
    } else if m == 5 {
        String::from_str("May")
    } else if m == 6 {
        String::from_str("June")
    } else if m == 7 {
        String::from_str("July")
    } else if m == 8 {
        String::from_str("August")
    } else if m == 9 {
        String::from_str("September")
    } else if m == 10 {
        String::from_str("October")
    } else if m == 11 {
        String::from_str("November")
    } else {
        String::from_str("December")
    }
}

/// The calendar date as `Month DD, YYYY`.
pub fn long_date_string(t: &UtcInstant) -> (r: String)
    ensures
        r@ == long_date_text(*t),
{
    proof {
        reveal_strlit(" ");
        reveal_strlit(", ");
    }
    month_string(t.month).concat(" ").concat(padded_text(t.day, 2).as_str()).concat(", ").concat(
        year_string(t.year).as_str(),
    )
}

} // verus!
