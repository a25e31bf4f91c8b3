//! Calendar dates as the extraction reads and writes them.

use vstd::prelude::*;

verus! {

/// A calendar date.
#[derive(Clone, Copy, Debug, PartialEq, Eq, Structural)]
pub struct Date {
    pub year: i32,
    pub month: u32,
    pub day: u32,
}

impl Date {
    /// Month and day are in calendar range.
    pub open spec fn wf(self) -> bool {
        1 <= self.month <= 12 && 1 <= self.day <= 31
    }

    /// The date as a (year, month, day) triple.
    pub open spec fn triple(self) -> (int, int, int) {
        (self.year as int, self.month as int, self.day as int)
    }
}

/// The (year, month, day) triple `a` lies strictly before `b` in the calendar.
pub open spec fn triple_before(a: (int, int, int), b: (int, int, int)) -> bool {
    a.0 < b.0 || (a.0 == b.0 && (a.1 < b.1 || (a.1 == b.1 && a.2 < b.2)))
}

/// `a` lies strictly before `b` in the calendar.
pub open spec fn date_before(a: Date, b: Date) -> bool {
    triple_before(a.triple(), b.triple())
}

/// Whether `a` lies strictly before `b`.
pub fn is_before(a: &Date, b: &Date) -> (r: bool)
    ensures
        r == date_before(*a, *b),
{
    a.year < b.year || (a.year == b.year && (a.month < b.month || (a.month == b.month && a.day
        < b.day)))
}

/// What `NaiveDate::parse_from_str(s, "%m/%d/%Y")` yields for the text `s`, as
/// a (year, month, day) triple.
pub uninterp spec fn parsed_mdy(s: Seq<char>) -> Option<(int, int, int)>;

/// Relies on chrono's `NaiveDate::parse_from_str` with the pattern
/// `%m/%d/%Y`: on success the result is a valid calendar date.
#[verifier::external_body]
fn parse_mdy(s: &str) -> (r: Option<Date>)
    ensures
        r matches Some(d) ==> parsed_mdy(s@) == Some(d.triple()) && d.wf(),
        r is None ==> parsed_mdy(s@) is None,
{
    match chrono::NaiveDate::parse_from_str(s, "%m/%d/%Y") {
        Ok(d) => Some(
            Date {
                year: chrono::Datelike::year(&d),
                month: chrono::Datelike::month(&d),
                day: chrono::Datelike::day(&d),
            },
        ),
        Err(_) => None,
    }
}

/// Relies on chrono's `Local::now` and `DateTime::date_naive`: the current
/// calendar date in the machine's time zone.
#[verifier::external_body]
pub(crate) fn local_today() -> (r: Date)
    ensures
        r.wf(),
{
    let d = chrono::Local::now().date_naive();
    Date {
        year: chrono::Datelike::year(&d),
        month: chrono::Datelike::month(&d),
        day: chrono::Datelike::day(&d),
    }
}

/// The due date written in a cell as month/day/year, when it parses and its
/// year has four digits.
pub open spec fn due_date_of(s: Seq<char>) -> Option<(int, int, int)> {
    match parsed_mdy(s) {
        Some(t) => if 0 <= t.0 <= 9999 {
            Some(t)
        } else {
            None
        },
        None => None,
    }
}

/// Reads a due date written as month/day/year; the year must lie in
/// 0000..=9999.
pub fn parse_due_date(s: &str) -> (r: Option<Date>)
    ensures
        r matches Some(d) ==> due_date_of(s@) == Some(d.triple()) && d.wf() && 0 <= d.year
            <= 9999,
        r is None ==> due_date_of(s@) is None,
{
    match parse_mdy(s) {
        Some(d) => if 0 <= d.year && d.year <= 9999 {
            Some(d)
        } else {
            None
        },
        None => None,
    }
}

/// The decimal digit `d`.
pub open spec fn digit_char(d: int) -> char {
    if d == 0 {
        '0'
    } else if d == 1 {
        '1'
    } else if d == 2 {
        '2'
    } else if d == 3 {
        '3'
    } else if d == 4 {
        '4'
    } else if d == 5 {
        '5'
    } else if d == 6 {
        '6'
    } else if d == 7 {
        '7'
    } else if d == 8 {
        '8'
    } else {
        '9'
    }
}

/// `n` (below 100) as two digits.
pub open spec fn two_digits(n: int) -> Seq<char> {
    seq![digit_char(n / 10), digit_char(n % 10)]
}

/// `n` (below 10000) as four digits.
pub open spec fn four_digits(n: int) -> Seq<char> {
    two_digits(n / 100) + two_digits(n % 100)
}

/// A date written as day-month-year, `DD-MM-YYYY`.
pub open spec fn dmy_text(t: (int, int, int)) -> Seq<char> {
    two_digits(t.2) + seq!['-'] + two_digits(t.1) + seq!['-'] + four_digits(t.0)
}

/// A month written as month-year, `MM-YYYY`.
pub open spec fn my_text(month: int, year: int) -> Seq<char> {
    two_digits(month) + seq!['-'] + four_digits(year)
}

/// Appends the digit `d`.
pub(crate) fn push_digit(s: &mut String, d: u32)
    requires
        d < 10,
    ensures
        final(s)@ == old(s)@.push(digit_char(d as int)),
{
    let t: &str = match d {
        0 => "0",
        1 => "1",
        2 => "2",
        3 => "3",
        4 => "4",
        5 => "5",
        6 => "6",
        7 => "7",
        8 => "8",
        _ => "9",
    };
    proof {
        reveal_strlit("0");
        reveal_strlit("1");
        reveal_strlit("2");
        reveal_strlit("3");
        reveal_strlit("4");
        reveal_strlit("5");
        reveal_strlit("6");
        reveal_strlit("7");
        reveal_strlit("8");
        reveal_strlit("9");
    }
    s.append(t);
}

/// Appends `n` as two digits.
fn push_two_digits(s: &mut String, n: u32)
    requires
        n < 100,
    ensures
        final(s)@ == old(s)@ + two_digits(n as int),
{
    push_digit(s, n / 10);
    push_digit(s, n % 10);
}

/// Appends `n` as four digits.
fn push_four_digits(s: &mut String, n: u32)
    requires
        n < 10000,
    ensures
        final(s)@ == old(s)@ + four_digits(n as int),
{
    push_two_digits(s, n / 100);
    push_two_digits(s, n % 100);
}

/// Appends the separator `-`.
fn push_dash(s: &mut String)
    ensures
        final(s)@ == old(s)@ + seq!['-'],
{
    proof {
        reveal_strlit("-");
    }
    s.append("-");
}

/// Writes a date as `DD-MM-YYYY`.
pub fn format_dmy(d: &Date) -> (r: String)
    requires
        d.wf(),
        0 <= d.year <= 9999,
    ensures
        r@ == dmy_text(d.triple()),
{
    let mut s = String::new();
    push_two_digits(&mut s, d.day);
    push_dash(&mut s);
    push_two_digits(&mut s, d.month);
    push_dash(&mut s);
    push_four_digits(&mut s, d.year as u32);
    s
}

/// Writes a month as `MM-YYYY`.
pub fn format_my(month: u32, year: u32) -> (r: String)
    requires
        1 <= month <= 12,
        year <= 9999,
    ensures
        r@ == my_text(month as int, year as int),
{
    let mut s = String::new();
    push_two_digits(&mut s, month);
    push_dash(&mut s);
    push_four_digits(&mut s, year);
    s
}

/// The period code `MMYYYY` (month then year, six digits) as (month, year).
pub open spec fn period_of(s: Seq<char>) -> Option<(int, int)> {
    if s.len() == 6 && (forall|i: int| 0 <= i < 6 ==> '0' <= #[trigger] s[i] <= '9') {
        let month = (s[0] as int - '0' as int) * 10 + (s[1] as int - '0' as int);
        let year = (s[2] as int - '0' as int) * 1000 + (s[3] as int - '0' as int) * 100 + (
        s[4] as int - '0' as int) * 10 + (s[5] as int - '0' as int);
        if 1 <= month <= 12 {
            Some((month, year))
        } else {
            None
        }
    } else {
        None
    }
}

/// Reads a period code `MMYYYY`.
pub fn parse_period(s: &str) -> (r: Option<(u32, u32)>)
    ensures
        r matches Some(p) ==> period_of(s@) == Some((p.0 as int, p.1 as int)) && 1 <= p.0 <= 12
            && p.1 <= 9999,
        r is None ==> period_of(s@) is None,
{
    if s.unicode_len() != 6 {
        return None;
    }
    let mut i: usize = 0;
    while i < 6
        invariant
            s@.len() == 6,
            i <= 6,
            forall|j: int| 0 <= j < i ==> '0' <= #[trigger] s@[j] <= '9',
        decreases 6 - i,
    {
        let c = s.get_char(i);
        if !('0' <= c && c <= '9') {
            return None;
        }
        i = i + 1;
    }
    let d0 = s.get_char(0) as u32 - '0' as u32;
    let d1 = s.get_char(1) as u32 - '0' as u32;
    let d2 = s.get_char(2) as u32 - '0' as u32;
    let d3 = s.get_char(3) as u32 - '0' as u32;
    let d4 = s.get_char(4) as u32 - '0' as u32;
    let d5 = s.get_char(5) as u32 - '0' as u32;
    let month = d0 * 10 + d1;
    let year = d2 * 1000 + d3 * 100 + d4 * 10 + d5;
    if 1 <= month && month <= 12 {
        Some((month, year))
    } else {
        None
    }
}

} // verus!
