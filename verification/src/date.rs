//! Report dates: a calendar date and the two texts derived from it.

use vstd::prelude::*;
use vstd::string::{StrSliceExecFns, StringExecFns};
use crate::text::chars_of;

verus! {

/// Whether `y` is a leap year of the Gregorian calendar.
pub open spec fn is_leap_year(y: int) -> bool {
    y % 4 == 0 && (y % 100 != 0 || y % 400 == 0)
}

/// The number of days of month `m` in year `y`.
pub open spec fn days_in_month(y: int, m: int) -> int {
    if m == 2 {
        if is_leap_year(y) {
            29
        } else {
            28
        }
    } else if m == 4 || m == 6 || m == 9 || m == 11 {
        30
    } else {
        31
    }
}

/// Whether year, month and day name a day of the calendar that four
/// digits of year can express.
pub open spec fn is_calendar_date(y: int, m: int, d: int) -> bool {
    0 <= y <= 9999 && 1 <= m <= 12 && 1 <= d <= days_in_month(y, m)
}

/// Whether `c` is one of the digits `0` to `9`.
pub open spec fn is_digit(c: char) -> bool {
    48 <= c as u32 <= 57
}

/// The number that the digit `c` stands for.
pub open spec fn digit_value(c: char) -> int {
    c as u32 - 48
}

/// The digit that stands for `n`, a number from 0 to 9.
pub open spec fn digit(n: int) -> char {
    ((48 + n) as u8) as char
}

/// `n`, below 100, in two digits.
pub open spec fn two_digits(n: int) -> Seq<char> {
    seq![digit(n / 10), digit(n % 10)]
}

/// `n`, below 10000, in four digits.
pub open spec fn four_digits(n: int) -> Seq<char> {
    seq![digit(n / 1000), digit(n / 100 % 10), digit(n / 10 % 10), digit(n % 10)]
}

/// Year, month and day in ten characters, with `sep` between the parts.
pub open spec fn date_text(y: int, m: int, d: int, sep: char) -> Seq<char> {
    four_digits(y) + seq![sep] + two_digits(m) + seq![sep] + two_digits(d)
}

/// The year that the first four characters of `s` spell.
pub open spec fn year_in(s: Seq<char>) -> int {
    digit_value(s[0]) * 1000 + digit_value(s[1]) * 100 + digit_value(s[2]) * 10 + digit_value(s[3])
}

/// The month that the characters 5 and 6 of `s` spell.
pub open spec fn month_in(s: Seq<char>) -> int {
    digit_value(s[5]) * 10 + digit_value(s[6])
}

/// The day that the characters 8 and 9 of `s` spell.
pub open spec fn day_in(s: Seq<char>) -> int {
    digit_value(s[8]) * 10 + digit_value(s[9])
}

/// Whether `s` has the shape `YYYY-MM-DD` and names a day of the calendar.
pub open spec fn is_dashed_date(s: Seq<char>) -> bool {
    &&& s.len() == 10
    &&& s[4] == '-'
    &&& s[7] == '-'
    &&& is_digit(s[0]) && is_digit(s[1]) && is_digit(s[2]) && is_digit(s[3])
    &&& is_digit(s[5]) && is_digit(s[6])
    &&& is_digit(s[8]) && is_digit(s[9])
    &&& is_calendar_date(year_in(s), month_in(s), day_in(s))
}

/// `s` with every dash replaced by a dot.
pub open spec fn with_dots(s: Seq<char>) -> Seq<char> {
    s.map_values(|c: char| if c == '-' { '.' } else { c })
}

/// The extension of a report file.
pub open spec fn file_extension() -> Seq<char> {
    seq!['.', 'm', 'd']
}

/// Digits and their values correspond.
pub proof fn lemma_digit(n: int)
    requires
        0 <= n <= 9,
    ensures
        is_digit(digit(n)),
        digit_value(digit(n)) == n,
        digit(n) != '-',
{
}

/// A digit is the digit of its value.
pub proof fn lemma_digit_of_value(c: char)
    requires
        is_digit(c),
    ensures
        0 <= digit_value(c) <= 9,
        digit(digit_value(c)) == c,
{
}

/// Four digits are the two digits of the hundreds and the two of the rest.
pub proof fn lemma_four_digits_split(hi: int, lo: int)
    requires
        0 <= hi <= 99,
        0 <= lo <= 99,
    ensures
        four_digits(hi * 100 + lo) == two_digits(hi) + two_digits(lo),
{
    let y = hi * 100 + lo;
    assert(y / 1000 == hi / 10);
    assert(y / 100 % 10 == hi % 10);
    assert(y / 10 % 10 == lo / 10);
    assert(y % 10 == lo % 10);
    assert(four_digits(y) =~= two_digits(hi) + two_digits(lo));
}

/// Two digits spell their number, and the number is written as they are.
pub proof fn lemma_two_digits_of(a: char, b: char)
    requires
        is_digit(a),
        is_digit(b),
    ensures
        0 <= digit_value(a) * 10 + digit_value(b) <= 99,
        two_digits(digit_value(a) * 10 + digit_value(b)) == seq![a, b],
{
    lemma_digit_of_value(a);
    lemma_digit_of_value(b);
    let n = digit_value(a) * 10 + digit_value(b);
    assert(n / 10 == digit_value(a));
    assert(n % 10 == digit_value(b));
    assert(two_digits(n) =~= seq![a, b]);
}

/// Four digits spell their number.
pub proof fn lemma_four_digits_value(y: int)
    requires
        0 <= y <= 9999,
    ensures
        is_digit(four_digits(y)[0]) && is_digit(four_digits(y)[1]),
        is_digit(four_digits(y)[2]) && is_digit(four_digits(y)[3]),
        digit_value(four_digits(y)[0]) * 1000 + digit_value(four_digits(y)[1]) * 100 + digit_value(
            four_digits(y)[2],
        ) * 10 + digit_value(four_digits(y)[3]) == y,
{
    let hi = y / 100;
    let lo = y % 100;
    lemma_four_digits_split(hi, lo);
    lemma_two_digits_value(hi);
    lemma_two_digits_value(lo);
    let t = two_digits(hi) + two_digits(lo);
    assert(t[0] == two_digits(hi)[0] && t[1] == two_digits(hi)[1]);
    assert(t[2] == two_digits(lo)[0] && t[3] == two_digits(lo)[1]);
}

/// Two digits spell their number.
pub proof fn lemma_two_digits_value(n: int)
    requires
        0 <= n <= 99,
    ensures
        is_digit(two_digits(n)[0]) && is_digit(two_digits(n)[1]),
        digit_value(two_digits(n)[0]) * 10 + digit_value(two_digits(n)[1]) == n,
{
    lemma_digit(n / 10);
    lemma_digit(n % 10);
}

/// Writing a day of the calendar with dashes gives a text that reads back
/// as that day.
pub proof fn lemma_dashed_text_reads_back(y: int, m: int, d: int)
    requires
        is_calendar_date(y, m, d),
    ensures
        is_dashed_date(date_text(y, m, d, '-')),
        year_in(date_text(y, m, d, '-')) == y,
        month_in(date_text(y, m, d, '-')) == m,
        day_in(date_text(y, m, d, '-')) == d,
{
    let s = date_text(y, m, d, '-');
    lemma_four_digits_value(y);
    lemma_two_digits_value(m);
    lemma_two_digits_value(d);
    assert(s.len() == 10);
    assert(s[0] == four_digits(y)[0] && s[1] == four_digits(y)[1] && s[2] == four_digits(y)[2]
        && s[3] == four_digits(y)[3]);
    assert(s[4] == '-' && s[7] == '-');
    assert(s[5] == two_digits(m)[0] && s[6] == two_digits(m)[1]);
    assert(s[8] == two_digits(d)[0] && s[9] == two_digits(d)[1]);
}

/// The dotted form of a date is its dashed form with each dash replaced
/// by a dot.
pub proof fn lemma_dotted_is_dashed_with_dots(y: int, m: int, d: int)
    requires
        is_calendar_date(y, m, d),
    ensures
        date_text(y, m, d, '.') == with_dots(date_text(y, m, d, '-')),
{
    let dashed = date_text(y, m, d, '-');
    let dotted = date_text(y, m, d, '.');
    lemma_dashed_text_reads_back(y, m, d);
    assert(dotted.len() == 10);
    assert forall|i: int| 0 <= i < 10 implies dotted[i] == with_dots(dashed)[i] by {
        if i == 4 || i == 7 {
        } else {
            assert(is_digit(dashed[i]));
            assert(dotted[i] == dashed[i]);
        }
    }
    assert(dotted =~= with_dots(dashed));
}

/// A day of the calendar.
#[derive(Debug, Clone, Copy, PartialEq, Eq)]
pub struct ReportDate {
    year: u16,
    month: u8,
    day: u8,
}

/// The number of days of month `month` in year `year`.
fn month_length(year: u16, month: u8) -> (n: u8)
    ensures
        n == days_in_month(year as int, month as int),
{
    if month == 2 {
        if year % 4 == 0 && (year % 100 != 0 || year % 400 == 0) {
            29
        } else {
            28
        }
    } else if month == 4 || month == 6 || month == 9 || month == 11 {
        30
    } else {
        31
    }
}

/// The value of `c` where it is a digit.
fn value_of_digit(c: char) -> (r: Option<u8>)
    ensures
        r is Some <==> is_digit(c),
        r matches Some(n) ==> n == digit_value(c),
{
    let n: u32 = c as u32;
    if 48 <= n && n <= 57 {
        Some((n - 48) as u8)
    } else {
        None
    }
}

/// The number that the two characters at `i` and `i + 1` of `v` spell,
/// where both are digits.
fn read_two_digits(v: &Vec<char>, i: usize) -> (r: Option<u8>)
    requires
        i + 2 <= v.len(),
    ensures
        r is Some <==> is_digit(v@[i as int]) && is_digit(v@[i + 1]),
        r matches Some(n) ==> {
            &&& n == digit_value(v@[i as int]) * 10 + digit_value(v@[i + 1])
            &&& n <= 99
            &&& two_digits(n as int) == seq![v@[i as int], v@[i + 1]]
        },
{
    match (value_of_digit(v[i]), value_of_digit(v[i + 1])) {
        (Some(a), Some(b)) => {
            proof {
                lemma_two_digits_of(v@[i as int], v@[i + 1]);
            }
            Some(a * 10 + b)
        },
        _ => None,
    }
}

/// The ten digits in the order of their values.
const DIGITS: &'static str = "0123456789";

/// Appends the digit of `n` to `out`.
fn push_digit(out: &mut String, n: u8)
    requires
        n <= 9,
    ensures
        final(out)@ == old(out)@.push(digit(n as int)),
{
    proof {
        reveal_strlit("0123456789");
    }
    let d = DIGITS.substring_char(n as usize, n as usize + 1);
    out.append(d);
    proof {
        assert(DIGITS@[n as int] == digit(n as int)) by {
            assert(n == 0 || n == 1 || n == 2 || n == 3 || n == 4 || n == 5 || n == 6 || n == 7
                || n == 8 || n == 9);
        }
        assert(d@ =~= seq![digit(n as int)]);
        assert(out@ =~= old(out)@.push(digit(n as int)));
    }
}

/// Appends `n` in two digits to `out`.
fn push_two_digits(out: &mut String, n: u8)
    requires
        n <= 99,
    ensures
        final(out)@ == old(out)@ + two_digits(n as int),
{
    push_digit(out, n / 10);
    push_digit(out, n % 10);
    assert(out@ =~= old(out)@ + two_digits(n as int));
}

impl ReportDate {
    #[verifier::type_invariant]
    spec fn valid(self) -> bool {
        is_calendar_date(self.year as int, self.month as int, self.day as int)
    }

    /// The year, from 0 to 9999.
    pub closed spec fn year_value(self) -> int {
        self.year as int
    }

    /// The month, from 1 to 12.
    pub closed spec fn month_value(self) -> int {
        self.month as int
    }

    /// The day of the month, from 1.
    pub closed spec fn day_value(self) -> int {
        self.day as int
    }

    /// The date as `YYYY-MM-DD`.
    pub open spec fn dashed_text(self) -> Seq<char> {
        date_text(self.year_value(), self.month_value(), self.day_value(), '-')
    }

    /// The date as `YYYY.MM.DD`.
    pub open spec fn dotted_text(self) -> Seq<char> {
        date_text(self.year_value(), self.month_value(), self.day_value(), '.')
    }

    /// The name of the file that holds the report of this date.
    pub open spec fn file_name_text(self) -> Seq<char> {
        self.dotted_text() + file_extension()
    }

    /// Reads a date written as `YYYY-MM-DD`. Any other text, and a text of
    /// that shape that names no day of the calendar, gives `None`.
    pub fn parse(text: &str) -> (r: Option<ReportDate>)
        ensures
            r is Some <==> is_dashed_date(text@),
            r matches Some(date) ==> {
                &&& date.year_value() == year_in(text@)
                &&& date.month_value() == month_in(text@)
                &&& date.day_value() == day_in(text@)
                &&& date.dashed_text() == text@
                &&& is_calendar_date(date.year_value(), date.month_value(), date.day_value())
            },
    {
        let v = chars_of(text);
        if v.len() != 10 {
            return None;
        }
        if v[4] != '-' || v[7] != '-' {
            return None;
        }
        let (hi, lo, month, day) = match (
            read_two_digits(&v, 0),
            read_two_digits(&v, 2),
            read_two_digits(&v, 5),
            read_two_digits(&v, 8),
        ) {
            (Some(hi), Some(lo), Some(month), Some(day)) => (hi, lo, month, day),
            _ => {
                return None;
            },
        };
        let year: u16 = (hi as u16) * 100 + (lo as u16);
        assert(year == year_in(text@));
        if month < 1 || month > 12 {
            return None;
        }
        if day < 1 || day > month_length(year, month) {
            return None;
        }
        let date = ReportDate { year, month, day };
        proof {
            lemma_four_digits_split(hi as int, lo as int);
            assert(date.dashed_text() =~= text@);
        }
        Some(date)
    }

    /// The year.
    pub fn year(&self) -> (y: u16)
        ensures
            y == self.year_value(),
    {
        self.year
    }

    /// The month.
    pub fn month(&self) -> (m: u8)
        ensures
            m == self.month_value(),
    {
        self.month
    }

    /// The day of the month.
    pub fn day(&self) -> (d: u8)
        ensures
            d == self.day_value(),
    {
        self.day
    }

    /// The date in ten characters, with the one character of `sep` between
    /// year, month and day.
    fn write(&self, sep: &str) -> (out: String)
        requires
            sep@.len() == 1,
        ensures
            out@ == date_text(self.year_value(), self.month_value(), self.day_value(), sep@[0]),
    {
        proof {
            use_type_invariant(self);
        }
        let mut out = String::new();
        let high: u8 = (self.year / 100) as u8;
        let low: u8 = (self.year % 100) as u8;
        push_two_digits(&mut out, high);
        push_two_digits(&mut out, low);
        out.append(sep);
        push_two_digits(&mut out, self.month);
        out.append(sep);
        push_two_digits(&mut out, self.day);
        proof {
            lemma_four_digits_split(high as int, low as int);
            assert(sep@ =~= seq![sep@[0]]);
            assert(out@ =~= date_text(
                self.year as int,
                self.month as int,
                self.day as int,
                sep@[0],
            ));
        }
        out
    }

    /// The date as `YYYY-MM-DD`, the form used in the archive.
    pub fn dashed(&self) -> (out: String)
        ensures
            out@ == self.dashed_text(),
    {
        proof {
            reveal_strlit("-");
        }
        self.write("-")
    }

    /// The date as `YYYY.MM.DD`, the form used in file names.
    pub fn dotted(&self) -> (out: String)
        ensures
            out@ == self.dotted_text(),
    {
        proof {
            reveal_strlit(".");
        }
        self.write(".")
    }

    /// The name of the file that holds the report of this date:
    /// the dotted form and the extension `.md`.
    pub fn file_name(&self) -> (out: String)
        ensures
            out@ == self.file_name_text(),
    {
        proof {
            reveal_strlit(".");
            reveal_strlit(".md");
        }
        let mut out = self.write(".");
        out.append(".md");
        assert(".md"@ =~= file_extension());
        assert(out@ =~= self.file_name_text());
        out
    }
}

} // verus!
