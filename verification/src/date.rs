//! Calendar dates of the proleptic Gregorian calendar, and the text of an
//! instant as date, time and offset.

use vstd::prelude::*;

verus! {

/// The first second of the year 1, in seconds since the Unix epoch.
pub const FIRST_SECOND: i64 = -62_135_596_800;

/// The last second of the year 9999, in seconds since the Unix epoch.
pub const LAST_SECOND: i64 = 253_402_300_799;

/// The day number of 1970-01-01, where 0001-01-01 is day 0.
pub const EPOCH_DAY: i64 = 719_162;

/// Whether `year` has a 29th of February.
pub open spec fn is_leap(year: int) -> bool {
    year % 4 == 0 && (year % 100 != 0 || year % 400 == 0)
}

/// The number of days of a year.
pub open spec fn days_in_year(year: int) -> int {
    if is_leap(year) {
        366
    } else {
        365
    }
}

/// The number of days of a month, from 1 for January to 12 for December.
pub open spec fn days_in_month(year: int, month: int) -> int {
    if month == 2 {
        if is_leap(year) {
            29
        } else {
            28
        }
    } else if month == 4 || month == 6 || month == 9 || month == 11 {
        30
    } else {
        31
    }
}

/// The number of days from the first day of the year 1 to the first day of
/// `year`.
pub open spec fn days_before_year(year: int) -> int
    decreases year,
{
    if year <= 1 {
        0
    } else {
        days_before_year(year - 1) + days_in_year(year - 1)
    }
}

/// The number of days from the first day of `year` to the first day of
/// `month`.
pub open spec fn days_before_month(year: int, month: int) -> int
    decreases month,
{
    if month <= 1 {
        0
    } else {
        days_before_month(year, month - 1) + days_in_month(year, month - 1)
    }
}

/// Whether there is such a day in the calendar.
pub open spec fn valid_date(year: int, month: int, day: int) -> bool {
    1 <= year && 1 <= month <= 12 && 1 <= day <= days_in_month(year, month)
}

/// The number of the day, where 0001-01-01 is day 0.
pub open spec fn day_number(year: int, month: int, day: int) -> int {
    days_before_year(year) + days_before_month(year, month) + day - 1
}

/// The decimal digit for a value below 10.
pub open spec fn digit(n: int) -> char {
    seq!['0', '1', '2', '3', '4', '5', '6', '7', '8', '9'][n]
}

/// `n` in two decimal digits.
pub open spec fn pad2(n: int) -> Seq<char> {
    seq![digit(n / 10), digit(n % 10)]
}

/// `n` in four decimal digits.
pub open spec fn pad4(n: int) -> Seq<char> {
    seq![digit(n / 1000), digit(n / 100 % 10), digit(n / 10 % 10), digit(n % 10)]
}

/// An offset from UTC as sign, hours and minutes; seconds are cut off.
pub open spec fn offset_text(offset: int) -> Seq<char> {
    let size = if offset < 0 {
        -offset
    } else {
        offset
    };
    seq![if offset < 0 {
        '-'
    } else {
        '+'
    }] + pad2(size / 3600) + seq![':'] + pad2(size % 3600 / 60)
}

/// A second of some day, as a calendar shows it.
#[derive(Debug, Clone, Copy, PartialEq, Eq)]
pub struct Moment {
    pub year: u16,
    pub month: u8,
    pub day: u8,
    pub hour: u8,
    pub minute: u8,
    pub second: u8,
}

impl Moment {
    /// Whether this is a second of a day of the years 1 to 9999.
    pub open spec fn wf(&self) -> bool {
        &&& self.year <= 9999
        &&& valid_date(self.year as int, self.month as int, self.day as int)
        &&& self.hour < 24
        &&& self.minute < 60
        &&& self.second < 60
    }

    /// The seconds from the Unix epoch to this moment, read as UTC.
    pub open spec fn instant(&self) -> int {
        (day_number(self.year as int, self.month as int, self.day as int) - EPOCH_DAY) * 86_400
            + self.hour * 3600 + self.minute * 60 + self.second
    }

    /// Date and time, a `T` between them, followed by the offset.
    pub open spec fn text(&self, offset: int) -> Seq<char> {
        pad4(self.year as int) + seq!['-'] + pad2(self.month as int) + seq!['-'] + pad2(
            self.day as int,
        ) + seq!['T'] + pad2(self.hour as int) + seq![':'] + pad2(self.minute as int) + seq![':']
            + pad2(self.second as int) + offset_text(offset)
    }
}

/// The days before a year, counted without recursion.
proof fn lemma_days_before_year(year: int)
    requires
        1 <= year,
    ensures
        days_before_year(year) == 365 * (year - 1) + (year - 1) / 4 - (year - 1) / 100 + (year
            - 1) / 400,
    decreases year,
{
    if year > 1 {
        lemma_days_before_year(year - 1);
        let p = year - 1;
        assert(p / 4 - (p - 1) / 4 == if p % 4 == 0 {
            1int
        } else {
            0int
        });
        assert(p / 100 - (p - 1) / 100 == if p % 100 == 0 {
            1int
        } else {
            0int
        });
        assert(p / 400 - (p - 1) / 400 == if p % 400 == 0 {
            1int
        } else {
            0int
        });
        assert(p % 400 == 0 ==> p % 100 == 0);
        assert(p % 100 == 0 ==> p % 4 == 0);
    }
}

/// A year has as many days as its months have together.
proof fn lemma_days_before_month(year: int)
    ensures
        days_before_month(year, 1) == 0,
        days_before_month(year, 2) == 31,
        days_before_month(year, 3) == 31 + days_in_month(year, 2),
        days_before_month(year, 4) == 62 + days_in_month(year, 2),
        days_before_month(year, 5) == 92 + days_in_month(year, 2),
        days_before_month(year, 6) == 123 + days_in_month(year, 2),
        days_before_month(year, 7) == 153 + days_in_month(year, 2),
        days_before_month(year, 8) == 184 + days_in_month(year, 2),
        days_before_month(year, 9) == 215 + days_in_month(year, 2),
        days_before_month(year, 10) == 245 + days_in_month(year, 2),
        days_before_month(year, 11) == 276 + days_in_month(year, 2),
        days_before_month(year, 12) == 306 + days_in_month(year, 2),
        days_before_month(year, 13) == days_in_year(year),
{
    reveal_with_fuel(days_before_month, 14);
}

/// Later years start later: by at least 365 days for each year between.
proof fn lemma_years_grow(earlier: int, later: int)
    requires
        1 <= earlier <= later,
    ensures
        days_before_year(later) >= days_before_year(earlier) + 365 * (later - earlier),
    decreases later - earlier,
{
    if earlier < later {
        lemma_years_grow(earlier, later - 1);
    }
}

/// Later months start later: by at least 28 days for each month between.
proof fn lemma_months_grow(year: int, earlier: int, later: int)
    requires
        1 <= earlier <= later,
    ensures
        days_before_month(year, later) >= days_before_month(year, earlier) + 28 * (later
            - earlier),
    decreases later - earlier,
{
    if earlier < later {
        lemma_months_grow(year, earlier, later - 1);
    }
}

/// No two moments are the same second: a moment is known by its instant.
pub proof fn lemma_moment_unique(a: Moment, b: Moment)
    requires
        a.wf(),
        b.wf(),
        a.instant() == b.instant(),
    ensures
        a == b,
{
    let da = day_number(a.year as int, a.month as int, a.day as int);
    let db = day_number(b.year as int, b.month as int, b.day as int);
    let ta = a.hour * 3600 + a.minute * 60 + a.second;
    let tb = b.hour * 3600 + b.minute * 60 + b.second;
    assert(0 <= ta < 86_400 && 0 <= tb < 86_400);
    assert(da == db && ta == tb);
    assert(a.hour == b.hour && a.minute == b.minute && a.second == b.second);
    lemma_days_before_month(a.year as int);
    lemma_days_before_month(b.year as int);
    lemma_months_grow(a.year as int, a.month as int, 13);
    lemma_months_grow(b.year as int, b.month as int, 13);
    lemma_months_grow(a.year as int, 1, a.month as int);
    lemma_months_grow(b.year as int, 1, b.month as int);
    if a.year < b.year {
        lemma_years_grow(a.year as int + 1, b.year as int);
        assert(false);
    }
    if b.year < a.year {
        lemma_years_grow(b.year as int + 1, a.year as int);
        assert(false);
    }
    if a.month < b.month {
        lemma_months_grow(a.year as int, a.month as int + 1, b.month as int);
        assert(false);
    }
    if b.month < a.month {
        lemma_months_grow(a.year as int, b.month as int + 1, a.month as int);
        assert(false);
    }
}

/// Every moment lies between the first second of the year 1 and the last
/// of the year 9999.
pub proof fn lemma_moment_in_range(moment: Moment)
    requires
        moment.wf(),
    ensures
        FIRST_SECOND <= moment.instant() <= LAST_SECOND,
{
    let year = moment.year as int;
    lemma_years_grow(1, year);
    lemma_years_grow(year + 1, 10_000);
    lemma_days_before_year(10_000);
    lemma_days_before_month(year);
    lemma_months_grow(year, 1, moment.month as int);
    lemma_months_grow(year, moment.month as int + 1, 13);
}

/// An instant and an offset have one text for their date, or none: the same
/// instant is never shown in two ways.
pub proof fn lemma_date_text_unique(
    seconds: int,
    offset: int,
    one: Option<Seq<char>>,
    other: Option<Seq<char>>,
)
    requires
        is_date_text(seconds, offset, one),
        is_date_text(seconds, offset, other),
    ensures
        one == other,
{
    if one is Some {
        let a = choose|moment: Moment|
            moment.wf() && moment.instant() == seconds + offset && one->0 == #[trigger] moment.text(
                offset,
            );
        lemma_moment_in_range(a);
        if other is Some {
            let b = choose|moment: Moment|
                moment.wf() && moment.instant() == seconds + offset && other->0
                    == #[trigger] moment.text(offset);
            lemma_moment_unique(a, b);
        }
    } else if other is Some {
        let b = choose|moment: Moment|
            moment.wf() && moment.instant() == seconds + offset && other->0
                == #[trigger] moment.text(offset);
        lemma_moment_in_range(b);
    }
}

fn leap(year: i64) -> (is: bool)
    requires
        1 <= year <= 10_000,
    ensures
        is == is_leap(year as int),
{
    year % 4 == 0 && (year % 100 != 0 || year % 400 == 0)
}

fn year_start(year: i64) -> (days: i64)
    requires
        1 <= year <= 10_000,
    ensures
        days == days_before_year(year as int),
        0 <= days <= 3_652_059,
{
    proof {
        lemma_days_before_year(year as int);
    }
    let p = year - 1;
    365 * p + p / 4 - p / 100 + p / 400
}

fn month_length(year: i64, month: u8) -> (days: i64)
    requires
        1 <= year <= 10_000,
        1 <= month <= 12,
    ensures
        days == days_in_month(year as int, month as int),
{
    if month == 2 {
        if leap(year) {
            29
        } else {
            28
        }
    } else if month == 4 || month == 6 || month == 9 || month == 11 {
        30
    } else {
        31
    }
}

fn digit_char(n: i64) -> (c: char)
    requires
        0 <= n < 10,
    ensures
        c == digit(n as int),
{
    match n {
        0 => '0',
        1 => '1',
        2 => '2',
        3 => '3',
        4 => '4',
        5 => '5',
        6 => '6',
        7 => '7',
        8 => '8',
        _ => '9',
    }
}

fn push2(text: &mut String, n: i64)
    requires
        0 <= n < 100,
    ensures
        final(text)@ == old(text)@ + pad2(n as int),
{
    text.push(digit_char(n / 10));
    text.push(digit_char(n % 10));
    assert(text@ =~= old(text)@ + pad2(n as int));
}

fn push4(text: &mut String, n: i64)
    requires
        0 <= n < 10_000,
    ensures
        final(text)@ == old(text)@ + pad4(n as int),
{
    text.push(digit_char(n / 1000));
    text.push(digit_char(n / 100 % 10));
    text.push(digit_char(n / 10 % 10));
    text.push(digit_char(n % 10));
    assert(text@ =~= old(text)@ + pad4(n as int));
}

fn push1(text: &mut String, c: char)
    ensures
        final(text)@ == old(text)@ + seq![c],
{
    text.push(c);
    assert(text@ =~= old(text)@ + seq![c]);
}

impl Moment {
    /// The moment that is `seconds` after the Unix epoch.
    pub fn at(seconds: i64) -> (moment: Moment)
        requires
            FIRST_SECOND <= seconds <= LAST_SECOND,
        ensures
            moment.wf(),
            moment.instant() == seconds,
    {
        let shifted = seconds - FIRST_SECOND;
        let days = shifted / 86_400;
        let rest = shifted % 86_400;
        assert(seconds == (days - EPOCH_DAY) * 86_400 + rest);
        let mut year: i64 = days / 366 + 1;
        proof {
            lemma_days_before_year(year as int);
            lemma_days_before_year(10_000);
        }
        while year_start(year + 1) <= days
            invariant
                1 <= year <= 9999,
                0 <= days < 3_652_059,
                days_before_year(year as int) <= days,
                days_before_year(10_000) == 3_652_059,
            decreases 10_000 - year,
        {
            year += 1;
        }
        let mut in_year = days - year_start(year);
        let mut month: u8 = 1;
        proof {
            lemma_days_before_month(year as int);
        }
        while in_year >= month_length(year, month)
            invariant
                1 <= year <= 9999,
                1 <= month <= 12,
                0 <= in_year,
                days_before_month(year as int, month as int) + in_year == days
                    - days_before_year(year as int),
                days_before_month(year as int, 13) == days_in_year(year as int),
                days < days_before_year(year as int) + days_in_year(year as int),
            decreases 12 - month,
        {
            proof {
                lemma_months_grow(year as int, month as int + 1, 13);
            }
            in_year -= month_length(year, month);
            month += 1;
        }
        Moment {
            year: year as u16,
            month,
            day: (in_year + 1) as u8,
            hour: (rest / 3600) as u8,
            minute: (rest % 3600 / 60) as u8,
            second: (rest % 60) as u8,
        }
    }

    /// The text of this moment with the offset that it was taken at.
    pub fn render(&self, offset_seconds: i32) -> (text: String)
        requires
            self.wf(),
            -86_400 < offset_seconds < 86_400,
        ensures
            text@ == self.text(offset_seconds as int),
    {
        let mut text = String::new();
        assert(text@ =~= Seq::<char>::empty() + Seq::<char>::empty());
        push4(&mut text, self.year as i64);
        push1(&mut text, '-');
        push2(&mut text, self.month as i64);
        push1(&mut text, '-');
        push2(&mut text, self.day as i64);
        push1(&mut text, 'T');
        push2(&mut text, self.hour as i64);
        push1(&mut text, ':');
        push2(&mut text, self.minute as i64);
        push1(&mut text, ':');
        push2(&mut text, self.second as i64);
        let size: i64 = if offset_seconds < 0 {
            -(offset_seconds as i64)
        } else {
            offset_seconds as i64
        };
        push1(
            &mut text,
            if offset_seconds < 0 {
                '-'
            } else {
                '+'
            },
        );
        push2(&mut text, size / 3600);
        push1(&mut text, ':');
        push2(&mut text, size % 3600 / 60);
        assert(text@ =~= self.text(offset_seconds as int));
        text
    }
}

/// Whether an offset from UTC is less than a day either way.
pub open spec fn is_offset(offset: int) -> bool {
    -86_400 < offset < 86_400
}

/// What `date_text` gives: the text of the one moment that local time
/// shows at the instant, if its year has four digits and the offset is one.
pub open spec fn is_date_text(seconds: int, offset: int, text: Option<Seq<char>>) -> bool {
    match text {
        Some(text) => is_offset(offset) && exists|moment: Moment|
            moment.wf() && moment.instant() == seconds + offset && text == #[trigger] moment.text(
                offset,
            ),
        None => !is_offset(offset) || seconds + offset < FIRST_SECOND || LAST_SECOND < seconds
            + offset,
    }
}

/// The date and time that clocks show `offset_seconds` ahead of UTC at
/// `seconds` after the Unix epoch, with that offset: for instance
/// `2024-01-15T10:30:00+00:00`. There is no such text where the local year
/// is not one of 1 to 9999, nor where the offset is a day or more.
pub fn date_text(seconds: i64, offset_seconds: i32) -> (text: Option<String>)
    ensures
        is_date_text(
            seconds as int,
            offset_seconds as int,
            match text {
                Some(text) => Some(text@),
                None => None,
            },
        ),
{
    if offset_seconds <= -86_400 || offset_seconds >= 86_400 {
        return None;
    }
    if seconds < FIRST_SECOND - 86_400 || seconds > LAST_SECOND + 86_400 {
        return None;
    }
    let local = seconds + offset_seconds as i64;
    if local < FIRST_SECOND || local > LAST_SECOND {
        return None;
    }
    let moment = Moment::at(local);
    Some(moment.render(offset_seconds))
}

} // verus!
