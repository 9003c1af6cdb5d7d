use crate::text::decimal;
use crate::text::pad2;
use crate::text::spec_decimal;
use crate::text::spec_pad2;
use crate::text::Render;
use vstd::prelude::*;

verus! {

/// Index of 28 February in the 366-slot year.
pub const FEB_28: u16 = 58;

/// Index of 31 December in the 366-slot year.
pub const DEC_31: u16 = 365;

/// The year in which Unix time starts.
pub const UNIX_START_YEAR: u16 = 1970;

/// Seconds in a day.
pub const SECONDS_PER_DAY: u64 = 86400;

/// Whether a year has a 29 February.
pub open spec fn is_leap(year: int) -> bool {
    year % 4 == 0 && (year % 100 != 0 || year % 400 == 0)
}

/// The number of days of a year.
pub open spec fn year_days(year: int) -> int {
    if is_leap(year) {
        366
    } else {
        365
    }
}

/// The number of days of a month, counted from 1 for January, in a leap year
/// or in a common year; 0 for any other number.
pub open spec fn month_length(leap: bool, month: int) -> int {
    if month == 2 {
        if leap {
            29
        } else {
            28
        }
    } else if month == 4 || month == 6 || month == 9 || month == 11 {
        30
    } else if 1 <= month <= 12 {
        31
    } else {
        0
    }
}

/// The number of days in the months before `month`.
pub open spec fn days_before_month(leap: bool, month: int) -> int
    decreases month,
{
    if month <= 1 {
        0
    } else {
        days_before_month(leap, month - 1) + month_length(leap, month - 1)
    }
}

/// The number of days in the years from year 0 up to `year`, itself left out.
pub open spec fn days_before_year(year: int) -> int
    decreases year,
{
    if year <= 0 {
        0
    } else {
        days_before_year(year - 1) + year_days(year - 1)
    }
}

/// The number of days from 1 January 1970 to 1 January of `year`.
pub open spec fn days_since_epoch(year: int) -> int {
    days_before_year(year) - days_before_year(1970)
}

/// Whether year, month and day name a day of the calendar.
pub open spec fn valid_ymd(year: int, month: int, day: int) -> bool {
    1 <= month <= 12 && 1 <= day <= month_length(is_leap(year), month)
}

/// The day of the year, counted from 0 for 1 January.
pub open spec fn day_of_year(year: int, month: int, day: int) -> int {
    days_before_month(is_leap(year), month) + day - 1
}

/// Moves a day of the year into the 366-slot year: in a common year the days
/// after 28 February move up by one, so that slot 59 stays free.
pub open spec fn normalize(year: int, day: int) -> int {
    if !is_leap(year) && day > 58 {
        day + 1
    } else {
        day
    }
}

/// The slot of a calendar day in the 366-slot year.
pub open spec fn day_index(year: int, month: int, day: int) -> int {
    normalize(year, day_of_year(year, month, day))
}

/// The month, counted from 1, in which a slot of the 366-slot year lies.
pub open spec fn month_of_index(index: int) -> int {
    if index < 31 {
        1
    } else if index < 60 {
        2
    } else if index < 91 {
        3
    } else if index < 121 {
        4
    } else if index < 152 {
        5
    } else if index < 182 {
        6
    } else if index < 213 {
        7
    } else if index < 244 {
        8
    } else if index < 274 {
        9
    } else if index < 305 {
        10
    } else if index < 335 {
        11
    } else {
        12
    }
}

/// The mathematical content of a date: the year and the slot in the 366-slot
/// year.
pub struct DateView {
    pub year: int,
    pub day: int,
}

impl DateView {
    /// A date is well formed if its slot is one of 0 to 365, and is 59 only in
    /// a leap year.
    pub open spec fn wf(self) -> bool {
        0 <= self.year && 0 <= self.day <= 365 && (self.day == 59 ==> is_leap(self.year))
    }

    /// Month and day of the month, both counted from 1. The slots are those of
    /// a leap year, whatever the year.
    pub open spec fn month_day(self) -> (int, int) {
        let month = month_of_index(self.day);
        (month, self.day - days_before_month(true, month) + 1)
    }

    /// The next day: after slot 365 the first slot of the next year; after
    /// slot 58 of a common year slot 60; else the next slot.
    pub open spec fn successor(self) -> DateView {
        if self.day == 365 {
            DateView { year: self.year + 1, day: 0 }
        } else if self.day == 58 && !is_leap(self.year) {
            DateView { year: self.year, day: 60 }
        } else {
            DateView { year: self.year, day: self.day + 1 }
        }
    }

    /// The date reached by `n` steps to the next day.
    pub open spec fn successor_n(self, n: nat) -> DateView
        decreases n,
    {
        if n == 0 {
            self
        } else {
            self.successor_n((n - 1) as nat).successor()
        }
    }

    /// The day of the year in the real calendar, counted from 0.
    pub open spec fn real_day_of_year(self) -> int {
        if !is_leap(self.year) && self.day > 58 {
            self.day - 1
        } else {
            self.day
        }
    }

    /// The number of real days from 1 January of year 0 to this date.
    pub open spec fn ordinal(self) -> int {
        days_before_year(self.year) + self.real_day_of_year()
    }
}

/// Why a year, month and day do not name a day of the calendar.
#[derive(Debug, Copy, Clone, PartialEq, Eq, Structural)]
pub enum DateError {
    /// The month is not one of 1 to 12.
    InvalidMonth,
    /// The day is 0 or beyond the end of the month.
    InvalidDay,
}

/// A day: the year and the slot in the 366-slot year.
#[derive(Debug, Copy, Clone, PartialEq)]
pub struct Date {
    year: u16,
    day: u16,
}

impl View for Date {
    type V = DateView;

    closed spec fn view(&self) -> DateView {
        DateView { year: self.year as int, day: self.day as int }
    }
}

/// Whether a year has a 29 February.
pub fn is_leap_year(year: u16) -> (r: bool)
    ensures
        r == is_leap(year as int),
{
    (year % 4 == 0) && (year % 100 != 0 || year % 400 == 0)
}

/// The number of seconds of a year.
pub fn year_length(year: u16) -> (r: u64)
    ensures
        r == 86400 * year_days(year as int),
{
    if !is_leap_year(year) {
        60 * 60 * 24 * 365
    } else {
        60 * 60 * 24 * 366
    }
}

/// The number of days of a month, counted from 0 for January; 0 for a number
/// that is no month.
pub fn days_per_month(year: u16, month: u8) -> (r: u8)
    ensures
        r == month_length(is_leap(year as int), month + 1),
{
    match month {
        0 => 31,
        1 => {
            if !is_leap_year(year) {
                28
            } else {
                29
            }
        },
        2 => 31,
        3 => 30,
        4 => 31,
        5 => 30,
        6 => 31,
        7 => 31,
        8 => 30,
        9 => 31,
        10 => 30,
        11 => 31,
        _ => 0,
    }
}

/// Moves a day of the year into the 366-slot year.
pub fn normalize_leap_year(year: u16, day: u16) -> (r: u16)
    requires
        !is_leap(year as int) ==> day < u16::MAX,
    ensures
        r == normalize(year as int, day as int),
{
    if !is_leap_year(year) && day > FEB_28 {
        day + 1
    } else {
        day
    }
}

/// The days before each month, in a leap year and in a common year.
pub proof fn lemma_days_before_month(leap: bool)
    ensures
        days_before_month(leap, 1) == 0,
        days_before_month(leap, 2) == 31,
        days_before_month(leap, 3) == 59 + if leap { 1int } else { 0 },
        days_before_month(leap, 4) == 90 + if leap { 1int } else { 0 },
        days_before_month(leap, 5) == 120 + if leap { 1int } else { 0 },
        days_before_month(leap, 6) == 151 + if leap { 1int } else { 0 },
        days_before_month(leap, 7) == 181 + if leap { 1int } else { 0 },
        days_before_month(leap, 8) == 212 + if leap { 1int } else { 0 },
        days_before_month(leap, 9) == 243 + if leap { 1int } else { 0 },
        days_before_month(leap, 10) == 273 + if leap { 1int } else { 0 },
        days_before_month(leap, 11) == 304 + if leap { 1int } else { 0 },
        days_before_month(leap, 12) == 334 + if leap { 1int } else { 0 },
        days_before_month(leap, 13) == 365 + if leap { 1int } else { 0 },
{
    reveal_with_fuel(days_before_month, 14);
}

impl Date {
    /// Every date is well formed.
    #[verifier::type_invariant]
    pub closed spec fn inv(self) -> bool {
        self@.wf()
    }

    /// The date of a calendar day. A month outside 1 to 12 and a day outside
    /// the month are refused.
    pub fn from_ymd(year: u16, month: u8, day: u8) -> (r: Result<Self, DateError>)
        ensures
            match r {
                Ok(d) => valid_ymd(year as int, month as int, day as int) && d@ == (DateView {
                    year: year as int,
                    day: day_index(year as int, month as int, day as int),
                }) && d@.wf() && d@.month_day() == (month as int, day as int),
                Err(DateError::InvalidMonth) => !(1 <= month <= 12),
                Err(DateError::InvalidDay) => 1 <= month <= 12 && !(1 <= day <= month_length(
                    is_leap(year as int),
                    month as int,
                )),
            },
    {
        if month < 1 || month > 12 {
            return Err(DateError::InvalidMonth);
        }
        if day < 1 || day > days_per_month(year, month - 1) {
            return Err(DateError::InvalidDay);
        }
        let ghost leap = is_leap(year as int);
        let mut total: u16 = (day - 1) as u16;
        let mut inc_month: u8 = 0;
        proof {
            lemma_days_before_month(leap);
        }
        while inc_month < month - 1
            invariant
                1 <= month <= 12,
                inc_month <= month - 1,
                leap == is_leap(year as int),
                total == days_before_month(leap, inc_month + 1) + day - 1,
                1 <= day <= 31,
            decreases month - 1 - inc_month,
        {
            proof {
                lemma_days_before_month(leap);
            }
            total += days_per_month(year, inc_month) as u16;
            inc_month += 1;
        }
        let index = normalize_leap_year(year, total);
        proof {
            lemma_month_day_of_ymd(year as int, month as int, day as int);
        }
        Ok(Self { year, day: index })
    }

    /// The date at a number of seconds since the start of 1 January 1970. The
    /// years are counted off one by one; `None` if the year would be beyond
    /// 65535.
    pub fn from_unix_timestamp(secs: u64) -> (r: Option<Self>)
        ensures
            r is None <==> secs >= 86400 * days_since_epoch(65536),
            r is None <==> secs >= 2_005_949_145_600,
            r matches Some(d) ==> {
                let start = 86400 * days_since_epoch(d@.year);
                &&& d@.wf()
                &&& d@.year >= 1970
                &&& start <= secs < start + 86400 * year_days(d@.year)
                &&& d@.day == normalize(d@.year, (secs - start) / 86400)
            },
    {
        let mut t: u64 = secs;
        let mut year: u16 = UNIX_START_YEAR;
        loop
            invariant
                1970 <= year,
                secs == t + 86400 * days_since_epoch(year as int),
                days_since_epoch(year as int) >= 0,
            ensures
                t < 86400 * year_days(year as int),
            decreases 65535 - year,
        {
            let length = year_length(year);
            if t < length {
                break ;
            }
            if year == u16::MAX {
                proof {
                    lemma_end_of_timestamps();
                }
                return None;
            }
            t -= length;
            year += 1;
        }
        proof {
            lemma_days_before_year_monotonic(year as int + 1, 65536);
            lemma_end_of_timestamps();
        }
        let day = (t / SECONDS_PER_DAY) as u16;
        let day = normalize_leap_year(year, day);
        Some(Self { year, day })
    }

    /// Year, month and day of the month, the last two counted from 1.
    pub fn ymd(&self) -> (r: (u16, u8, u8))
        ensures
            r.0 == self@.year,
            (r.1 as int, r.2 as int) == self@.month_day(),
    {
        let (month, day) = self.month_day();
        (self.year, month, day)
    }

    /// Month and day of the month, both counted from 1.
    pub fn month_day(&self) -> (r: (u8, u8))
        ensures
            (r.0 as int, r.1 as int) == self@.month_day(),
            1 <= r.0 <= 12,
            1 <= r.1 <= month_length(true, r.0 as int),
            days_before_month(true, r.0 as int) + r.1 - 1 == self@.day,
    {
        proof {
            use_type_invariant(self);
            lemma_days_before_month(true);
        }
        let mut month: u8 = 0;
        let mut day: u16 = self.day;
        loop
            invariant
                month <= 11,
                day + days_before_month(true, month + 1) == self.day,
                self.day <= 365,
            ensures
                month <= 11,
                day + days_before_month(true, month + 1) == self.day,
                day < month_length(true, month + 1),
            decreases 12 - month,
        {
            proof {
                lemma_days_before_month(true);
            }
            let length = days_per_month(2020, month);
            if day < length as u16 {
                break ;
            }
            day -= length as u16;
            month += 1;
        }
        (month + 1, day as u8 + 1)
    }

    /// The slot in the 366-slot year, 0 to 365.
    pub fn day(&self) -> (r: u16)
        ensures
            r == self@.day,
            r <= 365,
            r == 59 ==> is_leap(self@.year),
            self@.wf(),
    {
        proof {
            use_type_invariant(self);
        }
        self.day
    }

    /// The year.
    pub fn year(&self) -> (r: u16)
        ensures
            r == self@.year,
    {
        self.year
    }

    /// Whether a next day exists: all dates but the last slot of year 65535
    /// have one.
    pub fn has_successor(&self) -> (r: bool)
        ensures
            r == !(self@.year == 65535 && self@.day == 365),
    {
        !(self.year == u16::MAX && self.day == DEC_31)
    }

    /// The next day, which is one real day later.
    pub fn successor(&self) -> (r: Self)
        requires
            !(self@.year == 65535 && self@.day == 365),
        ensures
            r@ == self@.successor(),
            r@.wf(),
            r@.ordinal() == self@.ordinal() + 1,
    {
        proof {
            use_type_invariant(self);
            lemma_successor_advances_one_day(self@);
        }
        let year = self.year;
        let day = self.day;
        if day == DEC_31 {
            Self { year: year + 1, day: 0 }
        } else if day == FEB_28 && !is_leap_year(year) {
            Self { year, day: day + 2 }
        } else {
            Self { year, day: day + 1 }
        }
    }
}

/// The days before a year grow with the year.
pub proof fn lemma_days_before_year_monotonic(a: int, b: int)
    requires
        0 <= a <= b,
    ensures
        days_before_year(a) <= days_before_year(b),
        days_before_year(b) - days_before_year(a) >= 365 * (b - a),
    decreases b - a,
{
    if a < b {
        lemma_days_before_year_monotonic(a, b - 1);
    }
}

/// The dates from `start` on, each the next day of the one before: `count`
/// of them, or fewer where the last slot of year 65535 is reached first.
pub open spec fn spec_future_days(start: DateView, count: nat) -> Seq<DateView>
    decreases count,
{
    if count == 0 {
        Seq::empty()
    } else if start.year == 65535 && start.day == 365 {
        seq![start]
    } else {
        seq![start] + spec_future_days(start.successor(), (count - 1) as nat)
    }
}

/// The days from `start` on in their order, `count` of them at most.
pub fn future_days(start: Date, count: usize) -> (r: Vec<Date>)
    ensures
        r@.map_values(|d: Date| d@) == spec_future_days(start@, count as nat),
{
    let mut days: Vec<Date> = Vec::new();
    let mut date = start;
    let mut left: usize = count;
    while left > 0
        invariant
            days@.map_values(|d: Date| d@) + spec_future_days(date@, left as nat)
                == spec_future_days(start@, count as nat),
        decreases left,
    {
        let ghost before = days@.map_values(|d: Date| d@);
        days.push(date);
        assert(days@.map_values(|d: Date| d@) =~= before + seq![date@]);
        if !date.has_successor() {
            assert(spec_future_days(date@, left as nat) == seq![date@]);
            return days;
        }
        let ghost rest = spec_future_days(date@.successor(), (left - 1) as nat);
        assert(before + (seq![date@] + rest) =~= (before + seq![date@]) + rest);
        date = date.successor();
        left -= 1;
    }
    assert(days@.map_values(|d: Date| d@) + Seq::<DateView>::empty() =~= days@.map_values(
        |d: Date| d@,
    ));
    days
}

/// A calendar day turned into a date shows the same month and day again.
pub proof fn lemma_month_day_of_ymd(year: int, month: int, day: int)
    requires
        valid_ymd(year, month, day),
    ensures
        (DateView { year, day: day_index(year, month, day) }).month_day() == (month, day),
{
    lemma_days_before_month(true);
    lemma_days_before_month(false);
}

/// The slot of a calendar day is one of 0 to 365, and it is 59 exactly for
/// 29 February, which only a leap year has.
pub proof fn lemma_day_index_range(year: int, month: int, day: int)
    requires
        valid_ymd(year, month, day),
    ensures
        0 <= day_index(year, month, day) <= 365,
        day_index(year, month, day) == 59 <==> is_leap(year) && month == 2 && day == 29,
        year >= 0 ==> (DateView { year, day: day_index(year, month, day) }).wf(),
{
    lemma_days_before_month(true);
    lemma_days_before_month(false);
}

/// In a leap year slot 59 is reached: it is the slot of 29 February.
pub proof fn lemma_leap_day_reachable(year: int)
    requires
        is_leap(year),
    ensures
        valid_ymd(year, 2, 29),
        day_index(year, 2, 29) == 59,
{
    lemma_days_before_month(true);
}

/// The next day of a well-formed date is well formed, so slot 59 is never
/// entered in a common year.
pub proof fn lemma_successor_wf(d: DateView)
    requires
        d.wf(),
    ensures
        d.successor().wf(),
{
}

/// The next day is exactly one real day later.
pub proof fn lemma_successor_advances_one_day(d: DateView)
    requires
        d.wf(),
    ensures
        d.successor().ordinal() == d.ordinal() + 1,
{
    reveal_with_fuel(days_before_year, 2);
}

/// `n` steps to the next day lead to a well-formed date `n` real days later.
pub proof fn lemma_successor_n_advances(d: DateView, n: nat)
    requires
        d.wf(),
    ensures
        d.successor_n(n).wf(),
        d.successor_n(n).ordinal() == d.ordinal() + n,
    decreases n,
{
    if n > 0 {
        lemma_successor_n_advances(d, (n - 1) as nat);
        lemma_successor_advances_one_day(d.successor_n((n - 1) as nat));
    }
}

/// Two well-formed dates on the same real day are the same date.
pub proof fn lemma_ordinal_injective(a: DateView, b: DateView)
    requires
        a.wf(),
        b.wf(),
        a.ordinal() == b.ordinal(),
    ensures
        a == b,
{
    if a.year < b.year {
        lemma_days_before_year_monotonic(a.year + 1, b.year);
    } else if b.year < a.year {
        lemma_days_before_year_monotonic(b.year + 1, a.year);
    }
}

/// As many steps to the next day as the year between has days lead to the
/// same slot of the next year, and so to the same month and day. The year
/// between has the days of this year for a date before 29 February, and those
/// of the next year for a date after it. 29 February itself is left out: the
/// next year has none.
pub proof fn lemma_one_year_later(d: DateView)
    requires
        d.wf(),
        d.day != 59,
    ensures
        ({
            let steps = if d.day < 59 {
                year_days(d.year)
            } else {
                year_days(d.year + 1)
            };
            let later = d.successor_n(steps as nat);
            &&& later == (DateView { year: d.year + 1, day: d.day })
            &&& later.month_day() == d.month_day()
        }),
{
    let steps = if d.day < 59 {
        year_days(d.year)
    } else {
        year_days(d.year + 1)
    };
    let target = DateView { year: d.year + 1, day: d.day };
    lemma_successor_n_advances(d, steps as nat);
    reveal_with_fuel(days_before_year, 2);
    lemma_ordinal_injective(d.successor_n(steps as nat), target);
}

/// A date in text: the year, the month and the day of the month with `-`
/// between them, month and day in two digits.
pub open spec fn spec_render_date(d: DateView) -> Seq<char> {
    spec_decimal(d.year as nat) + "-"@ + spec_pad2(d.month_day().0 as nat) + "-"@ + spec_pad2(
        d.month_day().1 as nat,
    )
}

impl Render for Date {
    open spec fn spec_render(&self) -> Seq<char> {
        spec_render_date(self@)
    }

    fn render(&self) -> (r: String) {
        let (year, month, day) = self.ymd();
        let mut r = decimal(year);
        r.append("-");
        r.append(pad2(month).as_str());
        r.append("-");
        r.append(pad2(day).as_str());
        r
    }
}

/// The number of leap years from year 0 up to `year`, itself left out.
pub open spec fn leap_years_before(year: int) -> int {
    (year + 3) / 4 - (year + 99) / 100 + (year + 399) / 400
}

/// A leap year adds one to the number of leap years before the next year,
/// and a common year adds none.
pub proof fn lemma_leap_years_step(year: int)
    requires
        0 <= year,
    ensures
        leap_years_before(year + 1) - leap_years_before(year) == if is_leap(year) {
            1int
        } else {
            0
        },
{
    let by4 = (year + 4) / 4 - (year + 3) / 4;
    let by100 = (year + 100) / 100 - (year + 99) / 100;
    let by400 = (year + 400) / 400 - (year + 399) / 400;
    assert(by4 == if year % 4 == 0 { 1int } else { 0 }) by (nonlinear_arith)
        requires
            0 <= year,
            by4 == (year + 4) / 4 - (year + 3) / 4,
    ;
    assert(by100 == if year % 100 == 0 { 1int } else { 0 }) by (nonlinear_arith)
        requires
            0 <= year,
            by100 == (year + 100) / 100 - (year + 99) / 100,
    ;
    assert(by400 == if year % 400 == 0 { 1int } else { 0 }) by (nonlinear_arith)
        requires
            0 <= year,
            by400 == (year + 400) / 400 - (year + 399) / 400,
    ;
    assert(year % 400 == 0 ==> year % 100 == 0) by (nonlinear_arith)
        requires
            0 <= year,
    ;
    assert(year % 100 == 0 ==> year % 4 == 0) by (nonlinear_arith)
        requires
            0 <= year,
    ;
    assert(leap_years_before(year + 1) - leap_years_before(year) == by4 - by100 + by400);
}

/// The days before a year are 365 for each year and one more for each leap
/// year.
pub proof fn lemma_days_before_year(year: int)
    requires
        0 <= year,
    ensures
        days_before_year(year) == 365 * year + leap_years_before(year),
    decreases year,
{
    if year > 0 {
        lemma_days_before_year(year - 1);
        lemma_leap_years_step(year - 1);
    } else {
        assert(leap_years_before(0) == 0);
    }
}

/// The first second that lies beyond the year 65535.
pub proof fn lemma_end_of_timestamps()
    ensures
        86400 * days_since_epoch(65536) == 2_005_949_145_600,
{
    lemma_days_before_year(65536);
    lemma_days_before_year(1970);
}

} // verus!
