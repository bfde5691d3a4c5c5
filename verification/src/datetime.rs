use vstd::prelude::*;
use crate::decimal::zero_padded;
use chrono::{Datelike, TimeZone, Timelike};

verus! {

/// The smallest year a calendar date may have.
pub const MIN_YEAR: i32 = -262143;

/// The largest year a calendar date may have.
pub const MAX_YEAR: i32 = 262142;

/// A calendar date as numbers.
pub struct DateModel {
    pub year: int,
    pub month: int,
    pub day: int,
}

/// A date and a time of day as numbers.
pub struct DateTimeModel {
    pub date: DateModel,
    pub hour: int,
    pub minute: int,
    pub second: int,
    pub nanosecond: int,
}

/// Gregorian leap years, extended to every year.
pub open spec fn is_leap_year(year: int) -> bool {
    year % 4 == 0 && (year % 100 != 0 || year % 400 == 0)
}

/// The number of days of a month of a year.
pub open spec fn days_in_month(year: int, month: int) -> int {
    if month == 2 {
        if is_leap_year(year) { 29 } else { 28 }
    } else if month == 4 || month == 6 || month == 9 || month == 11 {
        30
    } else {
        31
    }
}

/// A date that exists and whose year lies in the supported range.
pub open spec fn valid_date(d: DateModel) -> bool {
    &&& MIN_YEAR <= d.year <= MAX_YEAR
    &&& 1 <= d.month <= 12
    &&& 1 <= d.day <= days_in_month(d.year, d.month)
}

/// A time of day; a nanosecond count of a second or more stands for a leap
/// second and is only allowed in the last second of a minute.
pub open spec fn valid_time(hour: int, minute: int, second: int, nanosecond: int) -> bool {
    &&& 0 <= hour < 24
    &&& 0 <= minute < 60
    &&& 0 <= second < 60
    &&& 0 <= nanosecond
    &&& (nanosecond < 1_000_000_000 || (second == 59 && nanosecond < 2_000_000_000))
}

pub open spec fn valid_date_time(t: DateTimeModel) -> bool {
    valid_date(t.date) && valid_time(t.hour, t.minute, t.second, t.nanosecond)
}

pub open spec fn date_model(year: i32, month: u32, day: u32) -> DateModel {
    DateModel { year: year as int, month: month as int, day: day as int }
}

pub open spec fn date_time_model(parts: (i32, u32, u32, u32, u32, u32, u32)) -> DateTimeModel {
    DateTimeModel {
        date: date_model(parts.0, parts.1, parts.2),
        hour: parts.3 as int,
        minute: parts.4 as int,
        second: parts.5 as int,
        nanosecond: parts.6 as int,
    }
}

/// A calendar date (year, month, day) that exists.
#[derive(Clone, Copy, Debug, PartialEq, Eq, Structural)]
pub struct CalendarDate {
    year: i32,
    month: u32,
    day: u32,
}

impl View for CalendarDate {
    type V = DateModel;

    closed spec fn view(&self) -> DateModel {
        date_model(self.year, self.month, self.day)
    }
}

fn is_leap(year: i32) -> (leap: bool)
    requires
        MIN_YEAR <= year <= MAX_YEAR,
    ensures
        leap == is_leap_year(year as int),
{
    // A multiple of 400 moves the year to the non-negative numbers without
    // changing its remainders by 4, 100 and 400.
    let shifted: u32 = (year + 262400) as u32;
    assert(shifted as int == year as int + 656 * 400);
    assert((year as int + 656 * 400) % 4 == (year as int) % 4);
    assert((year as int + 656 * 400) % 100 == (year as int) % 100);
    assert((year as int + 656 * 400) % 400 == (year as int) % 400);
    shifted % 4 == 0 && (shifted % 100 != 0 || shifted % 400 == 0)
}

fn month_length(year: i32, month: u32) -> (days: u32)
    requires
        MIN_YEAR <= year <= MAX_YEAR,
    ensures
        days == days_in_month(year as int, month as int),
{
    if month == 2 {
        if is_leap(year) { 29 } else { 28 }
    } else if month == 4 || month == 6 || month == 9 || month == 11 {
        30
    } else {
        31
    }
}

impl CalendarDate {
    #[verifier::type_invariant]
    spec fn exists_in_calendar(self) -> bool {
        valid_date(self@)
    }

    /// The date with these numbers, or `None` when there is no such date.
    pub fn new(year: i32, month: u32, day: u32) -> (date: Option<CalendarDate>)
        ensures
            date is Some <==> valid_date(date_model(year, month, day)),
            date matches Some(d) ==> d@ == date_model(year, month, day),
    {
        if year < MIN_YEAR || year > MAX_YEAR || month < 1 || month > 12 || day < 1 {
            None
        } else if day > month_length(year, month) {
            None
        } else {
            Some(CalendarDate { year, month, day })
        }
    }

    pub fn year(&self) -> (year: i32)
        ensures
            year as int == self@.year,
            valid_date(self@),
    {
        proof { use_type_invariant(self); }
        self.year
    }

    pub fn month(&self) -> (month: u32)
        ensures
            month as int == self@.month,
            valid_date(self@),
    {
        proof { use_type_invariant(self); }
        self.month
    }

    pub fn day(&self) -> (day: u32)
        ensures
            day as int == self@.day,
            valid_date(self@),
    {
        proof { use_type_invariant(self); }
        self.day
    }

    /// The date as text, year-month-day, as chrono writes a `NaiveDate`.
    pub fn to_string(&self) -> (text: String)
        ensures
            text@ == naive_date_display(self@),
    {
        proof { use_type_invariant(self); }
        match naive_date_text(self.year, self.month, self.day) {
            Some(text) => text,
            None => {
                assert(false);
                String::new()
            },
        }
    }

    /// Whether two dates are the same day.
    pub fn same_day(&self, other: &CalendarDate) -> (same: bool)
        ensures
            same == (self@ == other@),
    {
        self.year == other.year && self.month == other.month && self.day == other.day
    }
}

/// A date and a time of day, as a `NaiveDateTime` holds them.
#[derive(Clone, Copy, Debug, PartialEq, Eq, Structural)]
pub struct DateTimeValue {
    date: CalendarDate,
    hour: u32,
    minute: u32,
    second: u32,
    nanosecond: u32,
}

impl View for DateTimeValue {
    type V = DateTimeModel;

    closed spec fn view(&self) -> DateTimeModel {
        DateTimeModel {
            date: self.date@,
            hour: self.hour as int,
            minute: self.minute as int,
            second: self.second as int,
            nanosecond: self.nanosecond as int,
        }
    }
}

impl DateTimeValue {
    #[verifier::type_invariant]
    spec fn is_time_of_day(self) -> bool {
        valid_time(self.hour as int, self.minute as int, self.second as int, self.nanosecond as int)
    }

    /// The date and time with these numbers, or `None` when they name no
    /// moment.
    pub fn new(year: i32, month: u32, day: u32, hour: u32, minute: u32, second: u32, nanosecond: u32)
        -> (value: Option<DateTimeValue>)
        ensures
            value is Some <==> valid_date_time(
                date_time_model((year, month, day, hour, minute, second, nanosecond)),
            ),
            value matches Some(v) ==> v@ == date_time_model(
                (year, month, day, hour, minute, second, nanosecond),
            ),
    {
        let date = match CalendarDate::new(year, month, day) {
            Some(date) => date,
            None => return None,
        };
        if hour >= 24 || minute >= 60 || second >= 60 {
            None
        } else if nanosecond >= 1_000_000_000 && second != 59 {
            None
        } else if nanosecond >= 2_000_000_000 {
            None
        } else {
            Some(DateTimeValue { date, hour, minute, second, nanosecond })
        }
    }

    /// The value for a tuple of (year, month, day, hour, minute, second,
    /// nanosecond).
    pub fn from_parts(parts: (i32, u32, u32, u32, u32, u32, u32)) -> (value: Option<DateTimeValue>)
        ensures
            value is Some <==> valid_date_time(date_time_model(parts)),
            value matches Some(v) ==> v@ == date_time_model(parts),
    {
        DateTimeValue::new(parts.0, parts.1, parts.2, parts.3, parts.4, parts.5, parts.6)
    }

    /// The calendar date of this moment.
    pub fn date(&self) -> (date: CalendarDate)
        ensures
            date@ == self@.date,
            valid_date_time(self@),
    {
        proof {
            use_type_invariant(self);
            use_type_invariant(&self.date);
        }
        self.date
    }

    pub fn hour(&self) -> (hour: u32)
        ensures
            hour as int == self@.hour,
    {
        self.hour
    }

    pub fn minute(&self) -> (minute: u32)
        ensures
            minute as int == self@.minute,
    {
        self.minute
    }

    pub fn second(&self) -> (second: u32)
        ensures
            second as int == self@.second,
    {
        self.second
    }

    pub fn nanosecond(&self) -> (nanosecond: u32)
        ensures
            nanosecond as int == self@.nanosecond,
    {
        self.nanosecond
    }

    /// The moment as text, as chrono writes a `NaiveDateTime`.
    pub fn to_string(&self) -> (text: String)
        ensures
            text@ == naive_date_time_display(self@),
    {
        proof {
            use_type_invariant(self);
            use_type_invariant(&self.date);
        }
        match naive_date_time_text(
            self.date.year,
            self.date.month,
            self.date.day,
            self.hour,
            self.minute,
            self.second,
            self.nanosecond,
        ) {
            Some(text) => text,
            None => {
                assert(false);
                String::new()
            },
        }
    }
}

/// How chrono writes a `NaiveDate`: the year in four digits (with a sign
/// and at least four digits outside 0 to 9999), then "-MM-DD".
pub open spec fn naive_date_display(date: DateModel) -> Seq<char> {
    let year = if 0 <= date.year <= 9999 {
        zero_padded(date.year as nat, 4)
    } else if date.year < 0 {
        seq!['-'] + zero_padded((-date.year) as nat, 4)
    } else {
        seq!['+'] + zero_padded(date.year as nat, 4)
    };
    year + seq!['-'] + zero_padded(date.month as nat, 2) + seq!['-'] + zero_padded(date.day as nat, 2)
}

/// How chrono writes the fraction of a second: nothing for none, else a dot
/// and 3, 6 or 9 digits, the fewest that hold it.
pub open spec fn fraction_display(nanosecond: nat) -> Seq<char> {
    if nanosecond == 0 {
        Seq::empty()
    } else if nanosecond % 1_000_000 == 0 {
        seq!['.'] + zero_padded(nanosecond / 1_000_000, 3)
    } else if nanosecond % 1_000 == 0 {
        seq!['.'] + zero_padded(nanosecond / 1_000, 6)
    } else {
        seq!['.'] + zero_padded(nanosecond, 9)
    }
}

/// How chrono writes a `NaiveDateTime`: the date, a space, "HH:MM:SS" and
/// the fraction; a leap second (a nanosecond count of a second or more) is
/// written as second 60.
pub open spec fn naive_date_time_display(moment: DateTimeModel) -> Seq<char> {
    let leap = moment.nanosecond >= 1_000_000_000;
    let second = if leap { moment.second + 1 } else { moment.second };
    let nanosecond = if leap { moment.nanosecond - 1_000_000_000 } else { moment.nanosecond };
    naive_date_display(moment.date) + seq![' '] + zero_padded(moment.hour as nat, 2) + seq![':']
        + zero_padded(moment.minute as nat, 2) + seq![':'] + zero_padded(second as nat, 2)
        + fraction_display(nanosecond as nat)
}

/// What `Utc.timestamp_millis_opt(millis).single()` gives, read as a
/// `NaiveDateTime` by `naive_local`; `None` where chrono has no such moment.
/// `is_unix_moment` and `unix_days_in_range` state what it is.
pub uninterp spec fn utc_moment_of_millis(millis: int) -> Option<DateTimeModel>;

/// The number of days from 0001-01-01 to the first day of a year, in the
/// proleptic Gregorian calendar (negative before year 1).
pub open spec fn days_before_year(year: int) -> int {
    365 * (year - 1) + (year - 1) / 4 - (year - 1) / 100 + (year - 1) / 400
}

/// The number of days of a year before the first day of a month.
pub open spec fn days_before_month(year: int, month: int) -> int {
    let common: int = if month == 1 { 0 }
        else if month == 2 { 31 }
        else if month == 3 { 59 }
        else if month == 4 { 90 }
        else if month == 5 { 120 }
        else if month == 6 { 151 }
        else if month == 7 { 181 }
        else if month == 8 { 212 }
        else if month == 9 { 243 }
        else if month == 10 { 273 }
        else if month == 11 { 304 }
        else { 334 };
    if month > 2 && is_leap_year(year) { common + 1 } else { common }
}

/// The number of days from 1970-01-01 to a date (negative before it).
pub open spec fn days_since_epoch(date: DateModel) -> int {
    days_before_year(date.year) + days_before_month(date.year, date.month) + date.day - 1
        - 719_162
}

/// The number of whole days of a count of milliseconds since the Unix epoch
/// (rounded down).
pub open spec fn unix_days(millis: int) -> int {
    millis / 86_400_000
}

/// Whether a moment is the one a count of milliseconds since 1970-01-01
/// 00:00:00 UTC names: a valid moment on the day `unix_days(millis)`, at the
/// time of day that the rest of the count gives.
pub open spec fn is_unix_moment(millis: int, moment: DateTimeModel) -> bool {
    let rest = millis % 86_400_000;
    &&& valid_date_time(moment)
    &&& days_since_epoch(moment.date) == unix_days(millis)
    &&& moment.hour == rest / 3_600_000
    &&& moment.minute == (rest / 60_000) % 60
    &&& moment.second == (rest / 1_000) % 60
    &&& moment.nanosecond == (rest % 1_000) * 1_000_000
}

/// Whether a count of milliseconds falls on a day between the first and the
/// last date chrono can hold.
pub open spec fn unix_days_in_range(millis: int) -> bool {
    days_since_epoch(DateModel { year: MIN_YEAR as int, month: 1, day: 1 }) <= unix_days(millis)
        <= days_since_epoch(DateModel { year: MAX_YEAR as int, month: 12, day: 31 })
}

/// What chrono's `FromStr` of `NaiveDate` gives for a text: the date, or
/// the text of its `ParseError`.
pub uninterp spec fn naive_date_parse(text: Seq<char>) -> Result<DateModel, Seq<char>>;

proof fn lemma_floor_step(y: int, k: int)
    requires
        k > 0,
    ensures
        y / k - (y - 1) / k == (if y % k == 0 { 1int } else { 0int }),
{
    let q = y / k;
    let r = y % k;
    assert(y == k * q + r && 0 <= r < k) by (nonlinear_arith)
        requires k > 0, q == y / k, r == y % k;
    if r == 0 {
        assert((y - 1) / k == q - 1) by (nonlinear_arith)
            requires k > 0, y == k * q + r, r == 0;
    } else {
        assert((y - 1) / k == q) by (nonlinear_arith)
            requires k > 0, y == k * q + r, 0 < r < k;
    }
}

/// A year has 365 days, 366 when it is a leap year: the days from its first
/// day to the first day of the next year.
pub proof fn lemma_year_length(year: int)
    ensures
        days_before_year(year + 1) == days_before_year(year) + 365
            + (if is_leap_year(year) { 1int } else { 0int }),
{
    lemma_floor_step(year, 4);
    lemma_floor_step(year, 100);
    lemma_floor_step(year, 400);
    assert(year % 4 == 0 <== year % 100 == 0) by (nonlinear_arith);
    assert(year % 100 == 0 <== year % 400 == 0) by (nonlinear_arith);
}

proof fn lemma_years_apart(y1: int, y2: int)
    requires
        y1 < y2,
    ensures
        days_before_year(y1) + 365 + (if is_leap_year(y1) { 1int } else { 0int }) <= days_before_year(y2),
    decreases y2 - y1,
{
    lemma_year_length(y1);
    if y1 + 1 < y2 {
        lemma_years_apart(y1 + 1, y2);
        lemma_year_length(y1 + 1);
    }
}

proof fn lemma_day_of_year_bounds(date: DateModel)
    requires
        valid_date(date),
    ensures
        0 <= days_before_month(date.year, date.month) + date.day - 1
            < 365 + (if is_leap_year(date.year) { 1int } else { 0int }),
{
}

/// The length of each month is the gap between the first days of it and of
/// the next month in the day-of-year table, December has 31 days, and the
/// months of a year add up to 365 days, 366 in a leap year.
pub proof fn law_month_lengths_match_day_table(year: int)
    ensures
        forall|month: int| 1 <= month <= 11 ==> #[trigger] days_in_month(year, month)
            == days_before_month(year, month + 1) - days_before_month(year, month),
        days_in_month(year, 12) == 31,
        days_before_month(year, 12) + days_in_month(year, 12)
            == 365 + (if is_leap_year(year) { 1int } else { 0int }),
        days_before_month(year, 1) == 0,
{
}

/// Every day from the first day of a month to its last is a valid date, and
/// the first day of the next month (or year) is the day after the last.
pub proof fn law_month_ends_where_next_begins(date: DateModel)
    requires
        valid_date(date),
        date.day == days_in_month(date.year, date.month),
    ensures
        days_since_epoch(date) + 1 == if date.month < 12 {
            days_since_epoch(DateModel { year: date.year, month: date.month + 1, day: 1 })
        } else {
            days_since_epoch(DateModel { year: date.year + 1, month: 1, day: 1 })
        },
{
    lemma_year_length(date.year);
}

/// Two valid dates with the same number of days since the Unix epoch are the
/// same date: a day count names at most one date.
pub proof fn lemma_days_since_epoch_injective(d1: DateModel, d2: DateModel)
    requires
        valid_date(d1),
        valid_date(d2),
        days_since_epoch(d1) == days_since_epoch(d2),
    ensures
        d1 == d2,
{
    lemma_day_of_year_bounds(d1);
    lemma_day_of_year_bounds(d2);
    if d1.year < d2.year {
        lemma_years_apart(d1.year, d2.year);
    } else if d2.year < d1.year {
        lemma_years_apart(d2.year, d1.year);
    }
    assert(d1.year == d2.year);
}

/// A count of milliseconds since the Unix epoch names at most one moment.
pub proof fn lemma_unix_moment_unique(millis: int, m1: DateTimeModel, m2: DateTimeModel)
    requires
        is_unix_moment(millis, m1),
        is_unix_moment(millis, m2),
    ensures
        m1 == m2,
{
    lemma_days_since_epoch_injective(m1.date, m2.date);
}

/// Calls `chrono::NaiveDate::from_ymd_opt` and writes the date with
/// `to_string`. Claimed: the text is `naive_date_display` of the numbers
/// (chrono's `Debug` of `NaiveDate`, which its `Display` calls),
/// and chrono accepts every date that `valid_date` accepts (its year range,
/// months 1 to 12, Gregorian month lengths).
#[verifier::external_body]
fn naive_date_text(year: i32, month: u32, day: u32) -> (text: Option<String>)
    ensures
        text matches Some(t) ==> t@ == naive_date_display(date_model(year, month, day)),
        valid_date(date_model(year, month, day)) ==> text is Some,
{
    chrono::NaiveDate::from_ymd_opt(year, month, day).map(|date| date.to_string())
}

/// Calls `chrono::NaiveDate::from_ymd_opt` and `and_hms_nano_opt`, and
/// writes the moment with `to_string`. Claimed: the text is
/// `naive_date_time_display` of the numbers (the date, a space, and chrono's
/// `Debug` of `NaiveTime`, which its `Display` calls), and chrono accepts
/// every moment that `valid_date_time` accepts (`from_hms_nano_opt` refuses
/// exactly the hours, minutes, seconds and nanoseconds that `valid_time`
/// refuses).
#[verifier::external_body]
fn naive_date_time_text(year: i32, month: u32, day: u32, hour: u32, minute: u32, second: u32, nanosecond: u32)
    -> (text: Option<String>)
    ensures
        text matches Some(t) ==> t@ == naive_date_time_display(
            date_time_model((year, month, day, hour, minute, second, nanosecond)),
        ),
        valid_date_time(date_time_model((year, month, day, hour, minute, second, nanosecond)))
            ==> text is Some,
{
    chrono::NaiveDate::from_ymd_opt(year, month, day)
        .and_then(|date| date.and_hms_nano_opt(hour, minute, second, nanosecond))
        .map(|moment| moment.to_string())
}

/// Calls `Utc.timestamp_millis_opt(millis).single()` and reads the result
/// with `naive_local` and the `Datelike` and `Timelike` accessors. Claimed:
/// the result is `utc_moment_of_millis(millis)`; there is a moment exactly
/// when its day lies in chrono's date range (`DateTime::from_timestamp`
/// checks the day with `NaiveDate::from_num_days_from_ce_opt`); and the
/// moment is valid and is the one the count names (Unix time counts no leap
/// seconds, so the nanoseconds stay below a second).
#[verifier::external_body]
pub(crate) fn utc_millis_to_parts(millis: i64) -> (parts: Option<(i32, u32, u32, u32, u32, u32, u32)>)
    ensures
        match parts {
            Some(p) => utc_moment_of_millis(millis as int) == Some(date_time_model(p)),
            None => utc_moment_of_millis(millis as int) is None,
        },
        parts is Some <==> unix_days_in_range(millis as int),
        parts matches Some(p) ==> is_unix_moment(millis as int, date_time_model(p)),
{
    chrono::Utc.timestamp_millis_opt(millis).single().map(|moment| {
        let t = moment.naive_local();
        (t.year(), t.month(), t.day(), t.hour(), t.minute(), t.second(), t.nanosecond())
    })
}

/// Calls `str::parse::<chrono::NaiveDate>` and reads the date with the
/// `Datelike` accessors, or writes the `ParseError` with `to_string`.
/// Claimed: the result is `naive_date_parse(text@)`, and a parsed date is a
/// date that exists in chrono's range (every `NaiveDate` is one).
#[verifier::external_body]
pub(crate) fn parse_naive_date(text: &str) -> (parsed: Result<(i32, u32, u32), String>)
    ensures
        match parsed {
            Ok(p) => naive_date_parse(text@) == Ok::<DateModel, Seq<char>>(date_model(p.0, p.1, p.2))
                && valid_date(date_model(p.0, p.1, p.2)),
            Err(e) => naive_date_parse(text@) == Err::<DateModel, Seq<char>>(e@),
        },
{
    text.parse::<chrono::NaiveDate>()
        .map(|date| (date.year(), date.month(), date.day()))
        .map_err(|error| error.to_string())
}

} // verus!
