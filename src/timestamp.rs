use vstd::prelude::*;
use chrono::{Datelike, Timelike};
use crate::error::ApiError;
use crate::text::{decimal_digits, lemma_decimal_digits_shape, is_decimal_char, push_decimal};

verus! {

pub open spec fn is_leap_year(y: int) -> bool {
    y % 4 == 0 && (y % 100 != 0 || y % 400 == 0)
}

pub open spec fn days_in_month(y: int, m: int) -> int {
    if m == 2 {
        if is_leap_year(y) { 29 } else { 28 }
    } else if m == 4 || m == 6 || m == 9 || m == 11 {
        30
    } else {
        31
    }
}

pub open spec fn days_in_year(y: int) -> int {
    if is_leap_year(y) { 366 } else { 365 }
}

/// Days from 0000-01-01 to the first day of year `y` (proleptic Gregorian).
pub open spec fn days_before_year(y: nat) -> int
    decreases y,
{
    if y == 0 {
        0
    } else {
        days_before_year((y - 1) as nat) + days_in_year(y - 1)
    }
}

/// Days from the first of January of year `y` to the first day of month `m`.
pub open spec fn days_before_month(y: int, m: int) -> int {
    let leap_day: int = if m > 2 && is_leap_year(y) { 1 } else { 0 };
    let before: int = if m <= 1 { 0 }
    else if m == 2 { 31 }
    else if m == 3 { 59 }
    else if m == 4 { 90 }
    else if m == 5 { 120 }
    else if m == 6 { 151 }
    else if m == 7 { 181 }
    else if m == 8 { 212 }
    else if m == 9 { 243 }
    else if m == 10 { 273 }
    else if m == 11 { 304 }
    else { 334 };
    leap_day + before
}

pub proof fn lemma_days_before_year_nonneg(y: nat)
    ensures
        days_before_year(y) >= 0,
    decreases y,
{
    if y > 0 {
        lemma_days_before_year_nonneg((y - 1) as nat);
    }
}

proof fn lemma_days_before_year_gap(a: nat, b: nat)
    requires
        a < b,
    ensures
        days_before_year(a) + days_in_year(a as int) <= days_before_year(b),
    decreases b,
{
    if a + 1 < b {
        lemma_days_before_year_gap(a, (b - 1) as nat);
    }
}

/// Within a year, the day of the year determines the month and the day.
proof fn lemma_day_of_year_unique(y: int, m1: int, d1: int, m2: int, d2: int)
    requires
        1 <= m1 <= 12,
        1 <= m2 <= 12,
        1 <= d1 <= days_in_month(y, m1),
        1 <= d2 <= days_in_month(y, m2),
        days_before_month(y, m1) + d1 == days_before_month(y, m2) + d2,
    ensures
        m1 == m2,
        d1 == d2,
{
}

/// A UTC point in time to the second, in the years 0 to 9999.
#[derive(Clone, Copy, Debug, PartialEq, Eq, Structural)]
pub struct Timestamp {
    pub year: u32,
    pub month: u32,
    pub day: u32,
    pub hour: u32,
    pub minute: u32,
    pub second: u32,
}

pub open spec fn valid_civil(year: int, month: int, day: int, hour: int, minute: int, second: int) -> bool {
    &&& 0 <= year <= 9999
    &&& 1 <= month <= 12
    &&& 1 <= day <= days_in_month(year, month)
    &&& 0 <= hour < 24
    &&& 0 <= minute < 60
    &&& 0 <= second < 60
}

impl Timestamp {
    pub open spec fn wf(&self) -> bool {
        valid_civil(
            self.year as int,
            self.month as int,
            self.day as int,
            self.hour as int,
            self.minute as int,
            self.second as int,
        )
    }

    /// Seconds elapsed since 0000-01-01 00:00:00.
    pub open spec fn instant(&self) -> int {
        let days = days_before_year(self.year as nat) + days_before_month(self.year as int, self.month as int)
            + self.day - 1;
        ((days * 24 + self.hour) * 60 + self.minute) * 60 + self.second
    }

    /// The fourteen-digit `YYYYMMDDHHMMSS` form.
    pub open spec fn text(&self) -> Seq<char> {
        decimal_digits(self.year as nat, 4) + decimal_digits(self.month as nat, 2)
            + decimal_digits(self.day as nat, 2) + decimal_digits(self.hour as nat, 2)
            + decimal_digits(self.minute as nat, 2) + decimal_digits(self.second as nat, 2)
    }

    pub fn new(year: u32, month: u32, day: u32, hour: u32, minute: u32, second: u32) -> (r: Option<Timestamp>)
        ensures
            r is Some <==> valid_civil(year as int, month as int, day as int, hour as int, minute as int, second as int),
            r matches Some(t) ==> t == (Timestamp { year, month, day, hour, minute, second }),
    {
        if year <= 9999 && 1 <= month && month <= 12 && 1 <= day && day <= month_length(year, month)
            && hour < 24 && minute < 60 && second < 60 {
            Some(Timestamp { year, month, day, hour, minute, second })
        } else {
            None
        }
    }

    pub fn to_text(&self) -> (r: String)
        ensures
            r@ == self.text(),
    {
        let mut s = String::new();
        push_decimal(&mut s, self.year, 4);
        push_decimal(&mut s, self.month, 2);
        push_decimal(&mut s, self.day, 2);
        push_decimal(&mut s, self.hour, 2);
        push_decimal(&mut s, self.minute, 2);
        push_decimal(&mut s, self.second, 2);
        assert(s@ =~= self.text());
        s
    }

    /// The second just before this one, unless this is the first second of year 0.
    pub fn previous_second(&self) -> (r: Option<Timestamp>)
        requires
            self.wf(),
        ensures
            r is Some <==> self.instant() > 0,
            r matches Some(t) ==> t.wf() && t.instant() == self.instant() - 1,
    {
        let Timestamp { year, month, day, hour, minute, second } = *self;
        proof {
            lemma_days_before_year_nonneg(year as nat);
        }
        if second > 0 {
            Some(Timestamp { second: second - 1, ..*self })
        } else if minute > 0 {
            Some(Timestamp { minute: minute - 1, second: 59, ..*self })
        } else if hour > 0 {
            Some(Timestamp { hour: hour - 1, minute: 59, second: 59, ..*self })
        } else if day > 1 {
            Some(Timestamp { day: day - 1, hour: 23, minute: 59, second: 59, ..*self })
        } else if month > 1 {
            let d = month_length(year, month - 1);
            Some(Timestamp { year, month: month - 1, day: d, hour: 23, minute: 59, second: 59 })
        } else if year > 0 {
            proof {
                lemma_days_before_year_nonneg((year - 1) as nat);
            }
            Some(Timestamp { year: year - 1, month: 12, day: 31, hour: 23, minute: 59, second: 59 })
        } else {
            None
        }
    }

    /// The point in time `n` seconds earlier, unless that falls before year 0.
    pub fn minus_seconds(&self, n: u32) -> (r: Option<Timestamp>)
        requires
            self.wf(),
        ensures
            r is Some <==> self.instant() >= n,
            r matches Some(t) ==> t.wf() && t.instant() == self.instant() - n,
    {
        let mut cur = *self;
        let mut i: u32 = 0;
        while i < n
            invariant
                i <= n,
                cur.wf(),
                cur.instant() == self.instant() - i,
            decreases n - i,
        {
            match cur.previous_second() {
                Some(t) => {
                    cur = t;
                },
                None => {
                    return None;
                },
            }
            i = i + 1;
        }
        proof {
            lemma_days_before_year_nonneg(cur.year as nat);
        }
        Some(cur)
    }
}

/// Two valid timestamps at the same instant are the same timestamp.
pub proof fn lemma_instant_injective(a: Timestamp, b: Timestamp)
    requires
        a.wf(),
        b.wf(),
        a.instant() == b.instant(),
    ensures
        a == b,
{
    let ya = a.year as nat;
    let yb = b.year as nat;
    let da = days_before_year(ya) + days_before_month(ya as int, a.month as int) + a.day - 1;
    let db = days_before_year(yb) + days_before_month(yb as int, b.month as int) + b.day - 1;
    let ra = (a.hour * 60 + a.minute) * 60 + a.second;
    let rb = (b.hour * 60 + b.minute) * 60 + b.second;
    assert(a.instant() == da * 86400 + ra);
    assert(b.instant() == db * 86400 + rb);
    assert(da == db && ra == rb) by (nonlinear_arith)
        requires
            da * 86400 + ra == db * 86400 + rb,
            0 <= ra < 86400,
            0 <= rb < 86400,
    {
    }
    assert(a.hour == b.hour && a.minute == b.minute && a.second == b.second);
    assert(0 <= days_before_month(ya as int, a.month as int) + a.day - 1 < days_in_year(ya as int));
    assert(0 <= days_before_month(yb as int, b.month as int) + b.day - 1 < days_in_year(yb as int));
    if ya < yb {
        lemma_days_before_year_gap(ya, yb);
    } else if yb < ya {
        lemma_days_before_year_gap(yb, ya);
    }
    assert(ya == yb);
    lemma_day_of_year_unique(ya as int, a.month as int, a.day as int, b.month as int, b.day as int);
}

proof fn lemma_previous_exists(t: Timestamp)
    requires
        t.wf(),
        t.instant() > 0,
    ensures
        exists|u: Timestamp| u.wf() && #[trigger] u.instant() == t.instant() - 1,
{
    let u = if t.second > 0 {
        Timestamp { second: (t.second - 1) as u32, ..t }
    } else if t.minute > 0 {
        Timestamp { minute: (t.minute - 1) as u32, second: 59, ..t }
    } else if t.hour > 0 {
        Timestamp { hour: (t.hour - 1) as u32, minute: 59, second: 59, ..t }
    } else if t.day > 1 {
        Timestamp { day: (t.day - 1) as u32, hour: 23, minute: 59, second: 59, ..t }
    } else if t.month > 1 {
        let m = (t.month - 1) as u32;
        Timestamp { month: m, day: days_in_month(t.year as int, m as int) as u32, hour: 23, minute: 59, second: 59, ..t }
    } else {
        assert(t.year > 0);
        Timestamp { year: (t.year - 1) as u32, month: 12, day: 31, hour: 23, minute: 59, second: 59 }
    };
    assert(u.wf() && u.instant() == t.instant() - 1);
}

/// For a valid timestamp at least `n` seconds after the start of year 0,
/// there is a valid timestamp exactly `n` seconds earlier.
pub proof fn earlier_timestamp_exists(t: Timestamp, n: nat)
    requires
        t.wf(),
        t.instant() >= n,
    ensures
        exists|u: Timestamp| u.wf() && #[trigger] u.instant() == t.instant() - n,
    decreases n,
{
    if n > 0 {
        earlier_timestamp_exists(t, (n - 1) as nat);
        let u = choose|u: Timestamp| u.wf() && #[trigger] u.instant() == t.instant() - (n - 1);
        lemma_previous_exists(u);
        let w = choose|w: Timestamp| w.wf() && #[trigger] w.instant() == u.instant() - 1;
        assert(w.instant() == t.instant() - n);
    } else {
        assert(t.instant() == t.instant() - n);
    }
}

pub fn month_length(year: u32, month: u32) -> (r: u32)
    ensures
        r == days_in_month(year as int, month as int),
{
    if month == 2 {
        if year % 4 == 0 && (year % 100 != 0 || year % 400 == 0) { 29 } else { 28 }
    } else if month == 4 || month == 6 || month == 9 || month == 11 {
        30
    } else {
        31
    }
}

/// The text of a valid timestamp is fourteen decimal digits.
pub proof fn lemma_timestamp_text_shape(t: Timestamp)
    ensures
        t.text().len() == 14,
        forall|i: int| 0 <= i < 14 ==> is_decimal_char(#[trigger] t.text()[i]),
{
    lemma_decimal_digits_shape(t.year as nat, 4);
    lemma_decimal_digits_shape(t.month as nat, 2);
    lemma_decimal_digits_shape(t.day as nat, 2);
    lemma_decimal_digits_shape(t.hour as nat, 2);
    lemma_decimal_digits_shape(t.minute as nat, 2);
    lemma_decimal_digits_shape(t.second as nat, 2);
    let s = t.text();
    assert forall|i: int| 0 <= i < 14 implies is_decimal_char(#[trigger] s[i]) by {
        if i < 4 {
            assert(s[i] == decimal_digits(t.year as nat, 4)[i]);
        } else if i < 6 {
            assert(s[i] == decimal_digits(t.month as nat, 2)[i - 4]);
        } else if i < 8 {
            assert(s[i] == decimal_digits(t.day as nat, 2)[i - 6]);
        } else if i < 10 {
            assert(s[i] == decimal_digits(t.hour as nat, 2)[i - 8]);
        } else if i < 12 {
            assert(s[i] == decimal_digits(t.minute as nat, 2)[i - 10]);
        } else {
            assert(s[i] == decimal_digits(t.second as nat, 2)[i - 12]);
        }
    }
}

#[verifier::external_type_specification]
#[verifier::external_body]
pub struct ExSystemTime(std::time::SystemTime);

/// Relies on std's SystemTime::now: a reading of the system clock.
#[verifier::external_body]
fn system_clock_now() -> (r: std::time::SystemTime) {
    std::time::SystemTime::now()
}

/// Relies on std's SystemTime::duration_since with UNIX_EPOCH: the whole
/// seconds from 1970-01-01 00:00:00 UTC to `t`, or `None` when `t` lies
/// before that.
#[verifier::external_body]
fn unix_seconds(t: std::time::SystemTime) -> (r: Option<u64>) {
    t.duration_since(std::time::UNIX_EPOCH).ok().map(|d| d.as_secs())
}

/// Relies on chrono's DateTime::from_timestamp and its Datelike / Timelike
/// getters: the UTC date and time `secs` seconds after 1970-01-01 00:00:00
/// as (year, month, day, hour, minute, second), each in the range that
/// chrono documents for its getter, or `None` outside chrono's range.
#[verifier::external_body]
fn utc_fields_at(secs: i64) -> (r: Option<(i32, u32, u32, u32, u32, u32)>)
    ensures
        r matches Some(f) ==> 1 <= f.1 <= 12 && 1 <= f.2 <= 31 && f.3 < 24 && f.4 < 60 && f.5 < 60,
{
    chrono::DateTime::from_timestamp(secs, 0).map(
        |t| (t.year(), t.month(), t.day(), t.hour(), t.minute(), t.second()),
    )
}

/// The timestamp with the given civil fields, or `ClockOutOfRange` when they
/// do not make a valid time in the years 0 to 9999.
pub fn timestamp_from_fields(year: i32, month: u32, day: u32, hour: u32, minute: u32, second: u32) -> (r: Result<
    Timestamp,
    ApiError,
>)
    ensures
        r is Ok <==> valid_civil(year as int, month as int, day as int, hour as int, minute as int, second as int),
        r matches Ok(t) ==> t.year == year && t.month == month && t.day == day && t.hour == hour
            && t.minute == minute && t.second == second,
        r matches Err(e) ==> e == ApiError::ClockOutOfRange,
{
    if year < 0 {
        return Err(ApiError::ClockOutOfRange);
    }
    match Timestamp::new(year as u32, month, day, hour, minute, second) {
        Some(t) => Ok(t),
        None => Err(ApiError::ClockOutOfRange),
    }
}

/// The current UTC time, or `ClockOutOfRange` when the clock reads a time
/// before 1970, beyond chrono's range, or outside the years 0 to 9999, which
/// the fourteen-digit form cannot hold.
pub fn current_timestamp() -> (r: Result<Timestamp, ApiError>)
    ensures
        r matches Ok(t) ==> t.wf(),
        r matches Err(e) ==> e == ApiError::ClockOutOfRange,
{
    let secs = match unix_seconds(system_clock_now()) {
        Some(s) => s,
        None => {
            return Err(ApiError::ClockOutOfRange);
        },
    };
    if secs > i64::MAX as u64 {
        return Err(ApiError::ClockOutOfRange);
    }
    match utc_fields_at(secs as i64) {
        Some((year, month, day, hour, minute, second)) => timestamp_from_fields(year, month, day, hour, minute, second),
        None => Err(ApiError::ClockOutOfRange),
    }
}

/// The current UTC time as `YYYYMMDDHHMMSS`.
pub fn get_formatted_time() -> (r: Result<String, ApiError>)
    ensures
        r matches Ok(s) ==> exists|t: Timestamp| t.wf() && s@ == t.text(),
        r matches Err(e) ==> e == ApiError::ClockOutOfRange,
{
    let t = current_timestamp()?;
    Ok(t.to_text())
}

} // verus!
