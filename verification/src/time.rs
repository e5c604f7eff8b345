//! The temporal normalizer.
//!
//! Both upstreams stamp their snapshots with naive local date-times —
//! `MM/DD/YYYY hh:mm AM|PM` for the outage source, the same with
//! seconds for the generation source — to be interpreted in the fixed
//! America/Puerto_Rico timezone. Parsing and the proleptic Gregorian
//! calendar arithmetic are verified here; only the timezone table lookup
//! (the offset of a wall-clock time, historically seasonal) relies on
//! the calendar crate. A wall-clock time that the zone maps ambiguously
//! or not at all is rejected rather than guessed.

use crate::errors::TimeError;
use crate::sandbox::push_char;
use vstd::prelude::*;
use vstd::string::StrSliceExecFns;

verus! {

/// A wall-clock date and time, hour on the 24-hour clock.
#[derive(Clone, Copy, Debug, PartialEq, Eq, Structural)]
pub struct LocalParts {
    pub year: i64,
    pub month: i64,
    pub day: i64,
    pub hour: i64,
    pub minute: i64,
    pub second: i64,
}

/// A proleptic Gregorian leap year.
pub open spec fn is_leap_year(y: int) -> bool {
    y % 4 == 0 && (y % 100 != 0 || y % 400 == 0)
}

/// Days in year `y`.
pub open spec fn year_len(y: int) -> int {
    if is_leap_year(y) {
        366
    } else {
        365
    }
}

/// Days in month `m` of year `y`.
pub open spec fn month_len(y: int, m: int) -> int {
    if m == 2 {
        if is_leap_year(y) {
            29
        } else {
            28
        }
    } else if m == 4 || m == 6 || m == 9 || m == 11 {
        30
    } else {
        31
    }
}

/// Days from the civil epoch 0000-01-01 to the start of year `y`.
pub open spec fn days_before_year(y: int) -> int
    decreases y,
{
    if y <= 0 {
        0
    } else {
        days_before_year(y - 1) + year_len(y - 1)
    }
}

/// Days from the start of year `y` to the start of its month `m`.
pub open spec fn days_before_month(y: int, m: int) -> int
    decreases m,
{
    if m <= 1 {
        0
    } else {
        days_before_month(y, m - 1) + month_len(y, m - 1)
    }
}

/// Days from the civil epoch 0000-01-01 to 1970-01-01.
pub const UNIX_EPOCH_CIVIL_DAYS: i64 = 719528;

/// The parts name a real date-time of years 0 through 9999.
pub open spec fn valid_parts(p: LocalParts) -> bool {
    &&& 0 <= p.year <= 9999
    &&& 1 <= p.month <= 12
    &&& 1 <= p.day <= month_len(p.year as int, p.month as int)
    &&& 0 <= p.hour <= 23
    &&& 0 <= p.minute <= 59
    &&& 0 <= p.second <= 59
}

/// The day number of a date, counted from the civil epoch.
pub open spec fn civil_days(p: LocalParts) -> int {
    days_before_year(p.year as int) + days_before_month(p.year as int, p.month as int) + (p.day
        - 1)
}

/// Wall-clock seconds of a local date-time, counted from the local
/// clock's 1970-01-01 00:00:00.
pub open spec fn wall_seconds(p: LocalParts) -> int {
    (civil_days(p) - UNIX_EPOCH_CIVIL_DAYS) * 86400 + p.hour * 3600 + p.minute * 60 + p.second
}

/// Computes the days before year `y`, bounded for overflow reasoning.
#[verifier::loop_isolation(false)]
fn days_before_year_exec(y: i64) -> (r: i64)
    requires
        0 <= y <= 9999,
    ensures
        r == days_before_year(y as int),
        0 <= r <= 366 * y,
{
    let mut acc: i64 = 0;
    let mut i: i64 = 0;
    while i < y
        invariant
            0 <= i <= y,
            acc == days_before_year(i as int),
            0 <= acc <= 366 * i,
        decreases y - i,
    {
        let len: i64 = if (i % 4 == 0) && (i % 100 != 0 || i % 400 == 0) {
            366
        } else {
            365
        };
        proof {
            assert(len == year_len(i as int));
        }
        acc = acc + len;
        i = i + 1;
    }
    acc
}

/// Days in month `m` of year `y`.
fn month_len_exec(y: i64, m: i64) -> (r: i64)
    requires
        0 <= y <= 9999,
        1 <= m <= 12,
    ensures
        r == month_len(y as int, m as int),
        28 <= r <= 31,
{
    if m == 2 {
        if (y % 4 == 0) && (y % 100 != 0 || y % 400 == 0) {
            29
        } else {
            28
        }
    } else if m == 4 || m == 6 || m == 9 || m == 11 {
        30
    } else {
        31
    }
}

/// Computes the days before month `m` of year `y`.
#[verifier::loop_isolation(false)]
fn days_before_month_exec(y: i64, m: i64) -> (r: i64)
    requires
        0 <= y <= 9999,
        1 <= m <= 12,
    ensures
        r == days_before_month(y as int, m as int),
        0 <= r <= 366,
{
    let mut acc: i64 = 0;
    let mut k: i64 = 1;
    while k < m
        invariant
            1 <= k <= m,
            acc == days_before_month(y as int, k as int),
            0 <= acc <= 31 * (k - 1),
        decreases m - k,
    {
        acc = acc + month_len_exec(y, k);
        k = k + 1;
    }
    acc
}

/// Computes the wall-clock seconds of a valid local date-time.
pub fn wall_seconds_exec(p: &LocalParts) -> (r: i64)
    requires
        valid_parts(*p),
    ensures
        r == wall_seconds(*p),
        -62_167_219_200 <= r <= 254_100_000_000,
{
    let db_y = days_before_year_exec(p.year);
    let db_m = days_before_month_exec(p.year, p.month);
    let days: i64 = db_y + db_m + (p.day - 1) - UNIX_EPOCH_CIVIL_DAYS;
    days * 86400 + p.hour * 3600 + p.minute * 60 + p.second
}

/// The numeric value of a decimal digit character.
pub open spec fn digit_val(c: char) -> int {
    c as int - 48
}

/// A decimal digit character.
pub open spec fn is_digit(c: char) -> bool {
    48 <= c as int <= 57
}

/// The two-digit number spelled at position `i`.
pub open spec fn num2(s: Seq<char>, i: int) -> int {
    digit_val(s[i]) * 10 + digit_val(s[i + 1])
}

/// The four-digit number spelled at position `i`.
pub open spec fn num4(s: Seq<char>, i: int) -> int {
    num2(s, i) * 100 + num2(s, i + 2)
}

/// The exact length of a timestamp in the declared format.
pub open spec fn timestamp_len(with_seconds: bool) -> int {
    if with_seconds {
        22
    } else {
        19
    }
}

/// The text matches the declared format — zero-padded month, day and
/// two-digit clock fields, a four-digit year, a 1–12 hour with an AM/PM
/// marker — and names a real calendar date.
pub open spec fn parse_wf(s: Seq<char>, with_seconds: bool) -> bool {
    let mi = if with_seconds {
        20int
    } else {
        17int
    };
    &&& s.len() == timestamp_len(with_seconds)
    &&& is_digit(s[0]) && is_digit(s[1]) && s[2] == '/'
    &&& is_digit(s[3]) && is_digit(s[4]) && s[5] == '/'
    &&& is_digit(s[6]) && is_digit(s[7]) && is_digit(s[8]) && is_digit(s[9])
    &&& s[10] == ' '
    &&& is_digit(s[11]) && is_digit(s[12]) && s[13] == ':'
    &&& is_digit(s[14]) && is_digit(s[15])
    &&& (if with_seconds {
        s[16] == ':' && is_digit(s[17]) && is_digit(s[18]) && s[19] == ' '
    } else {
        s[16] == ' '
    })
    &&& (s[mi] == 'A' || s[mi] == 'P') && s[mi + 1] == 'M'
    &&& 1 <= num2(s, 0) <= 12
    &&& 1 <= num2(s, 3) <= month_len(num4(s, 6), num2(s, 0))
    &&& 1 <= num2(s, 11) <= 12
    &&& num2(s, 14) <= 59
    &&& (with_seconds ==> num2(s, 17) <= 59)
}

/// The parts a well-formed timestamp spells, with the 12-hour clock and
/// its AM/PM marker folded into a 24-hour value.
pub open spec fn parsed_parts(s: Seq<char>, with_seconds: bool) -> LocalParts {
    let mi = if with_seconds {
        20int
    } else {
        17int
    };
    let hh = num2(s, 11) % 12;
    LocalParts {
        year: num4(s, 6) as i64,
        month: num2(s, 0) as i64,
        day: num2(s, 3) as i64,
        hour: (if s[mi] == 'P' {
            hh + 12
        } else {
            hh
        }) as i64,
        minute: num2(s, 14) as i64,
        second: (if with_seconds {
            num2(s, 17)
        } else {
            0int
        }) as i64,
    }
}

/// What a timestamp resolves through: its parts, if the text matches
/// the format and names a real date.
pub open spec fn parse_spec(s: Seq<char>, with_seconds: bool) -> Option<LocalParts> {
    if parse_wf(s, with_seconds) {
        Some(parsed_parts(s, with_seconds))
    } else {
        None
    }
}

/// Reads one decimal digit.
fn read_digit(s: &str, i: usize) -> (r: Result<i64, TimeError>)
    requires
        i < s@.len(),
    ensures
        match r {
            Ok(d) => is_digit(s@[i as int]) && d == digit_val(s@[i as int]),
            Err(e) => !is_digit(s@[i as int]) && e == TimeError::Format,
        },
{
    let c = s.get_char(i);
    let v = c as u32;
    if 48 <= v && v <= 57 {
        Ok((v - 48) as i64)
    } else {
        Err(TimeError::Format)
    }
}

/// Requires one exact punctuation character.
fn expect_char(s: &str, i: usize, c: char) -> (r: Result<(), TimeError>)
    requires
        i < s@.len(),
    ensures
        match r {
            Ok(_) => s@[i as int] == c,
            Err(e) => s@[i as int] != c && e == TimeError::Format,
        },
{
    if s.get_char(i) == c {
        Ok(())
    } else {
        Err(TimeError::Format)
    }
}

/// Parses a timestamp in the declared format, strictly: exact length,
/// zero-padded fields, a real calendar date.
pub fn parse_local(s: &str, with_seconds: bool) -> (r: Result<LocalParts, TimeError>)
    ensures
        match r {
            Ok(p) => parse_spec(s@, with_seconds) == Some(p),
            Err(e) => parse_spec(s@, with_seconds) is None && e == TimeError::Format,
        },
{
    let n = s.unicode_len();
    let want: usize = if with_seconds {
        22
    } else {
        19
    };
    if n != want {
        return Err(TimeError::Format);
    }
    let m1 = match read_digit(s, 0) {
        Ok(v) => v,
        Err(e) => { return Err(e); },
    };
    let m2 = match read_digit(s, 1) {
        Ok(v) => v,
        Err(e) => { return Err(e); },
    };
    match expect_char(s, 2, '/') {
        Ok(_) => (),
        Err(e) => { return Err(e); },
    };
    let d1 = match read_digit(s, 3) {
        Ok(v) => v,
        Err(e) => { return Err(e); },
    };
    let d2 = match read_digit(s, 4) {
        Ok(v) => v,
        Err(e) => { return Err(e); },
    };
    match expect_char(s, 5, '/') {
        Ok(_) => (),
        Err(e) => { return Err(e); },
    };
    let y1 = match read_digit(s, 6) {
        Ok(v) => v,
        Err(e) => { return Err(e); },
    };
    let y2 = match read_digit(s, 7) {
        Ok(v) => v,
        Err(e) => { return Err(e); },
    };
    let y3 = match read_digit(s, 8) {
        Ok(v) => v,
        Err(e) => { return Err(e); },
    };
    let y4 = match read_digit(s, 9) {
        Ok(v) => v,
        Err(e) => { return Err(e); },
    };
    match expect_char(s, 10, ' ') {
        Ok(_) => (),
        Err(e) => { return Err(e); },
    };
    let h1 = match read_digit(s, 11) {
        Ok(v) => v,
        Err(e) => { return Err(e); },
    };
    let h2 = match read_digit(s, 12) {
        Ok(v) => v,
        Err(e) => { return Err(e); },
    };
    match expect_char(s, 13, ':') {
        Ok(_) => (),
        Err(e) => { return Err(e); },
    };
    let mi1 = match read_digit(s, 14) {
        Ok(v) => v,
        Err(e) => { return Err(e); },
    };
    let mi2 = match read_digit(s, 15) {
        Ok(v) => v,
        Err(e) => { return Err(e); },
    };
    let second: i64 = if with_seconds {
        match expect_char(s, 16, ':') {
            Ok(_) => (),
            Err(e) => { return Err(e); },
        };
        let s1 = match read_digit(s, 17) {
            Ok(v) => v,
            Err(e) => { return Err(e); },
        };
        let s2 = match read_digit(s, 18) {
            Ok(v) => v,
            Err(e) => { return Err(e); },
        };
        match expect_char(s, 19, ' ') {
            Ok(_) => (),
            Err(e) => { return Err(e); },
        };
        s1 * 10 + s2
    } else {
        match expect_char(s, 16, ' ') {
            Ok(_) => (),
            Err(e) => { return Err(e); },
        };
        0
    };
    let mpos: usize = if with_seconds {
        20
    } else {
        17
    };
    let mer = s.get_char(mpos);
    if !(mer == 'A' || mer == 'P') {
        return Err(TimeError::Format);
    }
    match expect_char(s, mpos + 1, 'M') {
        Ok(_) => (),
        Err(e) => { return Err(e); },
    };
    let month = m1 * 10 + m2;
    let day = d1 * 10 + d2;
    let year = (y1 * 10 + y2) * 100 + (y3 * 10 + y4);
    let hh = h1 * 10 + h2;
    let minute = mi1 * 10 + mi2;
    if !(1 <= month && month <= 12) {
        return Err(TimeError::Format);
    }
    if !(1 <= day && day <= month_len_exec(year, month)) {
        return Err(TimeError::Format);
    }
    if !(1 <= hh && hh <= 12) {
        return Err(TimeError::Format);
    }
    if minute > 59 {
        return Err(TimeError::Format);
    }
    if second > 59 {
        return Err(TimeError::Format);
    }
    let hour: i64 = if mer == 'P' {
        (hh % 12) + 12
    } else {
        hh % 12
    };
    Ok(LocalParts { year, month, day, hour, minute, second })
}

/// The unique offset, in seconds east of UTC, that the fixed zone gives
/// a wall-clock time — or nothing where the zone maps that wall-clock
/// time ambiguously or not at all. A function of the parts alone.
pub uninterp spec fn puerto_rico_offset(p: LocalParts) -> Option<i64>;

/// Relies on chrono_tz's America/Puerto_Rico table through
/// `TimeZone::from_local_datetime` and `MappedLocalTime::single`: a
/// valid date-time maps to one zoned instant, or to none in a fold or
/// gap of the local clock; the offset depends on the parts alone, and a
/// `FixedOffset` holds only seconds strictly within a day.
#[verifier::external_body]
fn lookup_offset(p: &LocalParts) -> (r: Option<i64>)
    requires
        valid_parts(*p),
    ensures
        r == puerto_rico_offset(*p),
        r matches Some(o) ==> -86400 < o < 86400,
{
    let date = match chrono::NaiveDate::from_ymd_opt(p.year as i32, p.month as u32, p.day as u32) {
        Some(d) => d,
        None => { return None; },
    };
    let ndt = match date.and_hms_opt(p.hour as u32, p.minute as u32, p.second as u32) {
        Some(t) => t,
        None => { return None; },
    };
    match chrono::TimeZone::from_local_datetime(&chrono_tz::America::Puerto_Rico, &ndt) {
        chrono::LocalResult::Single(dt) => Some(
            chrono::Offset::fix(chrono::DateTime::offset(&dt)).local_minus_utc() as i64,
        ),
        _ => None,
    }
}

/// The offset, in seconds east of UTC, the fixed zone gives an instant.
/// A function of the instant alone.
pub uninterp spec fn puerto_rico_offset_at(epoch: i64) -> i64;

/// Relies on chrono_tz's America/Puerto_Rico table through
/// `TimeZone::offset_from_utc_datetime`: every instant has exactly one
/// offset, a function of the instant alone, strictly within a day.
#[verifier::external_body]
fn lookup_offset_at(epoch: i64) -> (r: i64)
    requires
        -62_167_219_200 <= epoch <= 253_402_300_799,
    ensures
        r == puerto_rico_offset_at(epoch),
        -86400 < r < 86400,
{
    let utc = match chrono::DateTime::from_timestamp(epoch, 0) {
        Some(t) => t.naive_utc(),
        None => { return 0; },
    };
    chrono::Offset::fix(
        &chrono::TimeZone::offset_from_utc_datetime(&chrono_tz::America::Puerto_Rico, &utc),
    ).local_minus_utc() as i64
}

/// How a timestamp resolves: the epoch seconds its parts name under the
/// zone's unique offset, a format error where the text does not parse,
/// a zone error where the wall-clock time is ambiguous or nonexistent.
pub open spec fn resolve_model(s: Seq<char>, with_seconds: bool) -> Result<int, TimeError> {
    match parse_spec(s, with_seconds) {
        Option::None => Err(TimeError::Format),
        Option::Some(p) => match puerto_rico_offset(p) {
            Option::None => Err(TimeError::Zone),
            Option::Some(o) => Ok(wall_seconds(p) - o),
        },
    }
}

/// Resolves a timestamp of either declared format to epoch seconds.
fn resolve_local(s: &str, with_seconds: bool) -> (r: Result<i64, TimeError>)
    ensures
        match r {
            Ok(t) => resolve_model(s@, with_seconds) == Ok::<int, TimeError>(t as int),
            Err(e) => resolve_model(s@, with_seconds) == Err::<int, TimeError>(e),
        },
{
    let p = match parse_local(s, with_seconds) {
        Ok(p) => p,
        Err(e) => { return Err(e); },
    };
    proof {
        assert(valid_parts(p));
    }
    let o = match lookup_offset(&p) {
        Option::Some(o) => o,
        Option::None => { return Err(TimeError::Zone); },
    };
    let w = wall_seconds_exec(&p);
    Ok(w - o)
}

/// Resolves an outage timestamp, `MM/DD/YYYY hh:mm AM|PM`.
pub fn resolve_outage_timestamp(s: &str) -> (r: Result<i64, TimeError>)
    ensures
        match r {
            Ok(t) => resolve_model(s@, false) == Ok::<int, TimeError>(t as int),
            Err(e) => resolve_model(s@, false) == Err::<int, TimeError>(e),
        },
{
    resolve_local(s, false)
}

/// Splits a civil day number into a year and the days left within it,
/// scanning upward from year `y`.
pub open spec fn split_year(y: int, rem: int) -> (int, int)
    decreases rem,
{
    if rem < year_len(y) {
        (y, rem)
    } else {
        split_year(y + 1, rem - year_len(y))
    }
}

/// Splits the days within a year into a month and the days left within
/// it, scanning upward from month `m`.
pub open spec fn split_month(y: int, m: int, rem: int) -> (int, int)
    decreases rem,
{
    if m >= 12 || rem < month_len(y, m) {
        (m, rem)
    } else {
        split_month(y, m + 1, rem - month_len(y, m))
    }
}

/// The local date-time that wall-clock seconds name.
pub open spec fn parts_of_wall(w: int) -> LocalParts {
    let total = w + UNIX_EPOCH_CIVIL_DAYS * 86400;
    let day0 = total / 86400;
    let sod = total % 86400;
    let yr = split_year(0, day0);
    let mr = split_month(yr.0, 1, yr.1);
    LocalParts {
        year: yr.0 as i64,
        month: mr.0 as i64,
        day: (mr.1 + 1) as i64,
        hour: (sod / 3600) as i64,
        minute: ((sod % 3600) / 60) as i64,
        second: (sod % 60) as i64,
    }
}

proof fn lemma_days_before_year_mono(a: int, b: int)
    requires
        a <= b,
    ensures
        days_before_year(a) <= days_before_year(b),
    decreases b - a,
{
    if a < b {
        lemma_days_before_year_mono(a, b - 1);
    }
}

proof fn lemma_split_year(y: int, target: int, inner: int)
    requires
        0 <= y <= target,
        0 <= inner < year_len(target),
    ensures
        split_year(y, days_before_year(target) - days_before_year(y) + inner) == (target, inner),
    decreases target - y,
{
    let rem = days_before_year(target) - days_before_year(y) + inner;
    if y == target {
        assert(rem == inner);
    } else {
        lemma_days_before_year_mono(y + 1, target);
        assert(days_before_year(y + 1) == days_before_year(y) + year_len(y));
        lemma_split_year(y + 1, target, inner);
        assert(rem - year_len(y) == days_before_year(target) - days_before_year(y + 1) + inner);
    }
}

proof fn lemma_days_before_month_mono(y: int, a: int, b: int)
    requires
        a <= b,
    ensures
        days_before_month(y, a) <= days_before_month(y, b),
    decreases b - a,
{
    if a < b {
        lemma_days_before_month_mono(y, a, b - 1);
    }
}

/// The twelve months cover the year exactly.
proof fn lemma_months_cover_year(y: int)
    ensures
        days_before_month(y, 13) == year_len(y),
{
    reveal_with_fuel(days_before_month, 13);
}

proof fn lemma_split_month(y: int, m: int, target: int, inner: int)
    requires
        1 <= m <= target <= 12,
        0 <= inner < month_len(y, target),
    ensures
        split_month(y, m, days_before_month(y, target) - days_before_month(y, m) + inner) == (
            target,
            inner,
        ),
    decreases target - m,
{
    let rem = days_before_month(y, target) - days_before_month(y, m) + inner;
    if m == target {
        assert(rem == inner);
    } else {
        lemma_days_before_month_mono(y, m + 1, target);
        assert(days_before_month(y, m + 1) == days_before_month(y, m) + month_len(y, m));
        lemma_split_month(y, m + 1, target, inner);
        assert(rem - month_len(y, m) == days_before_month(y, target) - days_before_month(y, m + 1)
            + inner);
    }
}

/// Law: the calendar arithmetic is bijective over valid date-times —
/// the wall-clock seconds of any valid local date-time name exactly
/// that date-time again.
pub proof fn lemma_parts_of_wall_inverse(p: LocalParts)
    requires
        valid_parts(p),
    ensures
        parts_of_wall(wall_seconds(p)) == p,
{
    let y = p.year as int;
    let m = p.month as int;
    let w = wall_seconds(p);
    let total = w + UNIX_EPOCH_CIVIL_DAYS * 86400;
    let cd = civil_days(p);
    let sod = p.hour * 3600 + p.minute * 60 + p.second;
    assert(total == cd * 86400 + sod);
    vstd::arithmetic::div_mod::lemma_fundamental_div_mod_converse(total, 86400, cd, sod);
    let inner_y = days_before_month(y, m) + (p.day - 1);
    assert(days_before_month(y, m + 1) == days_before_month(y, m) + month_len(y, m));
    lemma_days_before_month_mono(y, m + 1, 13);
    lemma_months_cover_year(y);
    lemma_days_before_month_mono(y, 1, m);
    assert(days_before_month(y, 1) == 0);
    assert(0 <= inner_y < year_len(y));
    assert(days_before_year(0) == 0);
    lemma_split_year(0, y, inner_y);
    assert(split_year(0, cd) == (y, inner_y));
    assert(days_before_month(y, 1) == 0);
    lemma_split_month(y, 1, m, p.day - 1);
    assert(split_month(y, 1, inner_y) == (m, p.day - 1));
    vstd::arithmetic::div_mod::lemma_fundamental_div_mod_converse(
        sod,
        3600,
        p.hour as int,
        p.minute * 60 + p.second,
    );
    vstd::arithmetic::div_mod::lemma_fundamental_div_mod_converse(
        sod % 3600,
        60,
        p.minute as int,
        p.second as int,
    );
    vstd::arithmetic::div_mod::lemma_fundamental_div_mod_converse(
        sod,
        60,
        p.hour * 60 + p.minute,
        p.second as int,
    );
}

/// The character of a decimal digit.
pub open spec fn digit_char(d: int) -> char {
    if d == 0 {
        '0'
    } else if d == 1 {
        '1'
    } else if d == 2 {
        '2'
    } else if d == 3 {
        '3'
    } else if d == 4 {
        '4'
    } else if d == 5 {
        '5'
    } else if d == 6 {
        '6'
    } else if d == 7 {
        '7'
    } else if d == 8 {
        '8'
    } else {
        '9'
    }
}

/// A number rendered as two digits, zero-padded.
pub open spec fn two_digits(n: int) -> Seq<char> {
    seq![digit_char(n / 10), digit_char(n % 10)]
}

/// A local date-time rendered in the declared format: zero-padded
/// month, day and clock fields, a four-digit year, the hour on the
/// 12-hour clock with its AM/PM marker.
pub open spec fn format_model(p: LocalParts, with_seconds: bool) -> Seq<char> {
    let hh12 = if p.hour as int % 12 == 0 {
        12int
    } else {
        p.hour as int % 12
    };
    let mer: char = if p.hour >= 12 {
        'P'
    } else {
        'A'
    };
    two_digits(p.month as int) + seq!['/'] + two_digits(p.day as int) + seq!['/'] + two_digits(
        p.year as int / 100,
    ) + two_digits(p.year as int % 100) + seq![' '] + two_digits(hh12) + seq![':'] + two_digits(
        p.minute as int,
    ) + (if with_seconds {
        seq![':'] + two_digits(p.second as int)
    } else {
        Seq::empty()
    }) + seq![' ', mer, 'M']
}

proof fn lemma_two_digits_round(c1: char, c2: char)
    requires
        is_digit(c1),
        is_digit(c2),
    ensures
        two_digits(digit_val(c1) * 10 + digit_val(c2)) == seq![c1, c2],
{
    let n = digit_val(c1) * 10 + digit_val(c2);
    vstd::arithmetic::div_mod::lemma_fundamental_div_mod_converse(
        n,
        10,
        digit_val(c1),
        digit_val(c2),
    );
    assert(digit_char(digit_val(c1)) == c1);
    assert(digit_char(digit_val(c2)) == c2);
    assert(two_digits(n) =~= seq![c1, c2]);
}

/// Law: rendering the parts a well-formed timestamp spells reproduces
/// the timestamp exactly, character for character.
#[verifier::rlimit(100)]
#[verifier::spinoff_prover]
pub proof fn lemma_format_parse_inverse(s: Seq<char>, with_seconds: bool)
    requires
        parse_wf(s, with_seconds),
    ensures
        format_model(parsed_parts(s, with_seconds), with_seconds) == s,
{
    let p = parsed_parts(s, with_seconds);
    let mi = if with_seconds {
        20int
    } else {
        17int
    };
    lemma_two_digits_round(s[0], s[1]);
    lemma_two_digits_round(s[3], s[4]);
    lemma_two_digits_round(s[6], s[7]);
    lemma_two_digits_round(s[8], s[9]);
    lemma_two_digits_round(s[11], s[12]);
    lemma_two_digits_round(s[14], s[15]);
    if with_seconds {
        lemma_two_digits_round(s[17], s[18]);
    }
    let yr = num4(s, 6);
    vstd::arithmetic::div_mod::lemma_fundamental_div_mod_converse(
        yr,
        100,
        num2(s, 6),
        num2(s, 8),
    );
    let hh = num2(s, 11);
    assert(p.hour as int % 12 == hh % 12);
    assert((if p.hour as int % 12 == 0 {
        12int
    } else {
        p.hour as int % 12
    }) == hh) by {
        if hh == 12 {
            assert(hh % 12 == 0);
        } else {
            assert(hh % 12 == hh);
        }
    }
    assert((if p.hour >= 12 {
        'P'
    } else {
        'A'
    }) == s[mi]);
    assert(format_model(p, with_seconds) =~= s);
}

/// Law: timestamp resolution round-trips — for any text valid in a
/// declared format whose wall-clock time the fixed zone maps uniquely
/// (offset `o`), rendering the resolved epoch instant back as that
/// zone's wall-clock text in the same format reproduces the text
/// exactly. The format without seconds carries none to lose.
pub proof fn lemma_resolution_round_trip(s: Seq<char>, with_seconds: bool, p: LocalParts, o: i64)
    requires
        parse_spec(s, with_seconds) == Some(p),
        puerto_rico_offset(p) == Some(o),
    ensures
        resolve_model(s, with_seconds) == Ok::<int, TimeError>(wall_seconds(p) - o),
        format_model(parts_of_wall((wall_seconds(p) - o) + o), with_seconds) == s,
{
    assert(valid_parts(p));
    lemma_parts_of_wall_inverse(p);
    lemma_format_parse_inverse(s, with_seconds);
}

/// Law: the round trip holds through the rendering path as well — the
/// resolved epoch renders back to the original text whenever the zone
/// gives the resolved instant the same offset it gave the wall-clock
/// time, as any self-consistent zone table does.
pub proof fn lemma_render_round_trip(
    s: Seq<char>,
    with_seconds: bool,
    p: LocalParts,
    o: i64,
    t: i64,
)
    requires
        parse_spec(s, with_seconds) == Some(p),
        puerto_rico_offset(p) == Some(o),
        t as int == wall_seconds(p) - o,
        puerto_rico_offset_at(t) == o,
    ensures
        resolve_model(s, with_seconds) == Ok::<int, TimeError>(t as int),
        format_model(parts_of_wall(t + puerto_rico_offset_at(t)), with_seconds) == s,
{
    lemma_resolution_round_trip(s, with_seconds, p, o);
}

/// Law: resolution is deterministic — the resolved epoch is a function
/// of the timestamp text alone, so feeding the same text twice yields
/// the same integer both times.
pub proof fn lemma_resolution_deterministic(
    s: Seq<char>,
    with_seconds: bool,
    r1: Result<int, TimeError>,
    r2: Result<int, TimeError>,
)
    requires
        r1 == resolve_model(s, with_seconds),
        r2 == resolve_model(s, with_seconds),
    ensures
        r1 == r2,
{
}

/// Computes the local date-time that wall-clock seconds name.
fn parts_of_wall_exec(w: i64) -> (r: Result<LocalParts, TimeError>)
    requires
        -62_167_219_200 <= w <= 254_200_000_000,
    ensures
        match r {
            Ok(p) => p == parts_of_wall(w as int) && valid_parts(p),
            Err(e) => parts_of_wall(w as int).year > 9999 && e == TimeError::Format,
        },
{
    let total: i64 = w + UNIX_EPOCH_CIVIL_DAYS * 86400;
    let day0: i64 = total / 86400;
    let sod: i64 = total % 86400;
    let mut y: i64 = 0;
    let mut rem: i64 = day0;
    loop
        invariant
            0 <= day0 <= 3_700_000,
            0 <= y,
            0 <= rem,
            365 * y + rem <= day0,
            split_year(0, day0 as int) == split_year(y as int, rem as int),
        ensures
            0 <= y,
            0 <= rem,
            rem < year_len(y as int),
            split_year(0, day0 as int) == (y as int, rem as int),
        decreases rem,
    {
        let len: i64 = if (y % 4 == 0) && (y % 100 != 0 || y % 400 == 0) {
            366
        } else {
            365
        };
        proof {
            assert(len == year_len(y as int));
        }
        if rem < len {
            break ;
        }
        rem = rem - len;
        y = y + 1;
    }
    if y > 9999 {
        return Err(TimeError::Format);
    }
    let mut m: i64 = 1;
    let mut mrem: i64 = rem;
    loop
        invariant
            1 <= m <= 12,
            0 <= mrem <= rem,
            0 <= y <= 9999,
            rem < year_len(y as int),
            split_month(y as int, 1, rem as int) == split_month(y as int, m as int, mrem as int),
        ensures
            1 <= m <= 12,
            0 <= mrem,
            mrem < month_len(y as int, m as int),
            split_month(y as int, 1, rem as int) == (m as int, mrem as int),
        decreases 12 - m,
    {
        let len = month_len_exec(y, m);
        if m >= 12 || mrem < len {
            proof {
                if !(mrem < len) {
                    lemma_days_before_month_mono(y as int, 1, 12);
                    lemma_months_cover_year(y as int);
                    lemma_split_month_rem_bound(y as int, 1, rem as int);
                    assert(false);
                }
            }
            break ;
        }
        mrem = mrem - len;
        m = m + 1;
    }
    let hour: i64 = sod / 3600;
    let minute: i64 = (sod % 3600) / 60;
    let second: i64 = sod % 60;
    Ok(LocalParts { year: y, month: m, day: mrem + 1, hour, minute, second })
}

/// Within a year, the month scan never runs past the days the year has.
proof fn lemma_split_month_rem_bound(y: int, m: int, rem: int)
    requires
        1 <= m <= 12,
        0 <= rem,
        days_before_month(y, m) + rem < year_len(y),
    ensures
        ({
            let r = split_month(y, m, rem);
            days_before_month(y, r.0) + r.1 == days_before_month(y, m) + rem && r.1 < month_len(
                y,
                r.0,
            )
        }),
    decreases 12 - m,
{
    if m >= 12 || rem < month_len(y, m) {
        if m >= 12 && !(rem < month_len(y, m)) {
            lemma_months_cover_year(y);
            assert(days_before_month(y, 13) == days_before_month(y, 12) + month_len(y, 12));
        }
    } else {
        assert(days_before_month(y, m + 1) == days_before_month(y, m) + month_len(y, m));
        lemma_split_month_rem_bound(y, m + 1, rem - month_len(y, m));
    }
}

/// Renders one decimal digit.
fn digit_char_exec(d: i64) -> (r: char)
    requires
        0 <= d <= 9,
    ensures
        r == digit_char(d as int),
{
    if d == 0 {
        '0'
    } else if d == 1 {
        '1'
    } else if d == 2 {
        '2'
    } else if d == 3 {
        '3'
    } else if d == 4 {
        '4'
    } else if d == 5 {
        '5'
    } else if d == 6 {
        '6'
    } else if d == 7 {
        '7'
    } else if d == 8 {
        '8'
    } else {
        '9'
    }
}

/// Appends a number as two digits, zero-padded.
fn push_two_digits(out: &mut String, n: i64)
    requires
        0 <= n <= 99,
    ensures
        final(out)@ == old(out)@ + two_digits(n as int),
{
    push_char(out, digit_char_exec(n / 10));
    push_char(out, digit_char_exec(n % 10));
    proof {
        assert(final(out)@ =~= old(out)@ + two_digits(n as int));
    }
}

/// Renders a valid local date-time in the declared format.
pub fn format_local(p: &LocalParts, with_seconds: bool) -> (r: String)
    requires
        valid_parts(*p),
    ensures
        r@ == format_model(*p, with_seconds),
{
    let mut out = String::new();
    push_two_digits(&mut out, p.month);
    push_char(&mut out, '/');
    push_two_digits(&mut out, p.day);
    push_char(&mut out, '/');
    push_two_digits(&mut out, p.year / 100);
    push_two_digits(&mut out, p.year % 100);
    push_char(&mut out, ' ');
    let hh12: i64 = if p.hour % 12 == 0 {
        12
    } else {
        p.hour % 12
    };
    push_two_digits(&mut out, hh12);
    push_char(&mut out, ':');
    push_two_digits(&mut out, p.minute);
    if with_seconds {
        push_char(&mut out, ':');
        push_two_digits(&mut out, p.second);
    }
    push_char(&mut out, ' ');
    push_char(&mut out, if p.hour >= 12 {
        'P'
    } else {
        'A'
    });
    push_char(&mut out, 'M');
    proof {
        assert(out@ =~= format_model(*p, with_seconds));
    }
    out
}

/// Renders an epoch instant as the fixed zone's wall-clock text in the
/// declared format; fails only where the instant falls outside years 0
/// through 9999 of the local calendar.
pub fn local_string_of_epoch(epoch: i64, with_seconds: bool) -> (r: Result<String, TimeError>)
    requires
        -62_167_132_800 <= epoch <= 250_000_000_000,
    ensures
        ({
            let p = parts_of_wall(epoch + puerto_rico_offset_at(epoch));
            match r {
                Ok(t) => p.year <= 9999 && t@ == format_model(p, with_seconds),
                Err(e) => p.year > 9999 && e == TimeError::Format,
            }
        }),
{
    let o = lookup_offset_at(epoch);
    let p = match parts_of_wall_exec(epoch + o) {
        Ok(p) => p,
        Err(e) => { return Err(e); },
    };
    Ok(format_local(&p, with_seconds))
}

/// Resolves a generation timestamp, `MM/DD/YYYY hh:mm:ss AM|PM`.
pub fn resolve_generation_timestamp(s: &str) -> (r: Result<i64, TimeError>)
    ensures
        match r {
            Ok(t) => resolve_model(s@, true) == Ok::<int, TimeError>(t as int),
            Err(e) => resolve_model(s@, true) == Err::<int, TimeError>(e),
        },
{
    resolve_local(s, true)
}

} // verus!
