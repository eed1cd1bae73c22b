use vstd::prelude::*;
use crate::json::{decimal_of, decimal_text};
use crate::text::string_of;

verus! {

/// An ASCII decimal digit.
pub open spec fn is_digit_byte(b: u8) -> bool {
    48 <= b <= 57
}

/// The value of the decimal digits `b[start..end]`.
pub open spec fn decimal_value(b: Seq<u8>, start: int, end: int) -> int
    decreases end - start,
{
    if end <= start {
        0
    } else {
        decimal_value(b, start, end - 1) * 10 + (b[end - 1] - 48)
    }
}

/// The layout `YYYY-MM-DDTHH:MM:SSZ`: twenty bytes, digits and the fixed separators.
pub open spec fn utc_second_shape(b: Seq<u8>) -> bool {
    &&& b.len() == 20
    &&& b[4] == 45u8 && b[7] == 45u8 && b[10] == 84u8 && b[13] == 58u8 && b[16] == 58u8
        && b[19] == 90u8
    &&& forall|i: int|
        0 <= i < 20 && i != 4 && i != 7 && i != 10 && i != 13 && i != 16 && i != 19
            ==> is_digit_byte(#[trigger] b[i])
}

/// A Gregorian leap year.
pub open spec fn is_leap_year(year: int) -> bool {
    year % 4 == 0 && (year % 100 != 0 || year % 400 == 0)
}

/// The number of days of a month, zero for a month outside 1 to 12.
pub open spec fn days_in_month(year: int, month: int) -> int {
    if month == 1 || month == 3 || month == 5 || month == 7 || month == 8 || month == 10 || month
        == 12 {
        31
    } else if month == 4 || month == 6 || month == 9 || month == 11 {
        30
    } else if month == 2 && is_leap_year(year) {
        29
    } else if month == 2 {
        28
    } else {
        0
    }
}

/// A valid second-precision UTC instant written as `YYYY-MM-DDTHH:MM:SSZ`, year one or later.
pub open spec fn is_utc_second(b: Seq<u8>) -> bool {
    &&& utc_second_shape(b)
    &&& decimal_value(b, 0, 4) != 0
    &&& 1 <= decimal_value(b, 8, 10) <= days_in_month(decimal_value(b, 0, 4), decimal_value(b, 5, 7))
    &&& decimal_value(b, 11, 13) <= 23
    &&& decimal_value(b, 14, 16) <= 59
    &&& decimal_value(b, 17, 19) <= 59
}

proof fn lemma_decimal_value_bound(b: Seq<u8>, start: int, end: int)
    requires
        0 <= start <= end <= b.len(),
        forall|i: int| start <= i < end ==> is_digit_byte(#[trigger] b[i]),
    ensures
        0 <= decimal_value(b, start, end),
        end - start <= 4 ==> decimal_value(b, start, end) < 10000,
        end - start <= 3 ==> decimal_value(b, start, end) < 1000,
        end - start <= 2 ==> decimal_value(b, start, end) < 100,
        end - start <= 1 ==> decimal_value(b, start, end) < 10,
    decreases end - start,
{
    if end > start {
        lemma_decimal_value_bound(b, start, end - 1);
    }
}

/// The value of the decimal digits `b[start..end]`, at most four of them.
pub fn decimal(b: &[u8], start: usize, end: usize) -> (r: u32)
    requires
        start <= end <= b.len(),
        end - start <= 4,
        forall|i: int| start <= i < end ==> is_digit_byte(#[trigger] b@[i]),
    ensures
        r == decimal_value(b@, start as int, end as int),
{
    let mut value: u32 = 0;
    let mut i: usize = start;
    while i < end
        invariant
            start <= i <= end,
            end <= b.len(),
            end - start <= 4,
            forall|k: int| start <= k < end ==> is_digit_byte(#[trigger] b@[k]),
            value == decimal_value(b@, start as int, i as int),
        decreases end - i,
    {
        proof {
            lemma_decimal_value_bound(b@, start as int, i as int);
        }
        value = value * 10 + ((b[i] - 48) as u32);
        i = i + 1;
    }
    value
}

fn month_days(year: u32, month: u32) -> (r: u32)
    ensures
        r == days_in_month(year as int, month as int),
{
    if month == 1 || month == 3 || month == 5 || month == 7 || month == 8 || month == 10 || month
        == 12 {
        31
    } else if month == 4 || month == 6 || month == 9 || month == 11 {
        30
    } else if month == 2 && year % 4 == 0 && (year % 100 != 0 || year % 400 == 0) {
        29
    } else if month == 2 {
        28
    } else {
        0
    }
}

/// Whether bytes have the layout `YYYY-MM-DDTHH:MM:SSZ`.
pub fn utc_shape(b: &[u8]) -> (r: bool)
    ensures
        r == utc_second_shape(b@),
{
    if b.len() != 20 || b[4] != 45 || b[7] != 45 || b[10] != 84 || b[13] != 58 || b[16] != 58
        || b[19] != 90 {
        return false;
    }
    let mut i: usize = 0;
    while i < 20
        invariant
            b.len() == 20,
            i <= 20,
            forall|k: int|
                0 <= k < i && k != 4 && k != 7 && k != 10 && k != 13 && k != 16 && k != 19
                    ==> is_digit_byte(#[trigger] b@[k]),
        decreases 20 - i,
    {
        if i != 4 && i != 7 && i != 10 && i != 13 && i != 16 && i != 19 && !(48 <= b[i] && b[i]
            <= 57) {
            return false;
        }
        i = i + 1;
    }
    true
}

/// Whether bytes are a valid second-precision UTC instant `YYYY-MM-DDTHH:MM:SSZ`.
pub fn utc_second(b: &[u8]) -> (r: bool)
    ensures
        r == is_utc_second(b@),
{
    if !utc_shape(b) {
        return false;
    }
    let year = decimal(b, 0, 4);
    let month = decimal(b, 5, 7);
    let day = decimal(b, 8, 10);
    let hour = decimal(b, 11, 13);
    let minute = decimal(b, 14, 16);
    let second = decimal(b, 17, 19);
    let max_day = month_days(year, month);
    !(year == 0 || day == 0 || day > max_day || hour > 23 || minute > 59 || second > 59)
}

/// Days before the start of the March-based year `y` of a 400-year era.
pub open spec fn era_year_start(y: int) -> int {
    365 * y + y / 4 - y / 100
}

/// The year of an era that contains day `doe`, as the civil calendar counts it.
pub open spec fn year_of_era(doe: int) -> int {
    (doe - doe / 1460 + doe / 36524 - doe / 146096) / 365
}

proof fn lemma_year_of_era(doe: int)
    requires
        0 <= doe <= 146096,
    ensures
        0 <= year_of_era(doe) <= 399,
        era_year_start(year_of_era(doe)) <= doe < era_year_start(year_of_era(doe) + 1)
            + if year_of_era(doe) == 399 { 1int } else { 0int },
{
    if doe == 146096 {
        assert(year_of_era(doe) == 399);
        assert(era_year_start(399) == 145731);
        assert(era_year_start(400) == 146096);
    } else {
        let c = doe / 36524;
        let r = doe % 36524;
        assert(doe == 36524 * c + r && 0 <= c <= 3 && 0 <= r < 36524);
        let q = r / 1461;
        let s = r % 1461;
        assert(r == 1461 * q + s && 0 <= q <= 24 && 0 <= s <= 1460);
        assert(doe / 146096 == 0);
        assert(doe / 36524 == c);
        let e = (24 * c + q + s) / 1460;
        assert(doe == 1460 * (25 * c + q) + (24 * c + q + s));
        assert(doe / 1460 == 25 * c + q + e) by {
            assert(0 <= 24 * c + q + s < 2 * 1460);
        }
        assert(e == 0 || e == 1);
        assert(s == 0 ==> e == 0);
        assert(e == 1 ==> s >= 1460 - 96);
        let j = (s - e) / 365;
        assert(doe - doe / 1460 + doe / 36524 - doe / 146096 == 365 * (100 * c + 4 * q) + (s - e));
        assert(0 <= s - e <= 1459);
        assert(0 <= j <= 3);
        assert(year_of_era(doe) == 100 * c + 4 * q + j);
        let y = 100 * c + 4 * q + j;
        assert(y / 4 == 25 * c + q);
        assert(y / 100 == c);
        assert(era_year_start(y) == 36524 * c + 1461 * q + 365 * j);
        assert(j == 0 ==> s - e < 365);
        assert(j == 3 ==> s - e >= 1095);
        assert(365 * j <= s);
        if j < 3 {
            assert(s < 365 * (j + 1));
            assert((y + 1) / 4 == 25 * c + q);
            assert((y + 1) / 100 == c);
            assert(era_year_start(y + 1) == 36524 * c + 1461 * q + 365 * (j + 1));
        } else {
            if q < 24 {
                assert((y + 1) / 4 == 25 * c + q + 1);
                assert((y + 1) / 100 == c);
                assert(era_year_start(y + 1) == 36524 * c + 1461 * q + 365 * 4 + 1);
            } else {
                assert(y == 100 * c + 99);
                assert((y + 1) / 4 == 25 * c + 25);
                assert((y + 1) / 100 == c + 1);
                assert(era_year_start(y + 1) == 36524 * c + 1461 * 24 + 365 * 4);
                assert(r <= 36523);
            }
        }
    }
}

/// Leap years before year `y`, counted from a fixed origin: the number of leap days that the
/// Gregorian calendar inserts before `y` begins, up to a constant.
pub open spec fn leap_years_before(y: int) -> int {
    (y - 1) / 4 - (y - 1) / 100 + (y - 1) / 400
}

/// Days of year `y` before the first of month `m`.
pub open spec fn days_before_month(y: int, m: int) -> int {
    (if m == 1 {
        0int
    } else if m == 2 {
        31int
    } else if m == 3 {
        59int
    } else if m == 4 {
        90int
    } else if m == 5 {
        120int
    } else if m == 6 {
        151int
    } else if m == 7 {
        181int
    } else if m == 8 {
        212int
    } else if m == 9 {
        243int
    } else if m == 10 {
        273int
    } else if m == 11 {
        304int
    } else {
        334int
    }) + if m > 2 && is_leap_year(y) {
        1int
    } else {
        0int
    }
}

/// The number of days from 1970-01-01 to the date `y-m-d` of the proleptic Gregorian calendar.
pub open spec fn days_from_epoch(y: int, m: int, d: int) -> int {
    365 * (y - 1970) + leap_years_before(y) - leap_years_before(1970) + days_before_month(y, m) + d
        - 1
}

/// A date of the proleptic Gregorian calendar.
pub open spec fn is_civil_date(y: int, m: int, d: int) -> bool {
    1 <= m <= 12 && 1 <= d <= days_in_month(y, m)
}

/// The civil date of a day number, computed by eras of 400 years that start on the first of
/// March.
pub open spec fn civil_from_days(days: int) -> (int, int, int) {
    let z = days + 719468;
    let era = z / 146097;
    let doe = z - era * 146097;
    let yoe = year_of_era(doe);
    let doy = doe - era_year_start(yoe);
    let mp = (5 * doy + 2) / 153;
    let d = doy - (153 * mp + 2) / 5 + 1;
    let m = if mp < 10 {
        mp + 3
    } else {
        mp - 9
    };
    (yoe + era * 400 + if m <= 2 {
        1int
    } else {
        0int
    }, m, d)
}

proof fn lemma_month_of_year(doy: int)
    requires
        0 <= doy <= 365,
    ensures
        0 <= (5 * doy + 2) / 153 <= 11,
        (153 * ((5 * doy + 2) / 153) + 2) / 5 <= doy,
        doy < (153 * ((5 * doy + 2) / 153 + 1) + 2) / 5,
{
}

/// The civil date of a day number is a valid date with that day number.
pub proof fn lemma_civil_from_days(days: int)
    ensures
        is_civil_date(civil_from_days(days).0, civil_from_days(days).1, civil_from_days(days).2),
        days_from_epoch(civil_from_days(days).0, civil_from_days(days).1, civil_from_days(days).2)
            == days,
{
    let z = days + 719468;
    let era = z / 146097;
    let doe = z - era * 146097;
    assert(0 <= doe < 146097);
    lemma_year_of_era(doe);
    let yoe = year_of_era(doe);
    let doy = doe - era_year_start(yoe);
    assert(0 <= doy <= 365);
    lemma_month_of_year(doy);
    let mp = (5 * doy + 2) / 153;
    let d = doy - (153 * mp + 2) / 5 + 1;
    let m = if mp < 10 {
        mp + 3
    } else {
        mp - 9
    };
    let y = yoe + era * 400 + if m <= 2 {
        1int
    } else {
        0int
    };
    assert(civil_from_days(days) == (y, m, d));
    let k = yoe;
    if m > 2 {
        assert(y == 400 * era + k);
        assert(y / 4 == 100 * era + k / 4);
        assert(y / 100 == 4 * era + k / 100);
        assert(y / 400 == era);
        assert(leap_years_before(y) + (if is_leap_year(y) {
            1int
        } else {
            0int
        }) == y / 4 - y / 100 + y / 400);
    } else {
        assert(y - 1 == 400 * era + k);
        assert((y - 1) / 4 == 100 * era + k / 4);
        assert((y - 1) / 100 == 4 * era + k / 100);
        assert((y - 1) / 400 == era);
        assert(y % 4 == (k + 1) % 4);
        assert(y % 100 == (k + 1) % 100);
        assert(y % 400 == (k + 1) % 400);
    }
    assert(leap_years_before(1970) == 477);
}

/// The least and greatest day numbers that a second count of type `i64` can fall on.
pub const MIN_UNIX_DAY: i64 = -106751991167301;

pub const MAX_UNIX_DAY: i64 = 106751991167300;

/// The civil date `(year, month, day)` of a day number counted from 1970-01-01.
pub fn civil_date_from_unix_days(days: i64) -> (r: (i64, i64, i64))
    requires
        MIN_UNIX_DAY <= days <= MAX_UNIX_DAY,
    ensures
        (r.0 as int, r.1 as int, r.2 as int) == civil_from_days(days as int),
        is_civil_date(r.0 as int, r.1 as int, r.2 as int),
        days_from_epoch(r.0 as int, r.1 as int, r.2 as int) == days,
{
    proof {
        lemma_civil_from_days(days as int);
    }
    let z: i64 = days + 719468;
    let era: i64 = if z >= 0 {
        (z as u64 / 146097) as i64
    } else {
        0 - (((146096 - z) as u64 / 146097) as i64)
    };
    assert(era == (z as int) / 146097);
    let doe: u64 = (z - era * 146097) as u64;
    assert(doe < 146097);
    let yoe: u64 = (doe - doe / 1460 + doe / 36524 - doe / 146096) / 365;
    proof {
        lemma_year_of_era(doe as int);
    }
    assert(yoe == year_of_era(doe as int));
    let doy: u64 = doe - (365 * yoe + yoe / 4 - yoe / 100);
    let mp: u64 = (5 * doy + 2) / 153;
    proof {
        lemma_month_of_year(doy as int);
    }
    let d: u64 = doy - (153 * mp + 2) / 5 + 1;
    let m: i64 = if mp < 10 {
        mp as i64 + 3
    } else {
        mp as i64 - 9
    };
    let y: i64 = yoe as i64 + era * 400 + if m <= 2 {
        1
    } else {
        0
    };
    (y, m, d as i64)
}

/// The decimal digits of `n`, padded with leading zeros to at least `width` characters.
pub open spec fn padded_decimal(n: nat, width: nat) -> Seq<char> {
    let digits = decimal_of(n);
    if digits.len() < width {
        Seq::new((width - digits.len()) as nat, |i: int| '0') + digits
    } else {
        digits
    }
}

/// A year as four digits at least; a negative year carries its sign within the four places.
pub open spec fn year_text(y: int) -> Seq<char> {
    if y >= 0 {
        padded_decimal(y as nat, 4)
    } else {
        seq!['-'] + padded_decimal((-y) as nat, 3)
    }
}

/// The text `YYYY-MM-DDTHH:MM:SSZ` of an instant given in seconds since 1970-01-01T00:00:00Z.
pub open spec fn utc_text(seconds: int) -> Seq<char> {
    let days = seconds / 86400;
    let second_of_day = seconds % 86400;
    let date = civil_from_days(days);
    year_text(date.0) + seq!['-'] + padded_decimal(date.1 as nat, 2) + seq!['-'] + padded_decimal(
        date.2 as nat,
        2,
    ) + seq!['T'] + padded_decimal((second_of_day / 3600) as nat, 2) + seq![':'] + padded_decimal(
        (second_of_day % 3600 / 60) as nat,
        2,
    ) + seq![':'] + padded_decimal((second_of_day % 60) as nat, 2) + seq!['Z']
}

fn padded_decimal_text(n: u64, width: usize) -> (r: Vec<char>)
    requires
        width <= 4,
    ensures
        r@ == padded_decimal(n as nat, width as nat),
{
    let digits = decimal_text(n);
    let mut out: Vec<char> = Vec::new();
    if digits.len() < width {
        let zeros = width - digits.len();
        let mut i: usize = 0;
        while i < zeros
            invariant
                i <= zeros,
                out@ == Seq::new(i as nat, |k: int| '0'),
            decreases zeros - i,
        {
            out.push('0');
            assert(out@ =~= Seq::new((i + 1) as nat, |k: int| '0'));
            i = i + 1;
        }
    }
    let ghost prefix = out@;
    let mut rest = digits;
    out.append(&mut rest);
    assert(out@ =~= padded_decimal(n as nat, width as nat));
    out
}

/// The text `YYYY-MM-DDTHH:MM:SSZ` of an instant given in seconds since the epoch.
pub fn utc_text_from_unix_seconds(seconds: i64) -> (r: String)
    ensures
        r@ == utc_text(seconds as int),
{
    let (days, second_of_day): (i64, u64) = if seconds >= 0 {
        ((seconds as u64 / 86400) as i64, seconds as u64 % 86400)
    } else {
        let m: u64 = (0 - (seconds + 1)) as u64;
        (0 - ((m / 86400) as i64) - 1, 86399 - m % 86400)
    };
    assert(days == (seconds as int) / 86400);
    assert(second_of_day == (seconds as int) % 86400);
    let (year, month, day) = civil_date_from_unix_days(days);
    let mut out: Vec<char> = Vec::new();
    if year >= 0 {
        out = padded_decimal_text(year as u64, 4);
    } else {
        out.push('-');
        let mut digits = padded_decimal_text((0 - (year as i128)) as u64, 3);
        out.append(&mut digits);
    }
    assert(out@ =~= year_text(year as int));
    out.push('-');
    let mut part = padded_decimal_text(month as u64, 2);
    out.append(&mut part);
    out.push('-');
    let mut part = padded_decimal_text(day as u64, 2);
    out.append(&mut part);
    out.push('T');
    let mut part = padded_decimal_text(second_of_day / 3600, 2);
    out.append(&mut part);
    out.push(':');
    let mut part = padded_decimal_text(second_of_day % 3600 / 60, 2);
    out.append(&mut part);
    out.push(':');
    let mut part = padded_decimal_text(second_of_day % 60, 2);
    out.append(&mut part);
    out.push('Z');
    assert(out@ =~= utc_text(seconds as int));
    string_of(&out)
}

} // verus!
