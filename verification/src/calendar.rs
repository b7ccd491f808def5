//! The proleptic Gregorian calendar as chrono counts it, and the parsing of the
//! release dates that Spotify reports into Unix timestamps.

use vstd::prelude::*;
use chrono::Datelike;
use crate::text::{all_digits, digits_value, hex_char, parse_i32, parse_i32_spec};

verus! {

/// The earliest year that chrono's `NaiveDate` represents.
pub open spec fn min_year() -> int {
    -262143
}

/// The latest year that chrono's `NaiveDate` represents.
pub open spec fn max_year() -> int {
    262142
}

/// Leap years of the proleptic Gregorian calendar.
pub open spec fn is_leap_year(y: int) -> bool {
    y % 4 == 0 && (y % 100 != 0 || y % 400 == 0)
}

/// The number of days of month `m` (1 to 12) of year `y`.
pub open spec fn days_in_month(y: int, m: int) -> int {
    if m == 2 {
        if is_leap_year(y) { 29 } else { 28 }
    } else if m == 4 || m == 6 || m == 9 || m == 11 {
        30
    } else {
        31
    }
}

/// `y-m-d` names a day of the calendar.
pub open spec fn is_valid_date(y: int, m: int, d: int) -> bool {
    1 <= m <= 12 && 1 <= d <= days_in_month(y, m)
}

/// `y-m-d` names a day that chrono's `NaiveDate` can hold.
pub open spec fn is_chrono_date(y: int, m: int, d: int) -> bool {
    min_year() <= y <= max_year() && is_valid_date(y, m, d)
}

/// The days of year `y` before the first of month `m`.
pub open spec fn days_before_month(y: int, m: int) -> int
    decreases m,
{
    if m <= 1 {
        0
    } else {
        days_before_month(y, m - 1) + days_in_month(y, m - 1)
    }
}

/// The days from 0001-01-01 to the first of January of year `y`.
pub open spec fn days_before_year(y: int) -> int {
    let p: int = y - 1;
    365 * p + p / 4 - p / 100 + p / 400
}

/// The number of `y-m-d` counted from 0001-01-01, which is day 1.
pub open spec fn days_from_ce(y: int, m: int, d: int) -> int {
    days_before_year(y) + days_before_month(y, m) + d
}

/// The Unix timestamp of midnight UTC at the start of `y-m-d`.
pub open spec fn midnight_timestamp(y: int, m: int, d: int) -> int {
    (days_from_ce(y, m, d) - 719163) * 86400
}

/// What chrono's `NaiveDate::parse_from_str(s, "%Y-%m-%d")` gives back, as
/// year, month and day.
pub uninterp spec fn chrono_parse_ymd(s: Seq<char>) -> Option<(i32, u32, u32)>;

/// A year from 0 to 9999 written with four digits.
pub open spec fn year_text(y: int) -> Seq<char> {
    seq![hex_char(y / 1000), hex_char((y / 100) % 10), hex_char((y / 10) % 10), hex_char(y % 10)]
}

/// A number from 0 to 99 written with two digits.
pub open spec fn two_digit_text(n: int) -> Seq<char> {
    seq![hex_char(n / 10), hex_char(n % 10)]
}

/// `YYYY-MM`.
pub open spec fn ym_text(y: int, m: int) -> Seq<char> {
    year_text(y) + seq!['-'] + two_digit_text(m)
}

/// `YYYY-MM-DD`.
pub open spec fn ymd_text(y: int, m: int, d: int) -> Seq<char> {
    ym_text(y, m) + seq!['-'] + two_digit_text(d)
}

/// Calls chrono's `NaiveDate::parse_from_str` with the format `%Y-%m-%d`.
/// Claimed: the result is the named one, and a date that comes back is one
/// that `NaiveDate` holds (its constructors admit no other). Also claimed, as
/// chrono's parser shows (`%Y` reads up to four digits when unsigned, `%m` and
/// `%d` up to two, a literal `-` missing at the end of the input is an error,
/// and a complete date is checked by `from_ymd_opt`):
/// - `YYYY-MM-DD` for a year from 0 to 9999 and a valid date reads as that date;
/// - `YYYY-MM` (any two digits) and `YYYY` alone read as nothing.
#[verifier::external_body]
fn parse_ymd(s: &str) -> (r: Option<(i32, u32, u32)>)
    ensures
        r == chrono_parse_ymd(s@),
        r matches Some(ymd) ==> is_chrono_date(ymd.0 as int, ymd.1 as int, ymd.2 as int),
        forall|y: int, m: int, d: int|
            0 <= y <= 9999 && is_valid_date(y, m, d) && s@ == #[trigger] ymd_text(y, m, d) ==> r
                == Some((y as i32, m as u32, d as u32)),
        forall|y: int, m: int|
            0 <= y <= 9999 && 0 <= m <= 99 && s@ == #[trigger] ym_text(y, m) ==> r is None,
        forall|y: int| 0 <= y <= 9999 && s@ == #[trigger] year_text(y) ==> r is None,
{
    match chrono::NaiveDate::parse_from_str(s, "%Y-%m-%d") {
        Ok(date) => Some((date.year(), date.month(), date.day())),
        Err(_) => None,
    }
}

/// Calls chrono's `NaiveDate::from_ymd_opt`, then `and_hms_opt(0, 0, 0)`,
/// `and_utc` and `timestamp`. Claimed, as chrono's source shows: there is a
/// result exactly for the days `NaiveDate` holds, and it is the count of days
/// since 1970-01-01 times 86400.
#[verifier::external_body]
fn midnight_utc(y: i32, m: u32, d: u32) -> (r: Option<i64>)
    ensures
        r is Some <==> is_chrono_date(y as int, m as int, d as int),
        r matches Some(t) ==> t == midnight_timestamp(y as int, m as int, d as int),
{
    let date = chrono::NaiveDate::from_ymd_opt(y, m, d)?;
    let datetime = date.and_hms_opt(0, 0, 0)?;
    Some(datetime.and_utc().timestamp())
}

/// The days of a year before a month are at most 31 for each month before it.
proof fn lemma_days_before_month_bound(y: int, m: int)
    requires
        1 <= m,
    ensures
        0 <= days_before_month(y, m) <= 31 * (m - 1),
    decreases m,
{
    if m > 1 {
        lemma_days_before_month_bound(y, m - 1);
    }
}

/// The midnight of every day that chrono holds lies well within `i64`.
pub proof fn lemma_midnight_timestamp_range(y: int, m: int, d: int)
    requires
        is_chrono_date(y, m, d),
    ensures
        -8_400_000_000_000 <= midnight_timestamp(y, m, d) <= 8_300_000_000_000,
        midnight_timestamp(y, m, d) % 86400 == 0,
{
    lemma_days_before_month_bound(y, m);
    let p: int = y - 1;
    assert(-65536 <= p / 4 <= 65535);
    assert(-2622 <= p / 100 <= 2621);
    assert(-656 <= p / 400 <= 655);
    let days: int = days_from_ce(y, m, d) - 719163;
    assert(-97_000_000 <= days <= 96_000_000);
    assert(midnight_timestamp(y, m, d) == days * 86400);
    assert((days * 86400) % 86400 == 0) by (nonlinear_arith);
    assert(-8_400_000_000_000 <= days * 86400 <= 8_300_000_000_000) by (nonlinear_arith)
        requires
            -97_000_000 <= days <= 96_000_000,
    ;
}

/// The day after `y-m-d`.
pub open spec fn next_day(y: int, m: int, d: int) -> (int, int, int) {
    if d < days_in_month(y, m) {
        (y, m, d + 1)
    } else if m < 12 {
        (y, m + 1, 1)
    } else {
        (y + 1, 1, 1)
    }
}

/// `y1-m1-d1` comes before `y2-m2-d2` in the calendar.
pub open spec fn date_before(y1: int, m1: int, d1: int, y2: int, m2: int, d2: int) -> bool {
    y1 < y2 || (y1 == y2 && (m1 < m2 || (m1 == m2 && d1 < d2)))
}

/// The days of all twelve months of a year: 366 in leap years, else 365.
proof fn lemma_year_length(y: int)
    ensures
        days_before_month(y, 13) == if is_leap_year(y) { 366int } else { 365int },
{
    reveal_with_fuel(days_before_month, 13);
}

/// A year starts as many days after the previous one as the previous one has.
proof fn lemma_days_before_next_year(y: int)
    ensures
        days_before_year(y + 1) == days_before_year(y) + days_before_month(y, 13),
{
    lemma_year_length(y);
    let p: int = y - 1;
    let q4: int = p / 4;
    let r4: int = p % 4;
    let q100: int = p / 100;
    let r100: int = p % 100;
    let q400: int = p / 400;
    let r400: int = p % 400;
    assert(y / 4 == if r4 == 3 { q4 + 1 } else { q4 });
    assert(y / 100 == if r100 == 99 { q100 + 1 } else { q100 });
    assert(y / 400 == if r400 == 399 { q400 + 1 } else { q400 });
    assert(y % 4 == 0 <==> r4 == 3);
    assert(y % 100 == 0 <==> r100 == 99);
    assert(y % 400 == 0 <==> r400 == 399);
}

/// The first days of later months come later: month `m` starts at least its
/// own length before month `m2` (for `m < m2`).
proof fn lemma_days_before_month_increases(y: int, m: int, m2: int)
    requires
        1 <= m < m2,
    ensures
        days_before_month(y, m) + days_in_month(y, m) <= days_before_month(y, m2),
    decreases m2 - m,
{
    if m + 1 < m2 {
        lemma_days_before_month_increases(y, m + 1, m2);
    }
}

/// Every day of year `y` comes before the first of January of year `y2 > y`.
proof fn lemma_day_before_later_year(y: int, m: int, d: int, y2: int)
    requires
        is_valid_date(y, m, d),
        y < y2,
    ensures
        days_from_ce(y, m, d) < days_before_year(y2) + 1,
    decreases y2 - y,
{
    lemma_days_before_next_year(y);
    if m < 12 {
        lemma_days_before_month_increases(y, m, 13);
    }
    if y + 1 < y2 {
        lemma_day_before_later_year(y + 1, 1, 1, y2);
    }
}

/// The day after a day of the calendar is a day of the calendar, one day later.
pub proof fn lemma_next_day(y: int, m: int, d: int)
    requires
        is_valid_date(y, m, d),
    ensures
        is_valid_date(next_day(y, m, d).0, next_day(y, m, d).1, next_day(y, m, d).2),
        days_from_ce(next_day(y, m, d).0, next_day(y, m, d).1, next_day(y, m, d).2) == days_from_ce(
            y,
            m,
            d,
        ) + 1,
        midnight_timestamp(next_day(y, m, d).0, next_day(y, m, d).1, next_day(y, m, d).2)
            == midnight_timestamp(y, m, d) + 86400,
{
    if d == days_in_month(y, m) && m == 12 {
        lemma_days_before_next_year(y);
        lemma_year_length(y);
        reveal_with_fuel(days_before_month, 13);
    }
}

/// Later days have later midnights.
pub proof fn lemma_midnight_increases(y1: int, m1: int, d1: int, y2: int, m2: int, d2: int)
    requires
        is_valid_date(y1, m1, d1),
        is_valid_date(y2, m2, d2),
        date_before(y1, m1, d1, y2, m2, d2),
    ensures
        midnight_timestamp(y1, m1, d1) < midnight_timestamp(y2, m2, d2),
{
    lemma_days_before_month_bound(y2, m2);
    if y1 < y2 {
        lemma_day_before_later_year(y1, m1, d1, y2);
    } else if m1 < m2 {
        lemma_days_before_month_increases(y1, m1, m2);
    }
    assert(days_from_ce(y1, m1, d1) < days_from_ce(y2, m2, d2));
}

/// The timestamp of midnight on the date `ymd`, if chrono holds that day.
pub open spec fn ymd_timestamp(ymd: Option<(i32, u32, u32)>) -> Option<i64> {
    match ymd {
        Some(ymd) => if is_chrono_date(ymd.0 as int, ymd.1 as int, ymd.2 as int) {
            Some(midnight_timestamp(ymd.0 as int, ymd.1 as int, ymd.2 as int) as i64)
        } else {
            None
        },
        None => None,
    }
}

/// The timestamp of the date that `chrono_parse_ymd` reads from `s`.
pub open spec fn full_date_timestamp(s: Seq<char>) -> Option<i64> {
    ymd_timestamp(chrono_parse_ymd(s))
}

/// The timestamp of the first of January of the year that `s` spells, if
/// chrono holds that day.
pub open spec fn year_timestamp(s: Seq<char>) -> Option<i64> {
    match parse_i32_spec(s) {
        Some(y) => if is_chrono_date(y as int, 1, 1) {
            Some(midnight_timestamp(y as int, 1, 1) as i64)
        } else {
            None
        },
        None => None,
    }
}

/// What `parse_date_to_timestamp` gives back: a full `YYYY-MM-DD` date first,
/// then a seven-byte `YYYY-MM` read as the first of that month, then a bare
/// year read as the first of January.
pub open spec fn date_timestamp(s: Seq<char>) -> Option<i64> {
    if full_date_timestamp(s) is Some {
        full_date_timestamp(s)
    } else if byte_length(s) == 7 && full_date_timestamp(s + seq!['-', '0', '1']) is Some {
        full_date_timestamp(s + seq!['-', '0', '1'])
    } else {
        year_timestamp(s)
    }
}

/// The length of the UTF-8 encoding of `s`, as `str::len` reports it.
pub open spec fn byte_length(s: Seq<char>) -> usize {
    vstd::utf8::encode_utf8(s).len() as usize
}

/// Every timestamp that `parse_date_to_timestamp` gives back is a midnight,
/// a whole number of days after the Unix epoch.
pub proof fn lemma_parsed_dates_are_midnights(s: Seq<char>)
    ensures
        date_timestamp(s) matches Some(t) ==> t % 86400 == 0,
{
    let padded = s + seq!['-', '0', '1'];
    if let Some(ymd) = chrono_parse_ymd(s) {
        if is_chrono_date(ymd.0 as int, ymd.1 as int, ymd.2 as int) {
            lemma_midnight_timestamp_range(ymd.0 as int, ymd.1 as int, ymd.2 as int);
        }
    }
    if let Some(ymd) = chrono_parse_ymd(padded) {
        if is_chrono_date(ymd.0 as int, ymd.1 as int, ymd.2 as int) {
            lemma_midnight_timestamp_range(ymd.0 as int, ymd.1 as int, ymd.2 as int);
        }
    }
    if let Some(y) = parse_i32_spec(s) {
        if is_chrono_date(y as int, 1, 1) {
            lemma_midnight_timestamp_range(y as int, 1, 1);
        }
    }
}

/// Release dates that chrono reads as full dates keep their order: a later
/// date parses to a later timestamp, and the day after a date parses to one
/// exactly 86400 seconds later.
pub proof fn lemma_parsed_dates_increase(a: Seq<char>, b: Seq<char>)
    requires
        chrono_parse_ymd(a) matches Some(da) && is_chrono_date(da.0 as int, da.1 as int, da.2 as int),
        chrono_parse_ymd(b) matches Some(db) && is_chrono_date(db.0 as int, db.1 as int, db.2 as int),
    ensures
        ({
            let da = chrono_parse_ymd(a)->0;
            let db = chrono_parse_ymd(b)->0;
            &&& date_timestamp(a) is Some
            &&& date_timestamp(b) is Some
            &&& date_before(da.0 as int, da.1 as int, da.2 as int, db.0 as int, db.1 as int, db.2 as int)
                ==> date_timestamp(a)->0 < date_timestamp(b)->0
            &&& next_day(da.0 as int, da.1 as int, da.2 as int) == (db.0 as int, db.1 as int, db.2 as int)
                ==> date_timestamp(b)->0 == date_timestamp(a)->0 + 86400
        }),
{
    let da = chrono_parse_ymd(a)->0;
    let db = chrono_parse_ymd(b)->0;
    let (y1, m1, d1) = (da.0 as int, da.1 as int, da.2 as int);
    let (y2, m2, d2) = (db.0 as int, db.1 as int, db.2 as int);
    lemma_midnight_timestamp_range(y1, m1, d1);
    lemma_midnight_timestamp_range(y2, m2, d2);
    if date_before(y1, m1, d1, y2, m2, d2) {
        lemma_midnight_increases(y1, m1, d1, y2, m2, d2);
    }
    if next_day(y1, m1, d1) == (y2, m2, d2) {
        lemma_next_day(y1, m1, d1);
    }
}

/// A decimal digit is an ASCII digit character of that value.
proof fn lemma_digit_char(k: int)
    requires
        0 <= k <= 9,
    ensures
        crate::text::is_digit(hex_char(k)),
        crate::text::digit_value(hex_char(k)) == k,
        hex_char(k) != '-' && hex_char(k) != '+',
        hex_char(k) <= '\u{7f}',
{
}

/// A four-digit year is ASCII, four bytes long, and reads back as its value.
proof fn lemma_year_text(y: int)
    requires
        0 <= y <= 9999,
    ensures
        vstd::utf8::is_ascii_chars(year_text(y)),
        byte_length(year_text(y)) == 4,
        parse_i32_spec(year_text(y)) == Some(y as i32),
{
    let t = year_text(y);
    lemma_digit_char(y / 1000);
    lemma_digit_char((y / 100) % 10);
    lemma_digit_char((y / 10) % 10);
    lemma_digit_char(y % 10);
    assert(vstd::utf8::is_ascii_chars(t));
    vstd::utf8::is_ascii_chars_encode_utf8(t);
    assert(all_digits(t));
    let t1 = t.drop_last().drop_last().drop_last();
    assert(t1 =~= seq![hex_char(y / 1000)]);
    assert(t1.drop_last() =~= Seq::<char>::empty());
    assert(digits_value(t1.drop_last()) == 0);
    assert(digits_value(t1) == y / 1000);
    assert(digits_value(t.drop_last().drop_last()) == (y / 1000) * 10 + (y / 100) % 10);
    assert(digits_value(t.drop_last()) == ((y / 1000) * 10 + (y / 100) % 10) * 10 + (y / 10) % 10);
    assert(digits_value(t) == y);
}

/// `YYYY-MM` is ASCII, seven bytes long, and is `YYYY-MM-01` without its last three characters.
proof fn lemma_ym_text(y: int, m: int)
    requires
        0 <= y <= 9999,
        0 <= m <= 99,
    ensures
        byte_length(ym_text(y, m)) == 7,
        ym_text(y, m) + seq!['-', '0', '1'] == ymd_text(y, m, 1),
{
    lemma_digit_char(y / 1000);
    lemma_digit_char((y / 100) % 10);
    lemma_digit_char((y / 10) % 10);
    lemma_digit_char(y % 10);
    lemma_digit_char(m / 10);
    lemma_digit_char(m % 10);
    lemma_digit_char(0);
    lemma_digit_char(1);
    let t = ym_text(y, m);
    assert(vstd::utf8::is_ascii_chars(t));
    vstd::utf8::is_ascii_chars_encode_utf8(t);
    assert(two_digit_text(1) =~= seq!['0', '1']);
    assert(t + seq!['-', '0', '1'] =~= ymd_text(y, m, 1));
}

/// The timestamp of the date `ymd` that chrono read, if chrono holds that day.
pub fn timestamp_of_parts(ymd: Option<(i32, u32, u32)>) -> (r: Option<i64>)
    ensures
        r == ymd_timestamp(ymd),
{
    match ymd {
        Some(parts) => midnight_utc(parts.0, parts.1, parts.2),
        None => None,
    }
}

/// Parses a release date as Spotify gives it ("2023-10-27", "2023-10" or
/// "2023") into the Unix timestamp of midnight UTC on that day. For years
/// from 0 to 9999, `YYYY-MM` gives what `YYYY-MM-01` gives, and `YYYY` what
/// `YYYY-01-01` gives.
pub fn parse_date_to_timestamp(date_str: &str) -> (r: Option<i64>)
    ensures
        r == date_timestamp(date_str@),
        forall|y: int, m: int, d: int|
            0 <= y <= 9999 && is_valid_date(y, m, d) && date_str@ == #[trigger] ymd_text(y, m, d)
                ==> r == Some(midnight_timestamp(y, m, d) as i64),
        forall|y: int, m: int|
            0 <= y <= 9999 && 1 <= m <= 12 && date_str@ == #[trigger] ym_text(y, m) ==> r == Some(
                midnight_timestamp(y, m, 1) as i64,
            ),
        forall|y: int|
            0 <= y <= 9999 && date_str@ == #[trigger] year_text(y) ==> r == Some(
                midnight_timestamp(y, 1, 1) as i64,
            ),
{
    let full = timestamp_of_parts(parse_ymd(date_str));
    let mut r = full;
    let ghost mut tried_month = false;
    if r.is_none() && date_str.len() == 7 {
        let mut padded = String::from_str(date_str);
        padded.append("-01");
        proof {
            reveal_strlit("-01");
            assert(padded@ =~= date_str@ + seq!['-', '0', '1']);
            tried_month = true;
        }
        r = timestamp_of_parts(parse_ymd(padded.as_str()));
        proof {
            assert forall|y: int, m: int|
                0 <= y <= 9999 && 1 <= m <= 12 && date_str@ == #[trigger] ym_text(y, m) implies r
                    == Some(midnight_timestamp(y, m, 1) as i64) by {
                lemma_ym_text(y, m);
                assert(padded@ == ymd_text(y, m, 1));
            }
        }
    }
    assert(tried_month ==> forall|y: int, m: int|
        0 <= y <= 9999 && 1 <= m <= 12 && date_str@ == #[trigger] ym_text(y, m) ==> r == Some(
            midnight_timestamp(y, m, 1) as i64,
        ));
    if r.is_none() {
        r = match parse_i32(date_str) {
            Some(year) => midnight_utc(year, 1, 1),
            None => None,
        };
    }
    proof {
        assert forall|y: int, m: int, d: int|
            0 <= y <= 9999 && is_valid_date(y, m, d) && date_str@ == #[trigger] ymd_text(y, m, d)
                implies r == Some(midnight_timestamp(y, m, d) as i64) by {
            assert(chrono_parse_ymd(date_str@) == Some((y as i32, m as u32, d as u32)));
        }
        assert forall|y: int, m: int|
            0 <= y <= 9999 && 1 <= m <= 12 && date_str@ == #[trigger] ym_text(y, m) implies r
                == Some(midnight_timestamp(y, m, 1) as i64) by {
            lemma_ym_text(y, m);
            assert(chrono_parse_ymd(date_str@) is None);
            assert(tried_month);
        }
        assert forall|y: int| 0 <= y <= 9999 && date_str@ == #[trigger] year_text(y) implies r
            == Some(midnight_timestamp(y, 1, 1) as i64) by {
            lemma_year_text(y);
            assert(chrono_parse_ymd(date_str@) is None);
        }
    }
    r
}

} // verus!
