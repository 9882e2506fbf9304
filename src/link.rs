//! Timetable links: decimal numbers, the ISO week of a date, and the URL itself.
use vstd::prelude::*;
use crate::text::{literal, strip_quotes, without_quotes};
use chrono::Datelike;

verus! {

/// The decimal digit `d`, for `d` below ten.
pub open spec fn digit(d: nat) -> char {
    seq!['0', '1', '2', '3', '4', '5', '6', '7', '8', '9'][d as int]
}

/// The decimal digits of `n`, without leading zeros.
pub open spec fn decimal(n: nat) -> Seq<char>
    decreases n,
{
    if n < 10 {
        seq![digit(n)]
    } else {
        decimal(n / 10).push(digit(n % 10))
    }
}

/// The decimal form of `n`, with a leading `-` when it is negative.
pub open spec fn signed_decimal(n: int) -> Seq<char> {
    if n < 0 {
        "-"@ + decimal((-n) as nat)
    } else {
        decimal(n as nat)
    }
}

/// The timetable URL for a site group identifier, a calendar year and an ISO week.
pub open spec fn link_text(id: Seq<char>, year: int, week: int) -> Seq<char> {
    "https://edt.iut-orsay.fr/vue_invite_horizontale.php?current_year="@ + signed_decimal(year)
        + "&current_week="@ + signed_decimal(week) + "&groupes_multi%5B%5D="@ + id
        + "&lar=1920&hau=1200"@
}

/// The decimal digits of `n`.
pub fn decimal_string(n: u64) -> (r: String)
    ensures
        r@ == decimal(n as nat),
    decreases n,
{
    let digits = "0123456789";
    proof {
        reveal_strlit("0123456789");
        assert(digits@ =~= seq!['0', '1', '2', '3', '4', '5', '6', '7', '8', '9']);
    }
    let d = (n % 10) as usize;
    let last = digits.substring_char(d, d + 1);
    assert(last@ =~= seq![digit(d as nat)]);
    if n < 10 {
        literal(last)
    } else {
        let mut s = decimal_string(n / 10);
        s.append(last);
        assert(s@ =~= decimal((n / 10) as nat).push(digit((n % 10) as nat)));
        s
    }
}

/// The decimal form of `n`, with a leading `-` when it is negative.
pub fn signed_decimal_string(n: i64) -> (r: String)
    ensures
        r@ == signed_decimal(n as int),
{
    if n < 0 {
        let magnitude: u64 = if n == i64::MIN {
            9223372036854775808u64
        } else {
            (-n) as u64
        };
        literal("-").concat(decimal_string(magnitude).as_str())
    } else {
        decimal_string(n as u64)
    }
}

/// The timetable URL of the site group `id` for `year` and ISO `week`.
/// Double quotes are removed from `id`; nothing else in it is escaped.
pub fn get_link(id: &str, year: i32, week: u32) -> (r: String)
    ensures
        r@ == link_text(without_quotes(id@), year as int, week as int),
{
    let clean = strip_quotes(id);
    let mut s = literal("https://edt.iut-orsay.fr/vue_invite_horizontale.php?current_year=");
    s.append(signed_decimal_string(year as i64).as_str());
    s.append("&current_week=");
    s.append(signed_decimal_string(week as i64).as_str());
    s.append("&groupes_multi%5B%5D=");
    s.append(clean.as_str());
    s.append("&lar=1920&hau=1200");
    s
}

/// The earliest and latest years that a calendar date can have.
pub const MIN_DATE_YEAR: i32 = -262143;
pub const MAX_DATE_YEAR: i32 = 262142;

pub open spec fn is_leap_year(year: int) -> bool {
    (year % 4 == 0 && year % 100 != 0) || year % 400 == 0
}

pub open spec fn days_in_month(year: int, month: int) -> int {
    if month == 2 {
        if is_leap_year(year) { 29 } else { 28 }
    } else if month == 4 || month == 6 || month == 9 || month == 11 {
        30
    } else {
        31
    }
}

/// A day of the proleptic Gregorian calendar within the years that dates can have.
pub open spec fn is_valid_date(year: int, month: int, day: int) -> bool {
    MIN_DATE_YEAR <= year <= MAX_DATE_YEAR && 1 <= month <= 12 && 1 <= day <= days_in_month(
        year,
        month,
    )
}

/// What `chrono` gives as the ISO 8601 week number of a date.
pub uninterp spec fn iso_week_number(year: int, month: int, day: int) -> int;

/// Relies on `chrono::NaiveDate::from_ymd_opt`, which gives a date exactly for
/// the valid days between years -262143 and 262142, and on `IsoWeek::week`,
/// whose result lies between 1 and 53.
#[verifier::external_body]
fn chrono_iso_week(year: i32, month: u32, day: u32) -> (r: Option<u32>)
    ensures
        r is Some <==> is_valid_date(year as int, month as int, day as int),
        r matches Some(w) ==> w == iso_week_number(year as int, month as int, day as int) && 1
            <= w <= 53,
{
    match chrono::NaiveDate::from_ymd_opt(year, month, day) {
        Some(d) => Some(d.iso_week().week()),
        None => None,
    }
}

/// The ISO week number of a date, or `None` when the date does not exist.
pub fn iso_week_of_date(year: i32, month: u32, day: u32) -> (r: Option<u32>)
    ensures
        r is Some <==> is_valid_date(year as int, month as int, day as int),
        r matches Some(w) ==> w == iso_week_number(year as int, month as int, day as int) && 1
            <= w <= 53,
{
    chrono_iso_week(year, month, day)
}

} // verus!
