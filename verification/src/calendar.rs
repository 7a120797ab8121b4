//! Days and weeks of the calendar.
//!
//! The shop counts what is bought per day and per week, by the clock on the wall. The
//! key of a day or a week comes from the calendar of the `chrono` crate: what a local
//! clock shows is read as a moment in universal time.

use crate::text;
use chrono::{Datelike, TimeZone, Utc};
use vstd::prelude::*;

verus! {

/// The earliest moment that the calendar holds, in milliseconds since 1970.
pub const FIRST_MS: i64 = -8334601228800000;

/// The latest moment that the calendar holds, in milliseconds since 1970.
pub const LAST_MS: i64 = 8210266876799999;

/// The pattern of the key of a day: year, month and day of the month.
pub const DAY_PATTERN: &'static str = "%Y-%m-%d";

/// A moment in universal time, as `chrono` writes it in a pattern.
pub uninterp spec fn utc_text(at_ms: i64, pattern: Seq<char>) -> Option<Seq<char>>;

/// The year and the number of the ISO week of a moment in universal time.
pub uninterp spec fn utc_iso_week(at_ms: i64) -> Option<(i32, u32)>;

/// A moment as text, from `chrono`: `Utc.timestamp_millis_opt` with `format`. There is a
/// text exactly for the moments that the calendar holds. What it is for a given moment
/// is left to `chrono`. Only the pattern of days is asked for: with a pattern that
/// `chrono` does not know, writing the text would panic.
#[verifier::external_body]
fn chrono_text(at_ms: i64, pattern: &str) -> (r: Option<String>)
    requires
        pattern@ == DAY_PATTERN@,
    ensures
        r is Some <==> FIRST_MS <= at_ms <= LAST_MS,
        r is Some <==> utc_text(at_ms, pattern@) is Some,
        r matches Some(words) ==> utc_text(at_ms, pattern@) == Some(words@),
{
    Utc.timestamp_millis_opt(at_ms).single().map(|moment| moment.format(pattern).to_string())
}

/// The ISO week of a moment, from `chrono`: `Utc.timestamp_millis_opt` with
/// `Datelike::iso_week`. There is one exactly for the moments that the calendar holds,
/// and weeks are numbered from 1 to 53. Which week a given moment lies in is left to
/// `chrono`.
#[verifier::external_body]
fn chrono_iso_week(at_ms: i64) -> (r: Option<(i32, u32)>)
    ensures
        r is Some <==> FIRST_MS <= at_ms <= LAST_MS,
        r == utc_iso_week(at_ms),
        r matches Some(week) ==> 1 <= week.1 <= 53,
{
    Utc.timestamp_millis_opt(at_ms).single().map(
        |moment| (moment.iso_week().year(), moment.iso_week().week()),
    )
}

/// The key of a day: its date, or the first day of 1970 without one.
pub open spec fn day_key(date: Option<Seq<char>>) -> Seq<char> {
    match date {
        Some(d) => d,
        None => "1970-01-01"@,
    }
}

/// The key of a week: the year and the two digits of the number, or the first week of
/// 1970 without one.
pub open spec fn week_key(week: Option<(i32, u32)>) -> Seq<char> {
    let (year, number) = match week {
        Some(w) => w,
        None => (1970i32, 1u32),
    };
    crate::text::integer(year as int) + "-W"@ + crate::text::two_digits(number as nat)
}

/// The key of a day.
pub fn day_key_of(date: Option<String>) -> (r: String)
    ensures
        r@ == day_key(crate::bridge::settings::maybe_text(date)),
{
    match date {
        Some(d) => d,
        None => "1970-01-01".to_owned(),
    }
}

/// The key of a week.
pub fn week_key_of(week: Option<(i32, u32)>) -> (r: String)
    ensures
        r@ == week_key(week),
{
    let (year, number): (i32, u32) = match week {
        Some(w) => w,
        None => (1970, 1),
    };
    let mut r: String = text::integer_text(year as i64);
    r.append("-W");
    r.append(text::two_digit_text(number as u64).as_str());
    r
}

/// What a local clock shows, `offset_ms` ahead of universal time, as a moment; held to
/// the moments that can be numbered.
pub open spec fn shifted(at_ms: i64, offset_ms: i64) -> i64 {
    if at_ms + offset_ms > i64::MAX {
        i64::MAX
    } else if at_ms + offset_ms < i64::MIN {
        i64::MIN
    } else {
        (at_ms + offset_ms) as i64
    }
}

/// What a local clock shows, as a moment.
fn local_clock(at_ms: i64, offset_ms: i64) -> (r: i64)
    ensures
        r == shifted(at_ms, offset_ms),
{
    match at_ms.checked_add(offset_ms) {
        Some(moment) => moment,
        None => if offset_ms > 0 {
            i64::MAX
        } else {
            i64::MIN
        },
    }
}

/// The key of the local day in which a moment lies, where local clocks are `offset_ms`
/// ahead of universal time.
pub fn local_day_key(at_ms: i64, offset_ms: i64) -> (r: String)
    ensures
        r@ == day_key(utc_text(shifted(at_ms, offset_ms), DAY_PATTERN@)),
        !(FIRST_MS <= at_ms + offset_ms <= LAST_MS) ==> r@ == "1970-01-01"@,
{
    let moment: i64 = local_clock(at_ms, offset_ms);
    let date: Option<String> = chrono_text(moment, DAY_PATTERN);
    proof {
        assert(crate::bridge::settings::maybe_text(date) == utc_text(moment, DAY_PATTERN@));
    }
    day_key_of(date)
}

/// The key of the local week in which a moment lies, where local clocks are `offset_ms`
/// ahead of universal time.
pub fn local_week_key(at_ms: i64, offset_ms: i64) -> (r: String)
    ensures
        r@ == week_key(utc_iso_week(shifted(at_ms, offset_ms))),
        !(FIRST_MS <= at_ms + offset_ms <= LAST_MS) ==> r@ == week_key(None),
{
    week_key_of(chrono_iso_week(local_clock(at_ms, offset_ms)))
}

/// The local day and week depend on what the local clock shows and on nothing else: two
/// moments that local clocks show alike have the same keys.
pub proof fn lemma_local_clock_decides(a: i64, b: i64, offset_a: i64, offset_b: i64)
    requires
        a + offset_a == b + offset_b,
    ensures
        day_key(utc_text(shifted(a, offset_a), DAY_PATTERN@)) == day_key(
            utc_text(shifted(b, offset_b), DAY_PATTERN@),
        ),
        week_key(utc_iso_week(shifted(a, offset_a))) == week_key(
            utc_iso_week(shifted(b, offset_b)),
        ),
        shifted(a, 0) == a,
{
}

/// Weeks that differ in year or number have different keys.
pub proof fn lemma_week_keys_differ(a: (i32, u32), b: (i32, u32))
    requires
        0 <= a.0,
        0 <= b.0,
        1 <= a.1 <= 53,
        1 <= b.1 <= 53,
        week_key(Some(a)) == week_key(Some(b)),
    ensures
        a == b,
{
    reveal_strlit("-W");
    let (x, y) = (week_key(Some(a)), week_key(Some(b)));
    let (ya, yb) = (crate::text::integer(a.0 as int), crate::text::integer(b.0 as int));
    let (na, nb) = (crate::text::two_digits(a.1 as nat), crate::text::two_digits(b.1 as nat));
    lemma_two_digits(a.1);
    lemma_two_digits(b.1);
    assert(x.len() == ya.len() + 4 && y.len() == yb.len() + 4);
    assert(ya =~= x.subrange(0, x.len() - 4));
    assert(yb =~= y.subrange(0, y.len() - 4));
    assert(na =~= x.subrange(x.len() - 2, x.len() as int));
    assert(nb =~= y.subrange(y.len() - 2, y.len() as int));
    crate::text::lemma_decimal_differs(a.0 as nat, b.0 as nat);
    assert(na[0] == nb[0] && na[1] == nb[1]);
}

proof fn lemma_two_digits(n: u32)
    requires
        n <= 53,
    ensures
        crate::text::two_digits(n as nat) == seq![
            crate::text::digit(n as int / 10),
            crate::text::digit(n as int % 10),
        ],
{
    reveal_with_fuel(crate::text::decimal, 2);
    assert(crate::text::two_digits(n as nat) =~= seq![
        crate::text::digit(n as int / 10),
        crate::text::digit(n as int % 10),
    ]);
}

/// A local clock that is ahead shows as much more; where the sum cannot be numbered, the end of
/// the numbers on that side.
pub proof fn lemma_clocks_ahead_show_more(at_ms: i64, offset_ms: i64)
    ensures
        i64::MIN <= at_ms + offset_ms <= i64::MAX ==> shifted(at_ms, offset_ms) - at_ms == offset_ms,
        at_ms + offset_ms > i64::MAX ==> shifted(at_ms, offset_ms) == i64::MAX,
        at_ms + offset_ms < i64::MIN ==> shifted(at_ms, offset_ms) == i64::MIN,
        offset_ms >= 0 ==> shifted(at_ms, offset_ms) >= at_ms,
        offset_ms <= 0 ==> shifted(at_ms, offset_ms) <= at_ms,
{
}

/// The key of a day is its date. Without one it is the first day of 1970, and the key of a week
/// without one is that of the week of this day.
pub proof fn lemma_missing_dates(date: Seq<char>)
    ensures
        day_key(Some(date)) == date,
        day_key(None) == "1970-01-01"@,
        week_key(None) == week_key(Some((1970i32, 1u32))),
{
}

/// The key of a week of a year is the year, a hyphen, a `W`, and two digits, and the digits
/// stand for the year and the week.
pub proof fn lemma_week_keys_are_readable(year: i32, week: u32)
    requires
        0 <= year,
        1 <= week <= 53,
    ensures
        ({
            let key = week_key(Some((year, week)));
            let at = key.len() - 4;
            &&& at > 0
            &&& crate::text::number(key.subrange(0, at)) == year
            &&& key[at] == '-' && key[at + 1] == 'W'
            &&& crate::text::number(key.subrange(at + 2, at + 4)) == week
        }),
{
    reveal_strlit("-W");
    let key = week_key(Some((year, week)));
    let y = crate::text::integer(year as int);
    let n = crate::text::two_digits(week as nat);
    crate::text::lemma_digits_stand_for_the_number(year as nat);
    crate::text::lemma_digits_stand_for_the_number(week as nat);
    assert(key.subrange(0, y.len() as int) =~= y);
    let at = y.len() as int;
    assert(key.subrange(at + 2, at + 4) =~= n);
}

} // verus!
