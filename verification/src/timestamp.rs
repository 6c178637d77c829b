//! Placing timepoints on the seconds timeline, the duration string of an
//! interval, and the relative day-window filter that decides which events
//! are emitted.

use vstd::prelude::*;

use crate::numfmt::{push_pad2, push_u64_decimal, spec_int_string, spec_nat_string, spec_pad2};
use crate::org::{valid_ymd, Timepoint};
use vstd::arithmetic::div_mod::lemma_fundamental_div_mod;
use vstd::string::StringExecFns;

verus! {

/// The day number of a calendar date, counted from the Unix epoch; what the
/// calendar library computes from the proleptic-Gregorian calendar.
pub uninterp spec fn epoch_day_of(year: int, month: int, day: int) -> int;

/// Where a timepoint lies on the seconds timeline: its day number times
/// 86400 plus its seconds within the day, a missing time of day counting as
/// midnight.
pub open spec fn point_epoch_seconds(p: Timepoint) -> int {
    epoch_day_of(p.year as int, p.month as int, p.day as int) * 86400 + (match p.time {
        Some(t) => t.hour as int * 3600 + t.minute as int * 60,
        None => 0,
    })
}

/// Relies on chrono's `NaiveDate::from_ymd_opt`, `NaiveDate::and_hms_opt` and
/// `DateTime::<Utc>::timestamp`: for a real calendar date the constructors
/// succeed, and the timestamp counts non-leap seconds since the Unix epoch as
/// the date's day number times 86400 plus the seconds within the day.
#[verifier::external_body]
fn ymd_hm_to_epoch_seconds(year: u16, month: u8, day: u8, hour: u8, minute: u8) -> (r: i64)
    requires
        valid_ymd(year as int, month as int, day as int),
        hour < 24,
        minute < 60,
    ensures
        r == epoch_day_of(year as int, month as int, day as int) * 86400 + hour as int * 3600
            + minute as int * 60,
{
    let date = chrono::NaiveDate::from_ymd_opt(year as i32, month as u32, day as u32).unwrap();
    let dt = date.and_hms_opt(hour as u32, minute as u32, 0).unwrap();
    dt.and_utc().timestamp()
}

/// The seconds-timeline position of a timepoint, a missing time of day
/// counting as midnight.
fn timepoint_to_epoch_seconds(p: &Timepoint) -> (r: i64)
    requires
        p.wf(),
    ensures
        r == point_epoch_seconds(*p),
{
    match p.time {
        Some(t) => ymd_hm_to_epoch_seconds(p.year, p.month, p.day, t.hour, t.minute),
        None => ymd_hm_to_epoch_seconds(p.year, p.month, p.day, 0, 0),
    }
}

/// Division rounding toward zero, as the machine's signed division does.
pub open spec fn trunc_div(a: int, b: int) -> int {
    if a >= 0 {
        a / b
    } else {
        -((-a) / b)
    }
}

/// Whole hours of a signed interval of seconds, rounded toward zero.
pub open spec fn spec_duration_hours(secs: int) -> int {
    trunc_div(secs, 3600)
}

/// Whole minutes left over after the whole hours, rounded toward zero.
pub open spec fn spec_duration_minutes(secs: int) -> int {
    trunc_div(secs - spec_duration_hours(secs) * 3600, 60)
}

/// The duration string: hours unpadded and not wrapped into days, minutes
/// zero-padded to two characters, a literal `00` seconds field.
pub open spec fn spec_duration_string(secs: int) -> Seq<char> {
    spec_int_string(spec_duration_hours(secs)) + seq![':'] + spec_pad2(spec_duration_minutes(secs))
        + seq![':', '0', '0']
}

/// Renders a signed interval of seconds as the duration string.
fn format_duration(diff: i128) -> (r: String)
    requires
        -0xffff_ffff_ffff_ffff <= diff <= 0xffff_ffff_ffff_ffff,
    ensures
        r@ == spec_duration_string(diff as int),
{
    let neg: bool = diff < 0;
    let mag: u64 = if neg {
        (-diff) as u64
    } else {
        diff as u64
    };
    let hmag: u64 = mag / 3600;
    let rem: u64 = mag % 3600;
    let mmag: u64 = rem / 60;
    proof {
        lemma_fundamental_div_mod(mag as int, 3600);
        if neg {
            assert(spec_duration_hours(diff as int) == -(hmag as int));
            assert(diff as int - spec_duration_hours(diff as int) * 3600 == -(rem as int));
            assert(spec_duration_minutes(diff as int) == -(mmag as int));
        } else {
            assert(spec_duration_hours(diff as int) == hmag as int);
            assert(diff as int - spec_duration_hours(diff as int) * 3600 == rem as int);
            assert(spec_duration_minutes(diff as int) == mmag as int);
        }
    }
    let mut s = String::new();
    if neg && hmag > 0 {
        s.append("-");
    }
    push_u64_decimal(&mut s, hmag);
    proof {
        reveal_strlit("-");
        assert("-"@ =~= seq!['-']);
        assert(s@ =~= spec_int_string(spec_duration_hours(diff as int)));
    }
    s.append(":");
    if neg && mmag > 0 {
        s.append("-");
        push_u64_decimal(&mut s, mmag);
    } else {
        push_pad2(&mut s, mmag);
    }
    s.append(":00");
    proof {
        reveal_strlit(":");
        reveal_strlit(":00");
        assert(":"@ =~= seq![':']);
        assert(":00"@ =~= seq![':', '0', '0']);
        assert(s@ =~= spec_duration_string(diff as int));
    }
    s
}

/// The elapsed time from `start` to `end` formatted as the duration string
/// `hours:minutes:00`; negative when `end` precedes `start`, which malformed
/// input may produce, and which is passed through rather than guarded.
pub fn datetime_duration(start: &Timepoint, end: &Timepoint) -> (r: String)
    requires
        start.wf(),
        end.wf(),
    ensures
        r@ == spec_duration_string(point_epoch_seconds(*end) - point_epoch_seconds(*start)),
{
    let a = timepoint_to_epoch_seconds(start);
    let b = timepoint_to_epoch_seconds(end);
    let diff: i128 = (b as i128) - (a as i128);
    format_duration(diff)
}

/// Whole days elapsed from one timeline position to another, the fraction
/// rounded toward zero.
pub open spec fn spec_days_elapsed(from_secs: int, to_secs: int) -> int {
    trunc_div(to_secs - from_secs, 86400)
}

/// The point lies at least `ndays` whole days in the past; never true when
/// `ndays` is not positive.
pub open spec fn spec_too_old(point_secs: int, ndays: int, now_secs: int) -> bool {
    ndays > 0 && spec_days_elapsed(point_secs, now_secs) >= ndays
}

/// The point lies at least `ndays` whole days in the future; never true when
/// `ndays` is not positive.
pub open spec fn spec_too_far_future(point_secs: int, ndays: int, now_secs: int) -> bool {
    ndays > 0 && spec_days_elapsed(now_secs, point_secs) >= ndays
}

/// The point falls within the inclusion window around `now`.
pub open spec fn spec_within_window(point_secs: int, before_ndays: int, after_ndays: int, now_secs: int) -> bool {
    !spec_too_old(point_secs, before_ndays, now_secs) && !spec_too_far_future(
        point_secs,
        after_ndays,
        now_secs,
    )
}

/// Division of a signed interval by 86400, rounded toward zero.
fn trunc_div_days(dur: i128) -> (r: i128)
    requires
        -0x3_ffff_ffff_ffff_ffff < dur < 0x3_ffff_ffff_ffff_ffff,
    ensures
        r == trunc_div(dur as int, 86400),
{
    if dur >= 0 {
        (((dur as u128) / 86400) as i128)
    } else {
        -((((-dur) as u128) / 86400) as i128)
    }
}

fn date_is_n_days_before_now(point_secs: i64, ndays: i64, now_secs: i64) -> (r: bool)
    ensures
        r == spec_too_old(point_secs as int, ndays as int, now_secs as int),
{
    if ndays <= 0 {
        return false;
    }
    let dur: i128 = (now_secs as i128) - (point_secs as i128);
    let days: i128 = trunc_div_days(dur);
    days >= (ndays as i128)
}

fn date_is_n_days_after_now(point_secs: i64, ndays: i64, now_secs: i64) -> (r: bool)
    ensures
        r == spec_too_far_future(point_secs as int, ndays as int, now_secs as int),
{
    if ndays <= 0 {
        return false;
    }
    let dur: i128 = (point_secs as i128) - (now_secs as i128);
    let days: i128 = trunc_div_days(dur);
    days >= (ndays as i128)
}

/// Whether `start` falls within the inclusion window: not `before_ndays` or
/// more whole days before `now`, and not `after_ndays` or more whole days
/// after it; a bound that is zero or negative does not restrict.
pub fn date_is_n_days_before_or_after_now(
    start: &Timepoint,
    before_ndays: i64,
    after_ndays: i64,
    now_epoch_seconds: i64,
) -> (r: bool)
    requires
        start.wf(),
    ensures
        r == spec_within_window(
            point_epoch_seconds(*start),
            before_ndays as int,
            after_ndays as int,
            now_epoch_seconds as int,
        ),
{
    let secs = timepoint_to_epoch_seconds(start);
    !date_is_n_days_before_now(secs, before_ndays, now_epoch_seconds)
        && !date_is_n_days_after_now(secs, after_ndays, now_epoch_seconds)
}

/// With both bounds zero or negative, every timepoint is included.
pub proof fn lemma_window_unbounded(point_secs: int, before_ndays: int, after_ndays: int, now_secs: int)
    requires
        before_ndays <= 0,
        after_ndays <= 0,
    ensures
        spec_within_window(point_secs, before_ndays, after_ndays, now_secs),
{
}

/// With no lower bound and an upper bound of one day, a point exactly
/// twenty-four hours and one minute in the future is excluded.
pub proof fn lemma_window_future_cutoff(now_secs: int)
    ensures
        !spec_within_window(now_secs + 86460, 0, 1, now_secs),
{
    assert(spec_days_elapsed(now_secs, now_secs + 86460) == 1);
}

/// With a lower bound of one day and no upper bound, a point exactly
/// twenty-four hours in the past is excluded.
pub proof fn lemma_window_past_cutoff(now_secs: int)
    ensures
        !spec_within_window(now_secs - 86400, 1, 0, now_secs),
{
    assert(spec_days_elapsed(now_secs - 86400, now_secs) == 1);
}

/// The duration string's minutes field is exactly two characters for any
/// non-negative interval.
pub proof fn lemma_duration_minutes_two_digits(secs: int)
    requires
        secs >= 0,
    ensures
        0 <= spec_duration_minutes(secs) < 60,
        spec_pad2(spec_duration_minutes(secs)).len() == 2,
{
    lemma_fundamental_div_mod(secs, 3600);
    assert(spec_duration_minutes(secs) == (secs % 3600) / 60);
    crate::numfmt::lemma_pad2_two_digits(spec_duration_minutes(secs));
}

} // verus!
