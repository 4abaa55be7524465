//! Texts the popup shows: when the data was last updated, when a limit
//! resets, and the refresh intervals offered.
use vstd::prelude::*;
use vstd::string::StringExecFns;

use crate::text::{nat_text, push_decimal};
use crate::usage_state::valid_wall_time;

verus! {

/// The Unix timestamp (seconds, and nanoseconds past that second) of the
/// RFC 3339 date-time `text`; `None` when the text is not one.
pub uninterp spec fn rfc3339_timestamp(text: Seq<char>) -> Option<(i64, u32)>;

/// `chrono::DateTime::parse_from_rfc3339`, then `timestamp` and
/// `timestamp_subsec_nanos` of the result. Chrono's years lie within
/// ±262,143, so the seconds are well under 10^13 in size; the nanoseconds
/// stay below 2·10^9 (they pass 999,999,999 only within a leap second).
#[verifier::external_body]
fn parse_rfc3339(text: &str) -> (r: Option<(i64, u32)>)
    ensures
        r == rfc3339_timestamp(text@),
        r matches Some((secs, nanos)) ==> -10_000_000_000_000 < secs < 10_000_000_000_000 && nanos
            < 2_000_000_000,
{
    chrono::DateTime::parse_from_rfc3339(text).ok().map(|dt| (dt.timestamp(), dt.timestamp_subsec_nanos()))
}

/// "s" unless there is exactly one.
pub open spec fn plural(n: int) -> Seq<char> {
    if n != 1 {
        "s"@
    } else {
        ""@
    }
}

/// The footer text for data last updated at wall-clock time `last`, read at
/// `now` (both in nanoseconds since the Unix epoch).
pub open spec fn updated_ago_spec(last: int, now: int) -> Seq<char> {
    if now < last {
        "Last updated: just now"@
    } else {
        let secs = (now - last) / 1_000_000_000;
        if secs < 60 {
            "Last updated: just now"@
        } else if secs < 3600 {
            let m = secs / 60;
            "Last updated: "@ + nat_text(m as nat) + " minute"@ + plural(m) + " ago"@
        } else {
            let h = secs / 3600;
            "Last updated: "@ + nat_text(h as nat) + " hour"@ + plural(h) + " ago"@
        }
    }
}

/// How long ago the data was last updated, in whole minutes or hours.
pub fn updated_ago(last: i128, now: i128) -> (r: String)
    requires
        valid_wall_time(last),
        valid_wall_time(now),
    ensures
        r@ == updated_ago_spec(last as int, now as int),
{
    if now < last {
        return String::from_str("Last updated: just now");
    }
    let diff: i128 = now - last;
    let secs: u64 = (diff / 1_000_000_000) as u64;
    if secs < 60 {
        String::from_str("Last updated: just now")
    } else if secs < 3600 {
        let m = secs / 60;
        let mut out = String::from_str("Last updated: ");
        push_decimal(&mut out, m);
        out.append(" minute");
        out.append(if m != 1 {
            "s"
        } else {
            ""
        });
        out.append(" ago");
        out
    } else {
        let h = secs / 3600;
        let mut out = String::from_str("Last updated: ");
        push_decimal(&mut out, h);
        out.append(" hour");
        out.append(if h != 1 {
            "s"
        } else {
            ""
        });
        out.append(" ago");
        out
    }
}

/// The reset text for a limit that resets `secs` seconds from now.
pub open spec fn resets_in_spec(secs: int) -> Seq<char> {
    if secs <= 0 {
        "Resetting..."@
    } else {
        let m = (secs / 60) % 60;
        let h = secs / 3600;
        if h >= 24 {
            "Resets in "@ + nat_text((h / 24) as nat) + "d "@ + nat_text((h % 24) as nat) + "h"@
        } else if h > 0 {
            "Resets in "@ + nat_text(h as nat) + " hr "@ + nat_text(m as nat) + " min"@
        } else {
            "Resets in "@ + nat_text(m as nat) + " min"@
        }
    }
}

/// Whole seconds from `now` to the instant `secs`+`nanos`, rounded toward
/// zero.
pub open spec fn seconds_until(secs: i64, nanos: u32, now: int) -> int {
    let d = secs * 1_000_000_000 + nanos - now;
    if d >= 0 {
        d / 1_000_000_000
    } else {
        -((-d) / 1_000_000_000)
    }
}

/// The text for a limit that resets at the RFC 3339 time `resets_at`, read
/// at wall-clock time `now`: empty when there is no time or it is not valid.
pub open spec fn time_left_spec(resets_at: Option<Seq<char>>, now: int) -> Seq<char> {
    match resets_at {
        None => Seq::empty(),
        Some(s) => match rfc3339_timestamp(s) {
            None => Seq::empty(),
            Some((secs, nanos)) => resets_in_spec(seconds_until(secs, nanos, now)),
        },
    }
}

/// How long until a limit resets.
pub fn time_left(resets_at: Option<&str>, now: i128) -> (r: String)
    requires
        valid_wall_time(now),
    ensures
        r@ == time_left_spec(
            match resets_at {
                Some(s) => Some(s@),
                None => None,
            },
            now as int,
        ),
{
    let s = match resets_at {
        Some(s) => s,
        None => {
            return String::new();
        },
    };
    let (secs, nanos) = match parse_rfc3339(s) {
        Some(t) => t,
        None => {
            return String::new();
        },
    };
    let d: i128 = secs as i128 * 1_000_000_000 + nanos as i128 - now;
    if d < 1_000_000_000 {
        return String::from_str("Resetting...");
    }
    let total: u64 = (d / 1_000_000_000) as u64;
    let m = (total / 60) % 60;
    let h = total / 3600;
    let mut out = String::from_str("Resets in ");
    if h >= 24 {
        push_decimal(&mut out, h / 24);
        out.append("d ");
        push_decimal(&mut out, h % 24);
        out.append("h");
    } else if h > 0 {
        push_decimal(&mut out, h);
        out.append(" hr ");
        push_decimal(&mut out, m);
        out.append(" min");
    } else {
        push_decimal(&mut out, m);
        out.append(" min");
    }
    out
}

/// The refresh intervals offered, in seconds, with their labels.
pub fn refresh_options() -> (r: Vec<(u64, &'static str)>)
    ensures
        r@.len() == 6,
        r@[0].0 == 60 && r@[0].1@ == "1 min"@,
        r@[1].0 == 120 && r@[1].1@ == "2 min"@,
        r@[2].0 == 300 && r@[2].1@ == "5 min"@,
        r@[3].0 == 600 && r@[3].1@ == "10 min"@,
        r@[4].0 == 900 && r@[4].1@ == "15 min"@,
        r@[5].0 == 1800 && r@[5].1@ == "30 min"@,
{
    let mut v: Vec<(u64, &'static str)> = Vec::new();
    v.push((60, "1 min"));
    v.push((120, "2 min"));
    v.push((300, "5 min"));
    v.push((600, "10 min"));
    v.push((900, "15 min"));
    v.push((1800, "30 min"));
    v
}

/// The weekly limits shown, by key in the usage response, with their labels.
pub fn weekly_keys() -> (r: Vec<(&'static str, &'static str)>)
    ensures
        r@.len() == 4,
        r@[0].0@ == "seven_day"@ && r@[0].1@ == "All models"@,
        r@[1].0@ == "seven_day_opus"@ && r@[1].1@ == "Opus"@,
        r@[2].0@ == "seven_day_sonnet"@ && r@[2].1@ == "Sonnet"@,
        r@[3].0@ == "seven_day_cowork"@ && r@[3].1@ == "Cowork"@,
{
    let mut v: Vec<(&'static str, &'static str)> = Vec::new();
    v.push(("seven_day", "All models"));
    v.push(("seven_day_opus", "Opus"));
    v.push(("seven_day_sonnet", "Sonnet"));
    v.push(("seven_day_cowork", "Cowork"));
    v
}

/// A reset at least a day away reads "Resets in <D>d <H>h", where the whole
/// hours left are `24 * D + H` and `H` is under 24.
pub proof fn lemma_reset_in_days_and_hours(secs: int, days: nat, hours: nat)
    requires
        secs > 0,
        days >= 1,
        hours < 24,
        24 * days + hours == secs / 3600,
    ensures
        resets_in_spec(secs) == "Resets in "@ + nat_text(days) + "d "@ + nat_text(hours) + "h"@,
{
    let h = secs / 3600;
    assert(h / 24 == days && h % 24 == hours) by (nonlinear_arith)
        requires
            h == 24 * days + hours,
            hours < 24,
    ;
}

/// A reset within the day but at least an hour away reads
/// "Resets in <H> hr <M> min": the whole hours, then the whole minutes of
/// the hour that has begun.
pub proof fn lemma_reset_in_hours_and_minutes(secs: int)
    requires
        3600 <= secs < 24 * 3600,
    ensures
        resets_in_spec(secs) == "Resets in "@ + nat_text((secs / 3600) as nat) + " hr "@ + nat_text(
            ((secs % 3600) / 60) as nat,
        ) + " min"@,
{
    assert((secs / 60) % 60 == (secs % 3600) / 60) by (nonlinear_arith)
        requires
            secs >= 0,
    ;
}

/// The text for an RFC 3339 reset time at least a day after `now` gives
/// the days and the hours left over, which together make the whole hours
/// left.
pub proof fn lemma_time_left_days_and_hours(s: Seq<char>, now: int, days: nat, hours: nat)
    requires
        rfc3339_timestamp(s) matches Some((secs, nanos)) && ({
            let d = secs * 1_000_000_000 + nanos - now;
            d > 0 && 24 * days + hours == d / 3_600_000_000_000
        }),
        days >= 1,
        hours < 24,
    ensures
        time_left_spec(Some(s), now) == "Resets in "@ + nat_text(days) + "d "@ + nat_text(hours) + "h"@,
{
    let (secs, nanos) = rfc3339_timestamp(s)->0;
    let d = secs * 1_000_000_000 + nanos - now;
    let t = d / 1_000_000_000;
    assert(t / 3600 == d / 3_600_000_000_000) by (nonlinear_arith)
        requires
            d > 0,
            t == d / 1_000_000_000,
    ;
    assert(seconds_until(secs, nanos, now) == t);
    lemma_reset_in_days_and_hours(t, days, hours);
}

} // verus!
