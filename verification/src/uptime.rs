//! The uptime line: "`D` days `H` hours `M` minutes".

use crate::text::{decimal, decimal_string};
use vstd::prelude::*;

verus! {

/// Number of seconds in a minute.
pub const SECONDS_IN_MINUTE: u64 = 60;

/// Number of seconds in an hour.
pub const SECONDS_IN_HOUR: u64 = 3600;

/// Number of seconds in a day.
pub const SECONDS_IN_DAY: u64 = 86400;

/// The whole days shown; days are shown only when the uptime exceeds one day.
pub open spec fn uptime_days(uptime: nat) -> Option<nat> {
    if uptime > SECONDS_IN_DAY {
        Some(uptime / (SECONDS_IN_DAY as nat))
    } else {
        None
    }
}

/// The seconds left once the shown days are taken away.
pub open spec fn seconds_after_days(uptime: nat) -> nat {
    if uptime > SECONDS_IN_DAY {
        uptime % (SECONDS_IN_DAY as nat)
    } else {
        uptime
    }
}

/// The whole hours shown; hours are shown only when what is left after the
/// days exceeds one hour.
pub open spec fn uptime_hours(uptime: nat) -> Option<nat> {
    let rest = seconds_after_days(uptime);
    if rest > SECONDS_IN_HOUR {
        Some(rest / (SECONDS_IN_HOUR as nat))
    } else {
        None
    }
}

/// The seconds left once the shown days and hours are taken away.
pub open spec fn seconds_after_hours(uptime: nat) -> nat {
    let rest = seconds_after_days(uptime);
    if rest > SECONDS_IN_HOUR {
        rest % (SECONDS_IN_HOUR as nat)
    } else {
        rest
    }
}

/// The whole minutes shown; they are always shown.
pub open spec fn uptime_minutes(uptime: nat) -> nat {
    seconds_after_hours(uptime) / (SECONDS_IN_MINUTE as nat)
}

/// The word written after the number of days.
pub open spec fn days_word() -> Seq<char> {
    seq![' ', 'd', 'a', 'y', 's', ' ']
}

/// The word written after the number of hours.
pub open spec fn hours_word() -> Seq<char> {
    seq![' ', 'h', 'o', 'u', 'r', 's', ' ']
}

/// The word written after the number of minutes.
pub open spec fn minutes_word() -> Seq<char> {
    seq![' ', 'm', 'i', 'n', 'u', 't', 'e', 's']
}

/// The uptime text: the days part, the hours part, then the minutes.
pub open spec fn uptime_text(uptime: nat) -> Seq<char> {
    let days_part = match uptime_days(uptime) {
        Some(d) => decimal(d) + days_word(),
        None => Seq::<char>::empty(),
    };
    let hours_part = match uptime_hours(uptime) {
        Some(h) => decimal(h) + hours_word(),
        None => Seq::<char>::empty(),
    };
    days_part + hours_part + decimal(uptime_minutes(uptime)) + minutes_word()
}

/// A count that is not shown counts as zero.
pub open spec fn shown_or_zero(part: Option<nat>) -> nat {
    match part {
        Some(n) => n,
        None => 0,
    }
}

/// The uptime text accounts for every whole minute of the uptime: the days,
/// hours and minutes it shows add up to the uptime in whole minutes.
pub proof fn lemma_uptime_text_counts_whole_minutes(uptime: nat)
    ensures
        shown_or_zero(uptime_days(uptime)) * 1440 + shown_or_zero(uptime_hours(uptime)) * 60
            + uptime_minutes(uptime) == uptime / 60,
        uptime_hours(uptime) is Some ==> uptime_hours(uptime).unwrap() <= 24,
{
    let d = shown_or_zero(uptime_days(uptime));
    let r1 = seconds_after_days(uptime);
    let h = shown_or_zero(uptime_hours(uptime));
    let r2 = seconds_after_hours(uptime);
    let m = uptime_minutes(uptime);
    assert(uptime == d * 86400 + r1 && r1 <= 86400) by (nonlinear_arith)
        requires
            d == (if uptime > 86400 { uptime / 86400 } else { 0 }),
            r1 == (if uptime > 86400 { uptime % 86400 } else { uptime }),
    ;
    assert(r1 == h * 3600 + r2 && r2 <= 3600 && h <= 24) by (nonlinear_arith)
        requires
            r1 <= 86400,
            h == (if r1 > 3600 { r1 / 3600 } else { 0 }),
            r2 == (if r1 > 3600 { r1 % 3600 } else { r1 }),
    ;
    assert(d * 1440 + h * 60 + m == uptime / 60) by (nonlinear_arith)
        requires
            uptime == d * 86400 + r1,
            r1 == h * 3600 + r2,
            m == r2 / 60,
    ;
}

/// The text made of the given counts: the days and hours when shown, then
/// the minutes.
pub open spec fn uptime_text_of(days: Option<nat>, hours: Option<nat>, minutes: nat) -> Seq<char> {
    let days_part = match days {
        Some(d) => decimal(d) + days_word(),
        None => Seq::<char>::empty(),
    };
    let hours_part = match hours {
        Some(h) => decimal(h) + hours_word(),
        None => Seq::<char>::empty(),
    };
    days_part + hours_part + decimal(minutes) + minutes_word()
}

/// What the uptime text says, read off the uptime by subtraction: whole days
/// are shown when the uptime exceeds a day; of what is left, whole hours are
/// shown when it exceeds an hour; what is left after that is written in whole
/// minutes. The counts written add up to the uptime in whole minutes.
pub proof fn lemma_uptime_text_reads_back(uptime: nat)
    ensures
        ({
            let days: Option<nat> = if uptime > 86400 {
                Some(uptime / 86400)
            } else {
                None
            };
            let rest: int = uptime - shown_or_zero(days) * 86400;
            let hours: Option<nat> = if rest > 3600 {
                Some((rest / 3600) as nat)
            } else {
                None
            };
            let minutes: nat = ((rest - shown_or_zero(hours) * 3600) / 60) as nat;
            &&& 0 <= rest
            &&& rest - shown_or_zero(hours) * 3600 >= 0
            &&& uptime_text(uptime) == uptime_text_of(days, hours, minutes)
            &&& shown_or_zero(days) * 1440 + shown_or_zero(hours) * 60 + minutes == uptime / 60
        }),
{
    let days: Option<nat> = if uptime > 86400 {
        Some(uptime / 86400)
    } else {
        None
    };
    let d = shown_or_zero(days);
    let rest: int = uptime - d * 86400;
    assert(rest == seconds_after_days(uptime) && rest >= 0) by (nonlinear_arith)
        requires
            d == (if uptime > 86400 { uptime / 86400 } else { 0 }),
            rest == uptime - d * 86400,
            seconds_after_days(uptime) == (if uptime > 86400 { uptime % 86400 } else { uptime }),
    ;
    let hours: Option<nat> = if rest > 3600 {
        Some((rest / 3600) as nat)
    } else {
        None
    };
    let h = shown_or_zero(hours);
    let rest2: int = rest - h * 3600;
    assert(rest2 == seconds_after_hours(uptime) && rest2 >= 0) by (nonlinear_arith)
        requires
            rest >= 0,
            h == (if rest > 3600 { rest / 3600 } else { 0 }),
            rest2 == rest - h * 3600,
            seconds_after_hours(uptime) == (if rest > 3600 { rest % 3600 } else { rest }),
    ;
    assert(uptime_days(uptime) == days);
    assert(uptime_hours(uptime) == hours);
    assert(uptime_minutes(uptime) == ((rest2) / 60) as nat);
    lemma_uptime_text_counts_whole_minutes(uptime);
}

/// Renders an uptime in seconds as "`D` days `H` hours `M` minutes", leaving
/// out the days unless the uptime exceeds a day and the hours unless what
/// remains exceeds an hour.
pub fn format_uptime(uptime: u64) -> (text: String)
    ensures
        text@ == uptime_text(uptime as nat),
{
    let ghost total = uptime as nat;
    let mut result = String::new();
    let mut uptime = uptime;

    if uptime > SECONDS_IN_DAY {
        let days = uptime / SECONDS_IN_DAY;
        assert(days * 86400 <= uptime && uptime - days * 86400 == uptime % 86400)
            by (nonlinear_arith)
            requires
                days == uptime / 86400,
        ;
        uptime = uptime - days * SECONDS_IN_DAY;
        let days_text = decimal_string(days);
        result.append(days_text.as_str());
        proof { reveal_strlit(" days "); }
        result.append(" days ");
    }
    assert(uptime == seconds_after_days(total));

    if uptime > SECONDS_IN_HOUR {
        let hours = uptime / SECONDS_IN_HOUR;
        assert(hours * 3600 <= uptime && uptime - hours * 3600 == uptime % 3600)
            by (nonlinear_arith)
            requires
                hours == uptime / 3600,
        ;
        uptime = uptime - hours * SECONDS_IN_HOUR;
        let hours_text = decimal_string(hours);
        result.append(hours_text.as_str());
        proof { reveal_strlit(" hours "); }
        result.append(" hours ");
    }
    assert(uptime == seconds_after_hours(total));

    let minutes = uptime / SECONDS_IN_MINUTE;
    let minutes_text = decimal_string(minutes);
    result.append(minutes_text.as_str());
    proof { reveal_strlit(" minutes"); }
    result.append(" minutes");

    assert(result@ =~= uptime_text(total));
    result
}

} // verus!
