//! Durations in the short form of days, hours and minutes.

use vstd::prelude::*;
use crate::text::{decimal_text, push_decimal};

verus! {

/// A number of seconds in short form: minutes alone below an hour, hours and
/// minutes below a day, days, hours and minutes from there on.
pub open spec fn dhm_text(secs: nat) -> Seq<char> {
    if secs < 3600 {
        decimal_text(secs / 60) + "m"@
    } else if secs < 86400 {
        decimal_text(secs / 3600) + "h"@ + decimal_text((secs % 3600) / 60) + "m"@
    } else {
        decimal_text(secs / 86400) + "d"@ + decimal_text((secs % 86400) / 3600) + "h"@
            + decimal_text((secs % 3600) / 60) + "m"@
    }
}

/// seconds -> e.g. 2d4h1m
pub fn duration_to_dhm(secs: u64) -> (r: String)
    ensures
        r@ == dhm_text(secs as nat),
{
    let mut r = String::new();
    if secs < 3600 {
        push_decimal(&mut r, secs / 60);
        r.append("m");
    } else if secs < 86400 {
        let hours: u64 = secs / 3600;
        let minutes: u64 = (secs - hours * 3600) / 60;
        push_decimal(&mut r, hours);
        r.append("h");
        push_decimal(&mut r, minutes);
        r.append("m");
    } else {
        let days: u64 = secs / 86400;
        let hours: u64 = (secs - days * 86400) / 3600;
        let minutes: u64 = (secs - days * 86400 - hours * 3600) / 60;
        assert(minutes == (secs % 3600) / 60) by (nonlinear_arith)
            requires
                days == secs / 86400,
                hours == (secs - days * 86400) / 3600,
                minutes == (secs - days * 86400 - hours * 3600) / 60,
        ;
        push_decimal(&mut r, days);
        r.append("d");
        push_decimal(&mut r, hours);
        r.append("h");
        push_decimal(&mut r, minutes);
        r.append("m");
    }
    proof {
        assert(r@ =~= dhm_text(secs as nat));
    }
    r
}

/// The seconds between the epoch and now, read from the system clock with
/// `SystemTime::now` and `duration_since`; `None` where the clock stands
/// before the epoch. Nothing is known of the reading.
#[verifier::external_body]
pub(crate) fn seconds_since_epoch() -> (now: Option<u64>) {
    std::time::SystemTime::now().duration_since(std::time::UNIX_EPOCH).ok().map(|d| d.as_secs())
}

/// How long something that started at `start_time` has run at the time
/// `now`, in short form; `None` where the clock gave no reading or the start
/// lies ahead of it.
pub fn shorthand_duration_at(now: Option<u64>, start_time: u64) -> (r: Option<String>)
    ensures
        r is Some <==> (now is Some && start_time <= now->0),
        r is Some ==> r->0@ == dhm_text((now->0 - start_time) as nat),
{
    match now {
        Some(time_now) => {
            if start_time <= time_now {
                Some(duration_to_dhm(time_now - start_time))
            } else {
                None
            }
        },
        None => None,
    }
}

/// `text` is the short form of the time from `start_time` to `now`.
pub open spec fn spells_time_since(text: Seq<char>, start_time: u64, now: u64) -> bool {
    start_time <= now && text == dhm_text((now - start_time) as nat)
}

/// How long something that started at `start_time` has run by now, in short
/// form; `None` where the clock gives no reading or the start lies ahead.
pub fn shorthand_duration(start_time: u64) -> (r: Option<String>)
    ensures
        r is Some ==> exists|now: u64| spells_time_since(r->0@, start_time, now),
{
    let now = seconds_since_epoch();
    let r = shorthand_duration_at(now, start_time);
    proof {
        if r is Some {
            assert(spells_time_since(r->0@, start_time, now->0));
        }
    }
    r
}

} // verus!
