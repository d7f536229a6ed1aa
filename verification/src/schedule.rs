//! Cron expressions: whether one is accepted, and when it fires next.
//!
//! The grammar (six or seven fields, with seconds) and the calendar search
//! are those of the `cron` crate. What is proved here is what the scheduler
//! builds on them: a fire time handed out always lies strictly after the
//! instant it was asked for.

use vstd::prelude::*;
use vstd::string::*;
use std::str::FromStr;
use crate::clock::{UtcInstant, NANOS_PER_SEC};

verus! {

/// The seconds on either side of the epoch between which the `cron` crate is
/// asked for fire times. Every instant of the years 1970 to 2100, the only
/// ones in which an expression can fire, lies well inside.
pub const CRON_CLOCK_LIMIT: i64 = 8_000_000_000_000;

/// The message with which `cron::Schedule::from_str` rejects an expression,
/// or `None` where it accepts it.
pub uninterp spec fn cron_rejection(expr: Seq<char>) -> Option<Seq<char>>;

/// The first instant that `cron::Schedule::after` yields for an expression
/// and a starting instant, as seconds and nanoseconds; `None` where the
/// expression is rejected or nothing is left to yield.
pub uninterp spec fn cron_upcoming(expr: Seq<char>, secs: i64, nanos: u32) -> Option<(i64, u32)>;

/// `cron::Schedule::from_str`: accepts the expression or rejects it with a
/// message. Both depend on the expression alone.
#[verifier::external_body]
fn cron_check(expr: &str) -> (r: Result<(), String>)
    ensures
        match r {
            Ok(_) => cron_rejection(expr@) is None,
            Err(msg) => cron_rejection(expr@) == Some(msg@),
        },
{
    match cron::Schedule::from_str(expr) {
        Ok(_) => Ok(()),
        Err(e) => Err(e.to_string()),
    }
}

/// `cron::Schedule::after(..).next()` on the parsed expression, from the
/// instant that `chrono::DateTime::from_timestamp` makes of the two parts.
/// An expression that `cron::Schedule::from_str` rejects yields nothing.
/// The search adds one second to its starting instant, which `chrono` can
/// only do inside its own range: hence the bound on `secs`.
#[verifier::external_body]
fn cron_next_after(expr: &str, secs: i64, nanos: u32) -> (r: Option<(i64, u32)>)
    requires
        -CRON_CLOCK_LIMIT <= secs <= CRON_CLOCK_LIMIT,
        nanos < NANOS_PER_SEC,
    ensures
        r == cron_upcoming(expr@, secs, nanos),
        cron_rejection(expr@) is Some ==> r is None,
{
    let schedule = cron::Schedule::from_str(expr).ok()?;
    let start = chrono::DateTime::from_timestamp(secs, nanos)?;
    let next = schedule.after(&start).next()?;
    Some((next.timestamp(), next.timestamp_subsec_nanos()))
}

/// The expression is one that the evaluator accepts.
pub open spec fn cron_is_valid(expr: Seq<char>) -> bool {
    cron_rejection(expr) is None
}

/// Checks a cron expression; a rejected one comes back with the reason.
pub fn validate_cron(expr: &str) -> (r: Result<(), String>)
    ensures
        r is Ok == cron_is_valid(expr@),
        r is Err ==> cron_rejection(expr@) == Some(r->Err_0@),
{
    cron_check(expr)
}

/// Whether the evaluator accepts the expression.
pub fn is_valid_cron(expr: &str) -> (ok: bool)
    ensures
        ok == cron_is_valid(expr@),
{
    cron_check(expr).is_ok()
}

/// The instant is one for which the evaluator is asked.
pub open spec fn within_cron_clock(now: UtcInstant) -> bool {
    now.is_valid() && -CRON_CLOCK_LIMIT <= now.secs <= CRON_CLOCK_LIMIT
}

/// What is kept of a candidate fire time: it must be a proper instant and
/// lie strictly after `now`.
pub open spec fn pick_after(now: UtcInstant, candidate: Option<(i64, u32)>) -> Option<UtcInstant> {
    match candidate {
        Some((secs, nanos)) => {
            let t = UtcInstant { secs, nanos };
            if t.is_valid() && t.after(now) {
                Some(t)
            } else {
                None
            }
        },
        None => None,
    }
}

/// Keeps a candidate fire time only if it is a proper instant strictly after
/// `now`.
pub fn strictly_after(now: &UtcInstant, candidate: Option<(i64, u32)>) -> (r: Option<UtcInstant>)
    ensures
        r == pick_after(*now, candidate),
        r is Some ==> r.unwrap().is_valid() && r.unwrap().after(*now),
{
    match candidate {
        Some((secs, nanos)) => {
            let t = UtcInstant { secs, nanos };
            if nanos < NANOS_PER_SEC && t.is_after(now) {
                Some(t)
            } else {
                None
            }
        },
        None => None,
    }
}

/// The next fire time of `expr` after `now`.
pub open spec fn next_fire_spec(expr: Seq<char>, now: UtcInstant) -> Option<UtcInstant> {
    if within_cron_clock(now) {
        pick_after(now, cron_upcoming(expr, now.secs, now.nanos))
    } else {
        None
    }
}

/// The next instant strictly after `now` at which `expr` fires; `None` where
/// the expression is invalid or has no firing left.
pub fn next_fire(expr: &str, now: &UtcInstant) -> (r: Option<UtcInstant>)
    ensures
        r == next_fire_spec(expr@, *now),
        r is Some ==> r.unwrap().is_valid() && r.unwrap().after(*now),
        !cron_is_valid(expr@) ==> r is None,
{
    if now.nanos < NANOS_PER_SEC && -CRON_CLOCK_LIMIT <= now.secs && now.secs <= CRON_CLOCK_LIMIT {
        let candidate = cron_next_after(expr, now.secs, now.nanos);
        strictly_after(now, candidate)
    } else {
        None
    }
}

/// A fire time always lies strictly after the instant it was computed from.
pub proof fn lemma_next_fire_is_later(expr: Seq<char>, now: UtcInstant)
    ensures
        next_fire_spec(expr, now) is Some ==> next_fire_spec(expr, now).unwrap().after(now)
            && next_fire_spec(expr, now).unwrap().is_valid(),
{
}

} // verus!
