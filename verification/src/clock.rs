//! Instants in UTC and the spans between them, as plain integers.
//!
//! The scheduler never reads a clock itself: its callers hand it instants.
//! Text forms go through `chrono`.

use vstd::prelude::*;
use vstd::string::*;
use crate::text::text_view;

verus! {

/// Nanoseconds in one second.
pub const NANOS_PER_SEC: u32 = 1_000_000_000;

/// An instant in UTC: whole seconds since 1970-01-01T00:00:00Z and the
/// nanoseconds after that second. A leap second has no instant of its own:
/// where one is read, it is folded into the second that follows it.
#[derive(Debug, Clone, Copy, PartialEq, Eq, Structural)]
pub struct UtcInstant {
    pub secs: i64,
    pub nanos: u32,
}

/// A non-negative length of time.
#[derive(Debug, Clone, Copy, PartialEq, Eq, Structural)]
pub struct Span {
    pub secs: u64,
    pub nanos: u32,
}

impl Span {
    /// The nanosecond part stays under one second.
    pub open spec fn is_valid(self) -> bool {
        self.nanos < NANOS_PER_SEC
    }

    /// The span in nanoseconds.
    pub open spec fn total_nanos(self) -> int {
        self.secs as int * NANOS_PER_SEC as int + self.nanos as int
    }

    /// One second: the floor of a sleep whose target has already passed.
    pub fn one_second() -> (s: Span)
        ensures
            s.is_valid(),
            s.total_nanos() == NANOS_PER_SEC as int,
            s == (Span { secs: 1, nanos: 0 }),
    {
        Span { secs: 1, nanos: 0 }
    }
}

impl UtcInstant {
    /// The nanosecond part stays under one second.
    pub open spec fn is_valid(self) -> bool {
        self.nanos < NANOS_PER_SEC
    }

    /// Nanoseconds since the epoch.
    pub open spec fn epoch_nanos(self) -> int {
        self.secs as int * NANOS_PER_SEC as int + self.nanos as int
    }

    /// `self` lies strictly after `other`.
    pub open spec fn after(self, other: UtcInstant) -> bool {
        self.epoch_nanos() > other.epoch_nanos()
    }

    /// `self` lies at or after `other`.
    pub open spec fn not_before(self, other: UtcInstant) -> bool {
        self.epoch_nanos() >= other.epoch_nanos()
    }

    /// The later of two instants; `a` where they are equal.
    pub open spec fn later_of(a: UtcInstant, b: UtcInstant) -> UtcInstant {
        if b.after(a) {
            b
        } else {
            a
        }
    }

    /// The instant of a second and the nanoseconds after it. Nanoseconds of
    /// one second or more, under two, stand for a leap second, as `chrono`
    /// has it, and count into the next second. More than that is no instant.
    pub open spec fn from_parts_spec(secs: i64, nanos: u32) -> Option<UtcInstant> {
        if nanos < NANOS_PER_SEC {
            Some(UtcInstant { secs, nanos })
        } else if nanos < 2 * NANOS_PER_SEC && secs < i64::MAX {
            Some(UtcInstant { secs: (secs + 1) as i64, nanos: (nanos - NANOS_PER_SEC) as u32 })
        } else {
            None
        }
    }

    /// The instant of a second and the nanoseconds after it, a leap second
    /// folded into the second that follows.
    pub fn from_parts(secs: i64, nanos: u32) -> (r: Option<UtcInstant>)
        ensures
            r == UtcInstant::from_parts_spec(secs, nanos),
            r is Some ==> r.unwrap().is_valid(),
    {
        if nanos < NANOS_PER_SEC {
            Some(UtcInstant { secs, nanos })
        } else if nanos < 2 * NANOS_PER_SEC && secs < i64::MAX {
            Some(UtcInstant { secs: secs + 1, nanos: nanos - NANOS_PER_SEC })
        } else {
            None
        }
    }

    /// Whether `self` lies strictly after `other`.
    pub fn is_after(&self, other: &UtcInstant) -> (b: bool)
        ensures
            b == self.after(*other),
    {
        let a: i128 = self.secs as i128 * NANOS_PER_SEC as i128 + self.nanos as i128;
        let o: i128 = other.secs as i128 * NANOS_PER_SEC as i128 + other.nanos as i128;
        a > o
    }

    /// The later of two instants; `self` where they are equal.
    pub fn later(&self, other: &UtcInstant) -> (r: UtcInstant)
        ensures
            r == UtcInstant::later_of(*self, *other),
            r.not_before(*self),
            r.not_before(*other),
            r == *self || r == *other,
    {
        if other.is_after(self) {
            *other
        } else {
            *self
        }
    }
}

/// How long to sleep at `now` for a tick due at `fire_at`: the time that is
/// left, or one second where the target is not in the future.
pub open spec fn sleep_nanos(fire_at: UtcInstant, now: UtcInstant) -> int {
    if fire_at.after(now) {
        fire_at.epoch_nanos() - now.epoch_nanos()
    } else {
        NANOS_PER_SEC as int
    }
}

/// The sleep before a tick due at `fire_at`, measured at `now`. A target in
/// the past (the clock moved meanwhile) gives one second, never zero.
pub fn sleep_span(fire_at: &UtcInstant, now: &UtcInstant) -> (span: Span)
    requires
        fire_at.is_valid(),
        now.is_valid(),
    ensures
        span.is_valid(),
        span.total_nanos() == sleep_nanos(*fire_at, *now),
        span.total_nanos() > 0,
{
    if !fire_at.is_after(now) {
        return Span::one_second();
    }
    let a: i128 = fire_at.secs as i128 * NANOS_PER_SEC as i128 + fire_at.nanos as i128;
    let o: i128 = now.secs as i128 * NANOS_PER_SEC as i128 + now.nanos as i128;
    let left: i128 = a - o;
    let secs: i128 = left / (NANOS_PER_SEC as i128);
    let nanos: i128 = left % (NANOS_PER_SEC as i128);
    assert(0 <= nanos < NANOS_PER_SEC);
    assert(left == secs * NANOS_PER_SEC + nanos);
    assert(0 <= secs <= u64::MAX) by {
        assert(left < 0x1_0000_0000_0000_0000 * (NANOS_PER_SEC as int));
        assert(left >= 0);
    }
    Span { secs: secs as u64, nanos: nanos as u32 }
}

/// The RFC 3339 text that `chrono` writes for the instant with these parts,
/// or `None` where `chrono` cannot hold the instant.
pub uninterp spec fn rfc3339_text(secs: i64, nanos: u32) -> Option<Seq<char>>;

/// The parts of the instant that `chrono` reads from an RFC 3339 text, or
/// `None` where it rejects the text.
pub uninterp spec fn rfc3339_instant(text: Seq<char>) -> Option<(i64, u32)>;

/// `chrono::DateTime::to_rfc3339` on the instant that
/// `chrono::DateTime::from_timestamp` makes of the two parts. The text is a
/// function of the parts alone; its shape is not stated here.
#[verifier::external_body]
fn chrono_to_rfc3339(secs: i64, nanos: u32) -> (text: Option<String>)
    ensures
        text_view(text) == rfc3339_text(secs, nanos),
{
    match chrono::DateTime::from_timestamp(secs, nanos) {
        Some(t) => Some(t.to_rfc3339()),
        None => None,
    }
}

/// `chrono::DateTime::parse_from_rfc3339`, taken to UTC and split into
/// `timestamp()` and `timestamp_subsec_nanos()`. The result is a function of
/// the text alone.
#[verifier::external_body]
fn chrono_parse_rfc3339(text: &str) -> (parts: Option<(i64, u32)>)
    ensures
        parts == rfc3339_instant(text@),
{
    match chrono::DateTime::parse_from_rfc3339(text) {
        Ok(t) => {
            let utc = t.with_timezone(&chrono::Utc);
            Some((utc.timestamp(), utc.timestamp_subsec_nanos()))
        },
        Err(_) => None,
    }
}

/// The instant that parsed parts stand for.
pub open spec fn instant_of_parts(parts: Option<(i64, u32)>) -> Option<UtcInstant> {
    match parts {
        Some((secs, nanos)) => UtcInstant::from_parts_spec(secs, nanos),
        None => None,
    }
}

impl UtcInstant {
    /// The instant as RFC 3339 text, the form in which it is persisted.
    /// `None` where the instant lies outside what `chrono` can hold.
    pub fn to_rfc3339(&self) -> (text: Option<String>)
        ensures
            text_view(text) == rfc3339_text(self.secs, self.nanos),
    {
        chrono_to_rfc3339(self.secs, self.nanos)
    }

    /// Reads a persisted RFC 3339 text. A text that names a leap second
    /// (`23:59:60`) is read as the second after it. `None` where the text is
    /// rejected.
    pub fn parse_rfc3339(text: &str) -> (r: Option<UtcInstant>)
        ensures
            r == instant_of_parts(rfc3339_instant(text@)),
            r is Some ==> r.unwrap().is_valid(),
    {
        match chrono_parse_rfc3339(text) {
            Some((secs, nanos)) => UtcInstant::from_parts(secs, nanos),
            None => None,
        }
    }
}

} // verus!
