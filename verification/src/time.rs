//! Instants on the UTC time line.

use vstd::prelude::*;

verus! {

/// An instant: whole seconds since 1970-01-01T00:00:00Z and the nanoseconds
/// past that second.
#[derive(Clone, Copy, Debug, PartialEq, Eq, Structural)]
pub struct Timestamp {
    pub secs: i64,
    pub nanos: u32,
}

impl Timestamp {
    /// `self` lies strictly before `other`.
    pub open spec fn is_before(self, other: Timestamp) -> bool {
        self.secs < other.secs || (self.secs == other.secs && self.nanos < other.nanos)
    }

    /// Executable form of `is_before`.
    pub fn before(&self, other: &Timestamp) -> (r: bool)
        ensures
            r == self.is_before(*other),
    {
        self.secs < other.secs || (self.secs == other.secs && self.nanos < other.nanos)
    }

    /// `self` is the last instant that a `Timestamp` can hold.
    pub open spec fn is_last(self) -> bool {
        self.secs == i64::MAX && self.nanos == u32::MAX
    }

    /// The next instant after `self`: one nanosecond later within a second,
    /// and the beginning of the next second at the end of one. At the end of
    /// the last second the nanoseconds count on, and the last instant stays.
    pub open spec fn successor(self) -> Timestamp {
        if self.nanos < 999_999_999 {
            Timestamp { secs: self.secs, nanos: (self.nanos + 1) as u32 }
        } else if self.secs < i64::MAX {
            Timestamp { secs: (self.secs + 1) as i64, nanos: 0 }
        } else if self.nanos < u32::MAX {
            Timestamp { secs: self.secs, nanos: (self.nanos + 1) as u32 }
        } else {
            self
        }
    }

    /// Executable form of `successor`.
    pub fn next(&self) -> (r: Timestamp)
        ensures
            r == self.successor(),
    {
        if self.nanos < 999_999_999 {
            Timestamp { secs: self.secs, nanos: self.nanos + 1 }
        } else if self.secs < i64::MAX {
            Timestamp { secs: self.secs + 1, nanos: 0 }
        } else if self.nanos < u32::MAX {
            Timestamp { secs: self.secs, nanos: self.nanos + 1 }
        } else {
            *self
        }
    }
}

/// The time of update that a record last updated at `last` gets when it is
/// updated at `now`: `now` where that lies after `last`, and else the next
/// instant after `last`, so that the time of update never stands still or
/// runs back.
pub open spec fn refreshed(last: Timestamp, now: Timestamp) -> Timestamp {
    if last.is_before(now) {
        now
    } else {
        last.successor()
    }
}

/// Executable form of `refreshed`.
pub fn refresh(last: Timestamp, now: Timestamp) -> (r: Timestamp)
    ensures
        r == refreshed(last, now),
{
    if last.before(&now) {
        now
    } else {
        last.next()
    }
}

/// A refreshed time of update lies after the last one, unless that is the
/// last instant of all; it is the instant of the update where that lies
/// after the last one, and never lies before it; and to refresh once more at
/// the refreshed time changes nothing.
pub proof fn lemma_refreshed(last: Timestamp, now: Timestamp)
    ensures
        !last.is_last() ==> last.is_before(refreshed(last, now)),
        last.is_before(now) ==> refreshed(last, now) == now,
        !refreshed(last, now).is_before(now),
        !refreshed(last, now).is_before(last),
        refreshed(last, refreshed(last, now)) == refreshed(last, now),
{
}

/// The instant that an RFC 3339 date-and-time text denotes, as seconds and
/// nanoseconds; `None` for a text that is no such date and time.
pub uninterp spec fn rfc3339_parse(text: Seq<char>) -> Option<(i64, u32)>;

/// The RFC 3339 text of the instant `secs`, `nanos`; `None` where the
/// calendar in use cannot represent the instant.
pub uninterp spec fn rfc3339_text(secs: i64, nanos: u32) -> Option<Seq<char>>;

/// The text of the whole second `secs` in UTC, written after the pattern
/// `pattern`; `None` where the calendar in use cannot represent the instant
/// or the pattern cannot be applied.
pub uninterp spec fn utc_second_text(secs: i64, pattern: Seq<char>) -> Option<Seq<char>>;

/// The instant that `parsed` stands for.
pub open spec fn instant_of(parsed: Option<(i64, u32)>) -> Option<Timestamp> {
    match parsed {
        Some(p) => Some(Timestamp { secs: p.0, nanos: p.1 }),
        None => None,
    }
}

/// Reads an RFC 3339 date and time.
///
/// Calls `chrono::DateTime::parse_from_rfc3339` and converts the result to
/// UTC seconds and nanoseconds with `timestamp` and
/// `timestamp_subsec_nanos`. The contract names the outcome `rfc3339_parse`.
#[verifier::external_body]
pub(crate) fn parse_rfc3339(text: &str) -> (t: Option<Timestamp>)
    ensures
        t == instant_of(rfc3339_parse(text@)),
{
    match chrono::DateTime::parse_from_rfc3339(text) {
        Ok(d) => Some(Timestamp { secs: d.timestamp(), nanos: d.timestamp_subsec_nanos() }),
        Err(_) => None,
    }
}

/// Writes an instant as RFC 3339 text.
///
/// Calls `chrono::DateTime::from_timestamp`, which refuses what it cannot
/// represent, and `to_rfc3339` on the value it yields. The contract names
/// the outcome `rfc3339_text`.
#[verifier::external_body]
pub(crate) fn format_rfc3339(t: Timestamp) -> (text: Option<String>)
    ensures
        text.deep_view() == rfc3339_text(t.secs, t.nanos),
{
    match chrono::DateTime::from_timestamp(t.secs, t.nanos) {
        Some(d) => Some(d.to_rfc3339()),
        None => None,
    }
}

/// Writes a whole second of UTC after a pattern.
///
/// Calls `chrono::DateTime::from_timestamp` with no nanoseconds, which
/// refuses what it cannot represent, then `format` with the pattern and
/// `write_to` into a string, which reports a pattern that it cannot apply.
/// The contract names the outcome `utc_second_text`.
#[verifier::external_body]
pub(crate) fn format_utc_second(secs: i64, pattern: &str) -> (text: Option<String>)
    ensures
        text.deep_view() == utc_second_text(secs, pattern@),
{
    let mut text = String::new();
    match chrono::DateTime::from_timestamp(secs, 0) {
        Some(d) => match d.format(pattern).write_to(&mut text) {
            Ok(()) => Some(text),
            Err(_) => None,
        },
        None => None,
    }
}

/// Reads the clock.
///
/// Calls `chrono::Utc::now`. Nothing is claimed of the instant: it depends
/// on when the call is made.
#[verifier::external_body]
pub(crate) fn current_time() -> (t: Timestamp)
{
    let d = chrono::Utc::now();
    Timestamp { secs: d.timestamp(), nanos: d.timestamp_subsec_nanos() }
}

} // verus!
