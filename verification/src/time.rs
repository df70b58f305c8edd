//! Instants and the lifetime of a session.
use vstd::prelude::*;

verus! {

/// How long a session lasts once issued: two days, in microseconds.
pub const SESSION_LIFETIME_MICROS: i64 = 172_800_000_000;

/// No reading of the clock lies further from the epoch than this many
/// microseconds: 262 143 years of 366 days.
pub const CLOCK_HORIZON_MICROS: i64 = 8_289_590_803_200_000_000;

/// An instant in UTC, counted in microseconds from 1970-01-01T00:00:00Z
/// without leap seconds.
#[derive(Debug, Clone, Copy, PartialEq, Eq, Structural)]
pub struct Timestamp {
    pub micros: i64,
}

impl Timestamp {
    /// Whether `self` lies strictly later than `other`.
    pub open spec fn is_after(self, other: Timestamp) -> bool {
        self.micros > other.micros
    }

    /// Whether a session issued at `self` has an expiry that can be written down.
    pub open spec fn can_issue(self) -> bool {
        self.micros + SESSION_LIFETIME_MICROS <= i64::MAX
    }

    /// The instant at which a session issued at `self` expires.
    pub open spec fn expiry(self) -> Timestamp {
        Timestamp { micros: (self.micros + SESSION_LIFETIME_MICROS) as i64 }
    }

    /// Compares two instants.
    pub fn after(&self, other: &Timestamp) -> (later: bool)
        ensures
            later == self.is_after(*other),
    {
        self.micros > other.micros
    }

    /// Adds the session lifetime to an issuance time.
    pub fn expires(&self) -> (at: Timestamp)
        requires
            self.can_issue(),
        ensures
            at == self.expiry(),
            at.micros == self.micros + SESSION_LIFETIME_MICROS,
    {
        Timestamp { micros: self.micros + SESSION_LIFETIME_MICROS }
    }
}

/// Reads the system clock through `chrono::Utc::now` and hands the reading
/// back as `DateTime::timestamp_micros` counts it.
///
/// Believed of chrono: `Utc::now` fails rather than return an instant before
/// the epoch, and no `DateTime` lies past the year 262 142, so the count is
/// never negative and never beyond [`CLOCK_HORIZON_MICROS`].
#[verifier::external_body]
pub(crate) fn now() -> (t: Timestamp)
    ensures
        0 <= t.micros <= CLOCK_HORIZON_MICROS,
{
    Timestamp { micros: chrono::Utc::now().timestamp_micros() }
}

} // verus!
