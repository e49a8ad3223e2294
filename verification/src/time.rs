//! Instants in UTC, as the seconds and nanoseconds that chrono counts.

use vstd::prelude::*;

verus! {

/// Whether `DateTime::from_timestamp` of chrono accepts the two numbers:
/// the date lies in the range of years that chrono can hold, and the
/// nanoseconds are a valid fraction of that second.
pub uninterp spec fn utc_in_range(secs: i64, nanos: u32) -> bool;

/// The text that `DateTime::<Utc>::to_rfc3339` of chrono writes for the
/// instant `secs` seconds and `nanos` nanoseconds after the Unix epoch.
pub uninterp spec fn rfc3339_text(secs: i64, nanos: u32) -> Seq<char>;

/// What chrono's source shows of every instant that it accepts: the day,
/// counted from the year 1, fits 32 bits, and the nanoseconds stay under two
/// seconds.
pub open spec fn within_chrono_bounds(secs: i64, nanos: u32) -> bool {
    &&& i32::MIN <= secs as int / 86_400 + 719_163 <= i32::MAX
    &&& nanos < 2_000_000_000
}

/// An instant in UTC that chrono can hold.
#[derive(Clone, Copy, Debug, PartialEq, Eq)]
pub struct UtcDateTime {
    pub(crate) secs: i64,
    pub(crate) nanos: u32,
}

impl UtcDateTime {
    #[verifier::type_invariant]
    pub closed spec fn inv(self) -> bool {
        &&& utc_in_range(self.secs, self.nanos)
        &&& within_chrono_bounds(self.secs, self.nanos)
    }

    /// Whole seconds since the Unix epoch.
    pub closed spec fn spec_timestamp(self) -> i64 {
        self.secs
    }

    /// Nanoseconds since the last whole second.
    pub closed spec fn spec_subsec_nanos(self) -> u32 {
        self.nanos
    }

    /// Milliseconds since the Unix epoch, rounded down.
    pub open spec fn spec_timestamp_millis(self) -> int {
        self.spec_timestamp() * 1000 + self.spec_subsec_nanos() as int / 1_000_000
    }

    /// `DateTime::from_timestamp` of chrono: the instant, where chrono accepts
    /// the two numbers, and nothing where it does not.
    #[verifier::external_body]
    pub(crate) fn checked_new(secs: i64, nanos: u32) -> (r: Option<UtcDateTime>)
        ensures
            r is Some <==> utc_in_range(secs, nanos),
            r is Some ==> within_chrono_bounds(secs, nanos),
            r matches Some(t) ==> t.spec_timestamp() == secs && t.spec_subsec_nanos() == nanos,
    {
        chrono::DateTime::from_timestamp(secs, nanos).map(|_| UtcDateTime { secs, nanos })
    }

    /// `Utc::now` of chrono, as the seconds and nanoseconds that its
    /// `timestamp` and `timestamp_subsec_nanos` give. The instant depends on
    /// the clock, so nothing is stated of it but what holds of every value
    /// of the type: chrono made it with `from_timestamp`, so accepts it.
    /// The outside function panics where the system clock lies before 1970.
    #[verifier::external_body]
    pub(crate) fn clock_now() -> (t: UtcDateTime) {
        let t = chrono::Utc::now();
        UtcDateTime { secs: t.timestamp(), nanos: t.timestamp_subsec_nanos() }
    }

    /// `DateTime::<Utc>::to_rfc3339` of chrono, on the instant rebuilt from its
    /// seconds and nanoseconds.
    #[verifier::external_body]
    pub(crate) fn format_rfc3339(secs: i64, nanos: u32) -> (s: String)
        requires
            utc_in_range(secs, nanos),
        ensures
            s@ == rfc3339_text(secs, nanos),
    {
        chrono::DateTime::from_timestamp(secs, nanos).unwrap().to_rfc3339()
    }

    /// The instant `secs` seconds and `nanos` nanoseconds after the Unix
    /// epoch, if chrono can hold it.
    pub fn from_timestamp(secs: i64, nanos: u32) -> (r: Option<UtcDateTime>)
        ensures
            r is Some <==> utc_in_range(secs, nanos),
            r matches Some(t) ==> t.spec_timestamp() == secs && t.spec_subsec_nanos() == nanos,
    {
        UtcDateTime::checked_new(secs, nanos)
    }

    /// The instant `millis` milliseconds after the Unix epoch, if chrono can
    /// hold it.
    pub fn from_timestamp_millis(millis: i64) -> (r: Option<UtcDateTime>)
        ensures
            r is Some <==> utc_in_range(
                (millis as int / 1000) as i64,
                ((millis as int % 1000) * 1_000_000) as u32,
            ),
            r matches Some(t) ==> {
                &&& t.spec_timestamp() == millis as int / 1000
                &&& t.spec_subsec_nanos() == (millis as int % 1000) * 1_000_000
                &&& t.spec_timestamp_millis() == millis
            },
    {
        let secs: i64;
        let rem: i64;
        if millis >= 0 {
            secs = millis / 1000;
            rem = millis % 1000;
        } else {
            let m: i64 = -(millis + 1);
            secs = -(m / 1000) - 1;
            rem = 999 - (m % 1000);
        }
        assert(secs == millis as int / 1000 && rem == millis as int % 1000) by (nonlinear_arith)
            requires
                (millis >= 0 && secs == millis as int / 1000 && rem == millis as int % 1000) || (
                millis < 0 && secs == -((-(millis + 1)) / 1000) - 1 && rem == 999 - ((-(millis
                    + 1)) % 1000)),
        ;
        let nanos: u32 = (rem as u32) * 1_000_000;
        UtcDateTime::checked_new(secs, nanos)
    }

    /// The present instant, as the system clock shows it. The clock alone
    /// decides which instant that is, so nothing is promised of it beyond
    /// what holds of every value of the type: chrono can hold it. What
    /// depends on the instant is decided by functions that take it as an
    /// argument.
    pub fn now() -> (t: UtcDateTime) {
        UtcDateTime::clock_now()
    }

    pub fn timestamp(&self) -> (r: i64)
        ensures
            r == self.spec_timestamp(),
    {
        self.secs
    }

    pub fn timestamp_subsec_nanos(&self) -> (r: u32)
        ensures
            r == self.spec_subsec_nanos(),
    {
        self.nanos
    }

    /// Milliseconds since the Unix epoch, rounded down.
    pub fn timestamp_millis(&self) -> (r: i64)
        ensures
            r == self.spec_timestamp_millis(),
    {
        proof {
            use_type_invariant(self);
        }
        self.secs * 1000 + (self.nanos / 1_000_000) as i64
    }

    /// The instant in the notation of RFC 3339.
    pub fn to_rfc3339(&self) -> (s: String)
        ensures
            s@ == rfc3339_text(self.spec_timestamp(), self.spec_subsec_nanos()),
    {
        proof {
            use_type_invariant(self);
        }
        UtcDateTime::format_rfc3339(self.secs, self.nanos)
    }
}

} // verus!
