use vstd::prelude::*;

verus! {

/// A UTC instant, held as whole seconds since the Unix epoch.
#[derive(Clone, Copy, PartialEq, Eq, Structural, Debug)]
pub struct Time {
    seconds: i64,
}

/// The instant, if any, that an RFC 3339 date-time string denotes,
/// in whole seconds since the Unix epoch.
pub uninterp spec fn rfc3339_seconds(s: Seq<char>) -> Option<int>;

impl Time {
    pub closed spec fn spec_seconds(&self) -> int {
        self.seconds as int
    }

    pub fn new(seconds: i64) -> (t: Time)
        ensures
            t.spec_seconds() == seconds,
    {
        Time { seconds }
    }

    pub fn seconds(&self) -> (s: i64)
        ensures
            s == self.spec_seconds(),
    {
        self.seconds
    }

    /// Relies on chrono's `Utc::now`: the current wall-clock instant.
    /// Nothing is promised of the value.
    #[verifier::external_body]
    pub fn now() -> Time {
        Time { seconds: chrono::Utc::now().timestamp() }
    }

    /// Relies on chrono's `DateTime::parse_from_rfc3339`: whether a string
    /// parses, and the instant it denotes, depend on the characters alone.
    #[verifier::external_body]
    pub fn parse_rfc3339(s: &str) -> (r: Option<Time>)
        ensures
            match r {
                Some(t) => rfc3339_seconds(s@) == Some(t.spec_seconds()),
                None => rfc3339_seconds(s@) is None,
            },
    {
        match chrono::DateTime::parse_from_rfc3339(s) {
            Ok(dt) => Some(Time { seconds: dt.timestamp() }),
            Err(_) => None,
        }
    }
}

} // verus!
