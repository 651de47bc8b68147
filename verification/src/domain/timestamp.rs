//! Points in time, kept as seconds and nanoseconds since the Unix epoch.

use vstd::prelude::*;

verus! {

/// The RFC 3339 text of the UTC moment that lies `seconds` seconds and
/// `nanos` nanoseconds after 1970-01-01T00:00:00, or `None` where no calendar
/// date stands for that moment.
pub uninterp spec fn rfc3339_text(seconds: i64, nanos: u32) -> Option<Seq<char>>;

/// Formats a moment with chrono: `DateTime::from_timestamp` builds the UTC
/// date and time, `DateTime::to_rfc3339` writes it. Not proved: that the text
/// returned is `rfc3339_text` of the two numbers, and that chrono gives no
/// date exactly where `rfc3339_text` is `None`.
#[verifier::external_body]
fn format_rfc3339(seconds: i64, nanos: u32) -> (text: Option<String>)
    ensures
        match text {
            Some(t) => rfc3339_text(seconds, nanos) == Some(t@),
            None => rfc3339_text(seconds, nanos) is None,
        },
{
    match chrono::DateTime::from_timestamp(seconds, nanos) {
        Some(moment) => Some(moment.to_rfc3339()),
        None => None,
    }
}

/// Reads the system clock with chrono's `Utc::now` and takes the moment apart
/// with `DateTime::timestamp` and `DateTime::timestamp_subsec_nanos`. Not
/// proved: that the two numbers stand for a calendar date, which chrono
/// documents as the round trip through `from_timestamp`. `Utc::now` panics
/// on a machine whose clock is set before 1970.
#[verifier::external_body]
fn read_clock() -> (reading: (i64, u32))
    ensures
        rfc3339_text(reading.0, reading.1) is Some,
{
    let moment = chrono::Utc::now();
    (moment.timestamp(), moment.timestamp_subsec_nanos())
}

/// A moment in UTC. Every value stands for a calendar date, so it can always
/// be written out.
#[derive(Debug, Clone, Copy, PartialEq, Eq)]
pub struct Timestamp {
    seconds: i64,
    nanos: u32,
}

impl Timestamp {
    #[verifier::type_invariant]
    spec fn parts_have_date(self) -> bool {
        rfc3339_text(self.seconds, self.nanos) is Some
    }

    /// Whether a calendar date stands for this moment, so that it can be
    /// written out. Every moment that this type hands out has one.
    pub open spec fn has_date(&self) -> bool {
        rfc3339_text(self.spec_seconds(), self.spec_nanos()) is Some
    }

    /// Whole seconds since the Unix epoch.
    pub closed spec fn spec_seconds(&self) -> i64 {
        self.seconds
    }

    /// Nanoseconds since the last whole second.
    pub closed spec fn spec_nanos(&self) -> u32 {
        self.nanos
    }

    /// The text that `to_rfc3339` writes for this moment.
    pub open spec fn text(&self) -> Seq<char> {
        rfc3339_text(self.spec_seconds(), self.spec_nanos()).unwrap()
    }

    /// The moment `seconds` and `nanos` after the epoch, where it has a
    /// calendar date.
    pub fn from_parts(seconds: i64, nanos: u32) -> (moment: Option<Timestamp>)
        ensures
            moment is Some <==> rfc3339_text(seconds, nanos) is Some,
            moment matches Some(t) ==> t.spec_seconds() == seconds && t.spec_nanos() == nanos
                && t.has_date(),
    {
        match format_rfc3339(seconds, nanos) {
            Some(_) => Some(Timestamp { seconds, nanos }),
            None => None,
        }
    }

    /// The current moment by the system clock. Which moment that is, the
    /// clock decides; whatever it reads has a calendar date.
    pub fn now() -> (moment: Timestamp)
        ensures
            moment.has_date(),
    {
        let reading = read_clock();
        Timestamp { seconds: reading.0, nanos: reading.1 }
    }

    #[verifier::when_used_as_spec(spec_seconds)]
    pub fn seconds(&self) -> (s: i64)
        ensures
            s == self.spec_seconds(),
    {
        self.seconds
    }

    #[verifier::when_used_as_spec(spec_nanos)]
    pub fn nanos(&self) -> (n: u32)
        ensures
            n == self.spec_nanos(),
    {
        self.nanos
    }

    /// This moment in RFC 3339 form, such as `2015-05-15T00:00:00+00:00`.
    pub fn to_rfc3339(&self) -> (written: String)
        ensures
            written@ == self.text(),
            rfc3339_text(self.spec_seconds(), self.spec_nanos()) == Some(written@),
    {
        proof {
            use_type_invariant(self);
        }
        let formatted = format_rfc3339(self.seconds, self.nanos);
        formatted.unwrap()
    }
}

} // verus!
