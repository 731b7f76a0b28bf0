use vstd::prelude::*;

verus! {

/// Relies on chrono's error for text that is not a date and time, held opaque.
#[verifier::external_type_specification]
#[verifier::external_body]
pub struct ExParseError(chrono::ParseError);

/// The instant that `s` denotes, as seconds since the Unix epoch and the
/// nanoseconds within that second, where `s` reads as a date and time.
pub uninterp spec fn utc_instant(s: Seq<char>) -> Option<(i64, u32)>;

/// Relies on chrono's `FromStr` for `DateTime<Utc>` (RFC 3339, relaxed) to read
/// `s`, and on `DateTime::timestamp` and `DateTime::timestamp_subsec_nanos` to
/// give the instant back as plain numbers.
#[verifier::external_body]
fn parse_utc(s: &str) -> (r: Result<(i64, u32), chrono::ParseError>)
    ensures
        match r {
            Ok(v) => utc_instant(s@) == Some(v),
            Err(_) => utc_instant(s@) is None,
        },
{
    s.parse::<chrono::DateTime<chrono::Utc>>().map(|d| (d.timestamp(), d.timestamp_subsec_nanos()))
}

/// An instant in UTC: seconds since the Unix epoch and nanoseconds within the
/// second.
#[derive(PartialEq, Eq, Structural, Clone, Copy, Debug)]
pub struct Timestamp {
    pub secs: i64,
    pub nanos: u32,
}

impl Timestamp {
    /// Reads a date and time such as `2024-01-01T00:05:00Z`.
    pub fn parse(s: &str) -> (r: Result<Timestamp, chrono::ParseError>)
        ensures
            match r {
                Ok(t) => utc_instant(s@) == Some((t.secs, t.nanos)),
                Err(_) => utc_instant(s@) is None,
            },
    {
        match parse_utc(s) {
            Ok((secs, nanos)) => Ok(Timestamp { secs, nanos }),
            Err(e) => Err(e),
        }
    }
}

} // verus!
