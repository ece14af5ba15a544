//! Reading a timestamp in either of the two forms that producers write.

use vstd::prelude::*;
use crate::errors::XunitError;

verus! {

/// The format of a timestamp without an offset, as pytest writes it:
/// `YYYY-MM-DDTHH:MM:SS.ffffff`.
pub const DATE_TIME_FORMAT_PYTEST: &'static str = "%FT%T%.6f";

/// A point on the UTC time line.
#[derive(Debug, Clone, Copy, PartialEq, Eq)]
pub struct Instant {
    /// Whole non-leap seconds since 1970-01-01T00:00:00Z.
    pub secs: i64,
    /// Nanoseconds since that second began; a thousand million or more only
    /// within a leap second.
    pub nanos: u32,
}

impl Instant {
    /// The fraction stays below two seconds.
    pub open spec fn wf(self) -> bool {
        self.nanos < 2_000_000_000
    }
}

/// What `chrono::DateTime::parse_from_rfc3339` makes of `input`, the
/// instant taken to UTC.
pub uninterp spec fn rfc3339_reading(input: Seq<char>) -> Result<Instant, chrono::ParseError>;

/// What `chrono::NaiveDateTime::parse_from_str` makes of `input` under
/// `format`, the wall-clock time taken as UTC.
pub uninterp spec fn naive_reading(input: Seq<char>, format: Seq<char>) -> Result<
    Instant,
    chrono::ParseError,
>;

/// Calls `chrono::DateTime::parse_from_rfc3339` and reads the instant off
/// with `DateTime::timestamp` and `DateTime::timestamp_subsec_nanos`. The
/// result is a function of the text alone and is known only by its name,
/// `rfc3339_reading`; an instant that comes back keeps its fraction below
/// two seconds, as chrono's `Timelike::nanosecond` documents.
#[verifier::external_body]
fn read_rfc3339(input: &str) -> (reading: Result<Instant, chrono::ParseError>)
    ensures
        reading == rfc3339_reading(input@),
        reading matches Ok(at) ==> at.wf(),
{
    match chrono::DateTime::parse_from_rfc3339(input) {
        Ok(at) => Ok(Instant { secs: at.timestamp(), nanos: at.timestamp_subsec_nanos() }),
        Err(diagnostic) => Err(diagnostic),
    }
}

/// Calls `chrono::NaiveDateTime::parse_from_str`, takes the wall-clock
/// time as UTC with `NaiveDateTime::and_utc` and reads the instant off with
/// `DateTime::timestamp` and `DateTime::timestamp_subsec_nanos`. The result
/// is a function of the text and the format alone and is known only by its
/// name, `naive_reading`; an instant that comes back keeps its fraction
/// below two seconds, as chrono's `Timelike::nanosecond` documents.
#[verifier::external_body]
fn read_naive(input: &str, format: &str) -> (reading: Result<Instant, chrono::ParseError>)
    ensures
        reading == naive_reading(input@, format@),
        reading matches Ok(at) ==> at.wf(),
{
    match chrono::NaiveDateTime::parse_from_str(input, format) {
        Ok(wall) => {
            let at = wall.and_utc();
            Ok(Instant { secs: at.timestamp(), nanos: at.timestamp_subsec_nanos() })
        },
        Err(diagnostic) => Err(diagnostic),
    }
}

/// What a naive reading amounts to: the instant, or `InvalidDate` with the
/// parser's diagnostic.
pub open spec fn native_outcome(naive: Result<Instant, chrono::ParseError>) -> Result<
    Instant,
    XunitError,
> {
    match naive {
        Ok(at) => Ok(at),
        Err(diagnostic) => Err(XunitError::InvalidDate(diagnostic)),
    }
}

/// What the two readings of one timestamp amount to: the strict reading
/// wins where it succeeded, else the naive reading decides, and its
/// diagnostic is the one reported.
pub open spec fn parse_outcome(
    strict: Result<Instant, chrono::ParseError>,
    naive: Result<Instant, chrono::ParseError>,
) -> Result<Instant, XunitError> {
    match strict {
        Ok(at) => Ok(at),
        Err(_) => native_outcome(naive),
    }
}

/// The instant that a timestamp denotes.
pub open spec fn parsed(input: Seq<char>) -> Result<Instant, XunitError> {
    parse_outcome(rfc3339_reading(input), naive_reading(input, DATE_TIME_FORMAT_PYTEST@))
}

/// Turns the outcome of a naive reading into the outcome of the parse.
pub fn from_native_reading(naive: Result<Instant, chrono::ParseError>) -> (outcome: Result<
    Instant,
    XunitError,
>)
    ensures
        outcome == native_outcome(naive),
{
    match naive {
        Ok(at) => Ok(at),
        Err(diagnostic) => Err(XunitError::from(diagnostic)),
    }
}

/// Reads a timestamp without an offset and takes it as UTC; where it has
/// another form the result is `InvalidDate`, with the parser's diagnostic.
pub fn parse_from_native(input: &str) -> (outcome: Result<Instant, XunitError>)
    ensures
        outcome == native_outcome(naive_reading(input@, DATE_TIME_FORMAT_PYTEST@)),
        outcome matches Ok(at) ==> at.wf(),
{
    from_native_reading(read_naive(input, DATE_TIME_FORMAT_PYTEST))
}

/// Settles a timestamp whose strict reading is known: the instant of that
/// reading where it succeeded, else what the format without an offset
/// makes of `input`.
pub fn parse_after_strict(strict: Result<Instant, chrono::ParseError>, input: &str) -> (outcome:
    Result<Instant, XunitError>)
    ensures
        outcome == parse_outcome(strict, naive_reading(input@, DATE_TIME_FORMAT_PYTEST@)),
        (strict matches Ok(at) ==> at.wf()) ==> (outcome matches Ok(at) ==> at.wf()),
{
    match strict {
        Ok(at) => Ok(at),
        Err(_) => parse_from_native(input),
    }
}

/// Reads a timestamp: as RFC 3339 where it is one, else without an offset
/// and as UTC. Where it is neither the result is `InvalidDate`, with the
/// diagnostic of the second attempt.
pub fn parse(input: &str) -> (outcome: Result<Instant, XunitError>)
    ensures
        outcome == parsed(input@),
        outcome matches Ok(at) ==> at.wf(),
{
    parse_after_strict(read_rfc3339(input), input)
}

/// A timestamp fails to parse exactly where both readings fail, and the
/// failure is then `InvalidDate` with the diagnostic of the second reading,
/// the one without an offset.
pub proof fn lemma_failure_is_that_of_the_second_reading(input: Seq<char>)
    ensures
        parsed(input) is Err <==> rfc3339_reading(input) is Err && naive_reading(
            input,
            DATE_TIME_FORMAT_PYTEST@,
        ) is Err,
        parsed(input) is Err ==> parsed(input) == Err::<Instant, XunitError>(
            XunitError::InvalidDate(naive_reading(input, DATE_TIME_FORMAT_PYTEST@)->Err_0),
        ),
{
}

/// Two timestamps, one that reads as RFC 3339 and one that reads only
/// without an offset, parse to the same instant wherever those two
/// readings are the same instant.
pub proof fn lemma_both_forms_give_their_reading(
    strict_text: Seq<char>,
    naive_text: Seq<char>,
    at: Instant,
)
    requires
        rfc3339_reading(strict_text) == Ok::<Instant, chrono::ParseError>(at),
        rfc3339_reading(naive_text) is Err,
        naive_reading(naive_text, DATE_TIME_FORMAT_PYTEST@) == Ok::<Instant, chrono::ParseError>(
            at,
        ),
    ensures
        parsed(strict_text) == Ok::<Instant, XunitError>(at),
        parsed(naive_text) == Ok::<Instant, XunitError>(at),
{
}

} // verus!
