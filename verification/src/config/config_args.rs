//! What the command line gives: the command, and the durations it overrides.

use crate::config::TimerCommand;
use crate::span::{nanos_of, Span, MAX_NANOS};
use humantime::DurationError;
use vstd::prelude::*;
use vstd::string::StringSliceAdditionalSpecFns;

verus! {

/// The arguments of the command line.
#[derive(Clone, Copy, Debug, PartialEq, Eq)]
pub struct ConfigArgs {
    pub command: TimerCommand,
    pub pomodoro_duration: Option<Span>,
    pub short_break_duration: Option<Span>,
    pub long_break_duration: Option<Span>,
}

/// `humantime::DurationError`: why a text is no duration. It is carried
/// through and never looked into.
#[verifier::external_type_specification]
#[verifier::external_body]
pub struct ExDurationError(humantime::DurationError);

/// What `humantime::parse_duration` makes of `text`: the whole seconds of the
/// duration and its nanoseconds below a second, or `None` where it rejects
/// the text.
pub uninterp spec fn parsed_duration(text: Seq<char>) -> Option<(u64, u32)>;

/// The most digits that a text may hold to be parsed.
pub const MAX_DIGITS: usize = 11;

/// Whether a byte is one of the digits `0` to `9`.
pub open spec fn is_digit(byte: u8) -> bool {
    0x30 <= byte <= 0x39
}

/// How many of `bytes` are digits. In the UTF-8 form of a text these bytes
/// are exactly its digit characters.
pub open spec fn digits(bytes: Seq<u8>) -> nat
    decreases bytes.len(),
{
    if bytes.len() == 0 {
        0
    } else if is_digit(bytes.last()) {
        digits(bytes.drop_last()) + 1
    } else {
        digits(bytes.drop_last())
    }
}

/// Whether a text is short enough in digits to be parsed.
pub open spec fn parsable(text: &str) -> bool {
    digits(text.spec_bytes()) <= MAX_DIGITS
}

/// Counts the digits of a text.
fn count_digits(text: &str) -> (count: usize)
    ensures
        count == digits(text.spec_bytes()),
{
    let bytes = text.as_bytes();
    let mut count: usize = 0;
    let mut i: usize = 0;
    while i < bytes.len()
        invariant
            i <= bytes.len(),
            count <= i,
            count == digits(bytes@.take(i as int)),
        decreases bytes.len() - i,
    {
        assert(bytes@.take(i + 1).drop_last() == bytes@.take(i as int));
        if 0x30 <= bytes[i] && bytes[i] <= 0x39 {
            count += 1;
        }
        i += 1;
    }
    assert(bytes@.take(i as int) == bytes@);
    count
}

/// `humantime::parse_duration`, with the duration taken apart by
/// `Duration::as_secs` and `Duration::subsec_nanos`. The outcome is a
/// function of `text` alone; what it is on a given text is not stated here.
///
/// The parser adds up seconds with checked arithmetic and then builds the
/// duration with `Duration::new`, which panics when a full second of
/// nanoseconds has to be carried into `u64::MAX` seconds. A text of at most
/// [`MAX_DIGITS`] digits stays far below that: its numbers add up to less
/// than 10^11, none of them counts for more than a year of 31,557,600
/// seconds, and 10^11 years are less than a fifth of `u64::MAX` seconds.
/// Texts of more digits are left out.
#[verifier::external_body]
fn parse_parts(text: &str) -> (parts: Result<(u64, u32), DurationError>)
    requires
        parsable(text),
    ensures
        parts matches Ok(p) ==> parsed_duration(text@) == Some(p),
        parts is Err ==> parsed_duration(text@) is None,
{
    match humantime::parse_duration(text) {
        Ok(duration) => Ok((duration.as_secs(), duration.subsec_nanos())),
        Err(error) => Err(error),
    }
}

/// The length in nanoseconds of a parsed duration, where the text was
/// accepted and the length is that of a span.
pub open spec fn accepted(parsed: Option<(u64, u32)>) -> Option<nat> {
    match parsed {
        Some((secs, nanos)) => if nanos_of(secs, nanos) <= MAX_NANOS {
            Some(nanos_of(secs, nanos))
        } else {
            None
        },
        None => None,
    }
}

/// What is left of a parse outcome when the error's details are dropped.
pub open spec fn outcome(parts: Result<(u64, u32), DurationError>) -> Option<(u64, u32)> {
    match parts {
        Ok(p) => Some(p),
        Err(_) => None,
    }
}

/// Whether `result` is the span of `length` nanoseconds, or, where there is
/// no length, the message "Invalid duration".
pub open spec fn reports(result: Result<Span, String>, length: Option<nat>) -> bool {
    match length {
        Some(nanos) => result matches Ok(span) && span@ == nanos,
        None => result matches Err(message) && message@ == "Invalid duration"@,
    }
}

impl ConfigArgs {
    /// Reads a duration in human-readable form, such as `25m`. A text of
    /// more than [`MAX_DIGITS`] digits, and a text that `humantime` rejects,
    /// give the message "Invalid duration".
    pub fn parse_duration(s: &str) -> (result: Result<Span, String>)
        ensures
            parsable(s) ==> reports(result, accepted(parsed_duration(s@))),
            !parsable(s) ==> reports(result, None),
    {
        if count_digits(s) <= MAX_DIGITS {
            Self::checked_duration(parse_parts(s))
        } else {
            Err("Invalid duration".to_owned())
        }
    }

    /// The span of a parsed duration: that of `secs` seconds and `nanos`
    /// nanoseconds for `Ok((secs, nanos))`, where that is no longer than the
    /// longest span; in every other case the message "Invalid duration".
    pub fn checked_duration(parts: Result<(u64, u32), DurationError>) -> (result: Result<
        Span,
        String,
    >)
        ensures
            reports(result, accepted(outcome(parts))),
    {
        match parts {
            Ok((secs, nanos)) => match Span::new(secs, nanos) {
                Some(span) => Ok(span),
                None => Err("Invalid duration".to_owned()),
            },
            Err(_) => Err("Invalid duration".to_owned()),
        }
    }
}

} // verus!
