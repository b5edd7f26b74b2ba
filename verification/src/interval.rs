//! The pause between two cycles, written by the operator as a text such as
//! `10m` or `8h` and read by the `humantime` crate.

use vstd::prelude::*;

verus! {

/// A pause: whole seconds and the nanoseconds beyond them.
#[derive(Clone, Copy, Debug, PartialEq, Eq, Structural)]
pub struct Interval {
    pub secs: u64,
    pub nanos: u32,
}

impl Interval {
    /// The nanoseconds stay below one second.
    pub open spec fn wf(self) -> bool {
        self.nanos < 1_000_000_000
    }
}

/// Why a text was not taken as an interval.
#[derive(Clone, Copy, Debug, PartialEq, Eq, Structural)]
pub enum IntervalError {
    /// The text holds more digits than `MAX_DIGITS`; it was not parsed.
    TooManyDigits,
    /// The parser refused the text.
    Invalid,
}

/// The most decimal digits that a text may hold to be parsed.
pub const MAX_DIGITS: usize = 11;

/// One of the ten decimal digits.
pub open spec fn is_digit(c: char) -> bool {
    '0' <= c <= '9'
}

/// How many of the characters are decimal digits.
pub open spec fn digits_in(s: Seq<char>) -> nat
    decreases s.len(),
{
    if s.len() == 0 {
        0
    } else {
        digits_in(s.drop_last()) + if is_digit(s.last()) {
            1nat
        } else {
            0nat
        }
    }
}

/// The error of `humantime::parse_duration`. It is carried as it is:
/// nothing is known of what it holds.
#[verifier::external_type_specification]
#[verifier::external_body]
pub struct ExDurationError(humantime::DurationError);

/// What `humantime::parse_duration` makes of a text: the seconds and the
/// nanoseconds of the duration, or `None` where it returns an error.
pub uninterp spec fn parsed_duration(text: Seq<char>) -> Option<(u64, u32)>;

/// Calls `humantime::parse_duration`. Trusted: the result depends on the
/// text alone, and the nanoseconds of a `Duration` are below one second.
///
/// The parser checks its own arithmetic but builds its result with
/// `Duration::new`, which panics when the seconds overflow. A number of `d`
/// digits with its fraction adds less than `10^d` of its unit, and the
/// longest unit, the year, has under `10^8` seconds; so a text with at most
/// eleven digits stays below `10^19` seconds, out of reach of that panic.
#[verifier::external_body]
fn parse_duration(text: &str) -> (r: Result<(u64, u32), humantime::DurationError>)
    requires
        digits_in(text@) <= MAX_DIGITS,
    ensures
        match r {
            Ok(d) => parsed_duration(text@) == Some(d) && d.1 < 1_000_000_000,
            Err(_) => parsed_duration(text@) is None,
        },
{
    match humantime::parse_duration(text) {
        Ok(d) => Ok((d.as_secs(), d.subsec_nanos())),
        Err(e) => Err(e),
    }
}

/// Whether the text has few enough digits to be parsed.
pub fn few_digits(text: &str) -> (few: bool)
    ensures
        few == (digits_in(text@) <= MAX_DIGITS),
{
    let mut count: usize = 0;
    for c in it: text.chars()
        invariant
            it.seq() == text@,
            count <= MAX_DIGITS + 1,
            count <= MAX_DIGITS ==> count == digits_in(text@.take(it.index())),
            count > MAX_DIGITS ==> digits_in(text@.take(it.index())) > MAX_DIGITS,
    {
        assert(text@.take(it.index() + 1).drop_last() == text@.take(it.index()));
        if '0' <= c && c <= '9' && count <= MAX_DIGITS {
            count += 1;
        }
    }
    assert(text@.take(text@.len() as int) == text@);
    count <= MAX_DIGITS
}

impl Interval {
    /// The interval, or the error, that follows from what the parser returned.
    pub fn from_parsed(parsed: Result<(u64, u32), humantime::DurationError>) -> (r: Result<
        Interval,
        IntervalError,
    >)
        ensures
            r == match parsed {
                Ok(d) => Ok::<Interval, IntervalError>(Interval { secs: d.0, nanos: d.1 }),
                Err(_) => Err(IntervalError::Invalid),
            },
    {
        match parsed {
            Ok(d) => Ok(Interval { secs: d.0, nanos: d.1 }),
            Err(_) => Err(IntervalError::Invalid),
        }
    }

    /// The interval that a text stands for, or why it stands for none: a
    /// text with too many digits is not parsed, any other is what the
    /// parser makes of it.
    pub open spec fn parse_spec(text: Seq<char>) -> Result<Interval, IntervalError> {
        if digits_in(text) > MAX_DIGITS {
            Err(IntervalError::TooManyDigits)
        } else {
            match parsed_duration(text) {
                Some(d) => Ok(Interval { secs: d.0, nanos: d.1 }),
                None => Err(IntervalError::Invalid),
            }
        }
    }

    /// Reads an interval such as `10m`, `8h` or `1h 30m`.
    pub fn parse(text: &str) -> (r: Result<Interval, IntervalError>)
        ensures
            r == Interval::parse_spec(text@),
            r matches Ok(i) ==> i.wf(),
    {
        if few_digits(text) {
            Interval::from_parsed(parse_duration(text))
        } else {
            Err(IntervalError::TooManyDigits)
        }
    }
}

} // verus!
