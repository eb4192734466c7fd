//! The decisions taken on the command line before any request is sent: which
//! mode the arguments select and whether a requested batch size is allowed.
use vstd::prelude::*;
use crate::dispatch::{MAX_REQUESTS, MIN_REQUESTS};

verus! {

/// Why a requested batch size was refused.
#[derive(Debug, Clone, Copy, PartialEq, Eq)]
pub enum CountError {
    /// The count is not a non-negative decimal integer that fits in `u32`.
    NonNumeric,
    /// The count is below the minimum of one request.
    BelowMinimum,
    /// The count is above the maximum of two hundred requests.
    AboveMaximum,
}

/// The message shown for each refusal.
pub open spec fn error_message(e: CountError) -> Seq<char> {
    match e {
        CountError::NonNumeric => "Error! Non numeric third parameter"@,
        CountError::BelowMinimum => "Error! Minimum requests is 1"@,
        CountError::AboveMaximum => "Error! Maximum requests is 200"@,
    }
}

impl CountError {
    /// The message that tells the user which bound was violated.
    pub fn message(&self) -> (r: &'static str)
        ensures
            r@ == error_message(*self),
    {
        match self {
            CountError::NonNumeric => {
                proof { reveal_strlit("Error! Non numeric third parameter"); }
                "Error! Non numeric third parameter"
            },
            CountError::BelowMinimum => {
                proof { reveal_strlit("Error! Minimum requests is 1"); }
                "Error! Minimum requests is 1"
            },
            CountError::AboveMaximum => {
                proof { reveal_strlit("Error! Maximum requests is 200"); }
                "Error! Maximum requests is 200"
            },
        }
    }
}

/// The value of a non-empty run of decimal digits.
pub open spec fn digits_value(d: Seq<char>) -> int
    decreases d.len(),
{
    if d.len() == 0 {
        0
    } else {
        digits_value(d.drop_last()) * 10 + (d.last() as int - '0' as int)
    }
}

/// `d` is a non-empty run of decimal digits.
pub open spec fn is_digits(d: Seq<char>) -> bool {
    d.len() > 0 && forall|i: int| 0 <= i < d.len() ==> '0' <= #[trigger] d[i] <= '9'
}

/// How `u32` reads a decimal string: an optional `+` and then digits only,
/// with a value that fits in `u32`; anything else is refused.
pub open spec fn decimal_u32(s: Seq<char>) -> Option<u32> {
    let d = if s.len() > 0 && s[0] == '+' { s.drop_first() } else { s };
    if is_digits(d) && digits_value(d) <= u32::MAX {
        Some(digits_value(d) as u32)
    } else {
        None
    }
}

/// Relies on `<u32 as FromStr>::from_str`, which accepts an optional `+` and
/// then only decimal digits of a value in range.
#[verifier::external_body]
fn parse_u32(s: &str) -> (r: Option<u32>)
    ensures
        r == decimal_u32(s@),
{
    s.parse::<u32>().ok()
}

/// The verdict on a batch size once read: refused when it could not be read
/// or lies outside the allowed range, accepted otherwise.
pub open spec fn count_verdict(parsed: Option<u32>) -> Result<u32, CountError> {
    match parsed {
        None => Err(CountError::NonNumeric),
        Some(n) => if n < MIN_REQUESTS {
            Err(CountError::BelowMinimum)
        } else if n > MAX_REQUESTS {
            Err(CountError::AboveMaximum)
        } else {
            Ok(n)
        },
    }
}

/// Judges a batch size that has been read (or that could not be read).
pub fn check_count(parsed: Option<u32>) -> (r: Result<u32, CountError>)
    ensures
        r == count_verdict(parsed),
{
    match parsed {
        None => Err(CountError::NonNumeric),
        Some(n) => if n < MIN_REQUESTS {
            Err(CountError::BelowMinimum)
        } else if n > MAX_REQUESTS {
            Err(CountError::AboveMaximum)
        } else {
            Ok(n)
        },
    }
}

/// Reads and judges the batch size given on the command line.
pub fn parse_count(arg: &str) -> (r: Result<u32, CountError>)
    ensures
        r == count_verdict(decimal_u32(arg@)),
        r is Ok ==> MIN_REQUESTS <= r->Ok_0 <= MAX_REQUESTS,
{
    check_count(parse_u32(arg))
}

/// What the command line asks for.
#[derive(Debug, PartialEq, Eq)]
pub enum Command {
    /// No argument: show the usage text.
    Help,
    /// An address alone: send one request.
    Single { url: String },
    /// An address and an allowed count: send a batch.
    Batch { url: String, count: u32 },
    /// An address and a refused count: report it, send nothing.
    Rejected(CountError),
    /// More arguments than the tool takes.
    TooManyArguments,
}

/// Decides what the positional arguments (the program name left out) ask
/// for. A batch is planned only for an allowed count; any other count is
/// refused with the error for the bound it violates.
pub fn plan(args: Vec<String>) -> (c: Command)
    ensures
        args@.len() == 0 ==> c is Help,
        args@.len() == 1 ==> c is Single && c->Single_url@ == args@[0]@,
        args@.len() == 2 ==> match count_verdict(decimal_u32(args@[1]@)) {
            Ok(n) => c is Batch && c->Batch_url@ == args@[0]@ && c->count == n,
            Err(e) => c == Command::Rejected(e),
        },
        args@.len() > 2 ==> c is TooManyArguments,
{
    let mut args = args;
    let n = args.len();
    if n == 0 {
        Command::Help
    } else if n == 1 {
        let url = args.remove(0);
        Command::Single { url }
    } else if n == 2 {
        let verdict = parse_count(args[1].as_str());
        match verdict {
            Ok(count) => {
                let url = args.remove(0);
                Command::Batch { url, count }
            },
            Err(e) => Command::Rejected(e),
        }
    } else {
        Command::TooManyArguments
    }
}

} // verus!
