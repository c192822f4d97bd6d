//! Errors of the sparse matrix routines and their messages.
use vstd::prelude::*;
use crate::text::string_of;

verus! {

/// An error of a sparse matrix routine.
#[derive(Debug)]
pub enum Error {
    InvalidInput { details: String },
    NotInvertible,
    DimensionMismatch { expected: usize, actual: usize },
    NullPointer(&'static str),
    SymbolicAnalysisFailed,
    NumericFactorizationFailed,
    MatrixMulFailed,
    SolveFailed,
}

/// The decimal digit character of `d`.
pub open spec fn digit_char(d: nat) -> char {
    if d == 0 {
        '0'
    } else if d == 1 {
        '1'
    } else if d == 2 {
        '2'
    } else if d == 3 {
        '3'
    } else if d == 4 {
        '4'
    } else if d == 5 {
        '5'
    } else if d == 6 {
        '6'
    } else if d == 7 {
        '7'
    } else if d == 8 {
        '8'
    } else {
        '9'
    }
}

/// The decimal writing of `n`, without leading zeros.
pub open spec fn decimal_text(n: nat) -> Seq<char>
    decreases n,
{
    if n < 10 {
        seq![digit_char(n)]
    } else {
        decimal_text(n / 10).push(digit_char(n % 10))
    }
}

/// The text of the decimal digit `d`.
fn digit_str(d: usize) -> (r: &'static str)
    requires
        d < 10,
    ensures
        r@ == seq![digit_char(d as nat)],
{
    proof {
        reveal_strlit("0");
        reveal_strlit("1");
        reveal_strlit("2");
        reveal_strlit("3");
        reveal_strlit("4");
        reveal_strlit("5");
        reveal_strlit("6");
        reveal_strlit("7");
        reveal_strlit("8");
        reveal_strlit("9");
    }
    if d == 0 {
        "0"
    } else if d == 1 {
        "1"
    } else if d == 2 {
        "2"
    } else if d == 3 {
        "3"
    } else if d == 4 {
        "4"
    } else if d == 5 {
        "5"
    } else if d == 6 {
        "6"
    } else if d == 7 {
        "7"
    } else if d == 8 {
        "8"
    } else {
        "9"
    }
}

/// Writes `n` in decimal, as `Display` does for integers.
pub fn decimal(n: usize) -> (r: String)
    ensures
        r@ == decimal_text(n as nat),
    decreases n,
{
    if n < 10 {
        string_of(digit_str(n))
    } else {
        let mut r = decimal(n / 10);
        r.append(digit_str(n % 10));
        r
    }
}

/// The message of an error.
pub open spec fn error_message(e: Error) -> Seq<char> {
    match e {
        Error::InvalidInput { details } => "invalid input: "@ + details@,
        Error::NotInvertible => "matrix is not invertible"@,
        Error::DimensionMismatch { expected, actual } => "dimension mismatch: expected "@
            + decimal_text(expected as nat) + ", got "@ + decimal_text(actual as nat),
        Error::NullPointer(name) => "null pointer: "@ + name@,
        Error::SymbolicAnalysisFailed => "symbolic analysis failed"@,
        Error::NumericFactorizationFailed => "numeric factorization failed"@,
        Error::MatrixMulFailed => "matrix multiplication failed"@,
        Error::SolveFailed => "solve returned a non null code"@,
    }
}

impl Error {
    /// The message of this error.
    pub fn message(&self) -> (r: String)
        ensures
            r@ == error_message(*self),
    {
        match self {
            Error::InvalidInput { details } => {
                let mut r = string_of("invalid input: ");
                r.append(details.as_str());
                r
            },
            Error::NotInvertible => string_of("matrix is not invertible"),
            Error::DimensionMismatch { expected, actual } => {
                let mut r = string_of("dimension mismatch: expected ");
                r.append(decimal(*expected).as_str());
                r.append(", got ");
                r.append(decimal(*actual).as_str());
                r
            },
            Error::NullPointer(name) => {
                let mut r = string_of("null pointer: ");
                r.append(name);
                r
            },
            Error::SymbolicAnalysisFailed => string_of("symbolic analysis failed"),
            Error::NumericFactorizationFailed => string_of("numeric factorization failed"),
            Error::MatrixMulFailed => string_of("matrix multiplication failed"),
            Error::SolveFailed => string_of("solve returned a non null code"),
        }
    }
}

} // verus!
