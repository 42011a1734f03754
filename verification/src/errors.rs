//! The classified failures of a transpile request and their status codes.

use vstd::prelude::*;

verus! {

/// Why a transpile request failed.
///
/// Each variant has a fixed status code, so that a failure can cross a boundary
/// that carries nothing but a small integer. Zero is never an error's code: it
/// stands for success.
#[derive(Debug, Clone, Copy, PartialEq, Eq, Structural)]
pub enum Error {
    /// A syntax error was reported while the syntax tree was built.
    Parse,
    /// The tree could not be written out as text.
    Emission,
    /// The module name is not valid UTF-8.
    InvalidString,
    /// The source text is not valid UTF-8.
    UTF8InvalidSlice,
}

/// The status code of a request that succeeded.
pub const STATUS_OK: i8 = 0;

impl Error {
    /// The status code of this failure.
    pub open spec fn code_spec(self) -> i8 {
        match self {
            Error::Parse => 1,
            Error::Emission => 2,
            Error::InvalidString => 3,
            Error::UTF8InvalidSlice => 4,
        }
    }

    /// The status code of this failure.
    #[verifier::when_used_as_spec(code_spec)]
    pub fn code(self) -> (code: i8)
        ensures
            code == self.code_spec(),
    {
        match self {
            Error::Parse => 1,
            Error::Emission => 2,
            Error::InvalidString => 3,
            Error::UTF8InvalidSlice => 4,
        }
    }

    /// The failure that a status code stands for, if it stands for one.
    pub open spec fn from_code_spec(code: i8) -> Option<Error> {
        if code == 1 {
            Some(Error::Parse)
        } else if code == 2 {
            Some(Error::Emission)
        } else if code == 3 {
            Some(Error::InvalidString)
        } else if code == 4 {
            Some(Error::UTF8InvalidSlice)
        } else {
            None
        }
    }

    /// The failure that a status code stands for: `None` for zero and for every
    /// number that is no failure's code.
    pub fn from_code(code: i8) -> (error: Option<Error>)
        ensures
            error == Error::from_code_spec(code),
            error matches Some(e) ==> e.code_spec() == code,
            error is None <==> !(1 <= code <= 4),
    {
        if code == 1 {
            Some(Error::Parse)
        } else if code == 2 {
            Some(Error::Emission)
        } else if code == 3 {
            Some(Error::InvalidString)
        } else if code == 4 {
            Some(Error::UTF8InvalidSlice)
        } else {
            None
        }
    }

    /// Whether the failure lies in the bytes handed in, before any stage of the
    /// pipeline has run.
    pub open spec fn is_invalid_input_spec(self) -> bool {
        self == Error::InvalidString || self == Error::UTF8InvalidSlice
    }

    /// Whether the failure lies in the bytes handed in, before any stage of the
    /// pipeline has run. Such a failure is mended by handing in valid text.
    #[verifier::when_used_as_spec(is_invalid_input_spec)]
    pub fn is_invalid_input(self) -> (invalid: bool)
        ensures
            invalid == self.is_invalid_input_spec(),
    {
        match self {
            Error::InvalidString => true,
            Error::UTF8InvalidSlice => true,
            _ => false,
        }
    }

    /// A short description of the failure.
    pub fn message(self) -> (text: String)
        ensures
            text@ == self.message_spec(),
    {
        match self {
            Error::Parse => "syntax error".to_string(),
            Error::Emission => "the output could not be written".to_string(),
            Error::InvalidString => "the module name is not valid UTF-8".to_string(),
            Error::UTF8InvalidSlice => "the source text is not valid UTF-8".to_string(),
        }
    }

    /// A short description of the failure.
    pub open spec fn message_spec(self) -> Seq<char> {
        match self {
            Error::Parse => "syntax error"@,
            Error::Emission => "the output could not be written"@,
            Error::InvalidString => "the module name is not valid UTF-8"@,
            Error::UTF8InvalidSlice => "the source text is not valid UTF-8"@,
        }
    }
}

impl From<Error> for i8 {
    fn from(v: Error) -> (code: i8) {
        v.code()
    }
}

impl vstd::std_specs::convert::FromSpecImpl<Error> for i8 {
    open spec fn obeys_from_spec() -> bool {
        true
    }

    open spec fn from_spec(v: Error) -> i8 {
        v.code_spec()
    }
}

/// The status code of a request's outcome: zero for success, the failure's code
/// otherwise. What a successful request returned plays no part.
pub open spec fn status_spec<T>(outcome: Result<T, Error>) -> i8 {
    match outcome {
        Ok(_) => STATUS_OK,
        Err(error) => error.code_spec(),
    }
}

/// The status code of a request's outcome: zero for success, the failure's code
/// otherwise.
pub fn status<T>(outcome: &Result<T, Error>) -> (code: i8)
    ensures
        code == status_spec(*outcome),
        code == STATUS_OK <==> outcome is Ok,
        0 <= code <= 4,
{
    match outcome {
        Ok(_) => STATUS_OK,
        Err(error) => error.code(),
    }
}

/// No failure has the code of success, and every code lies between one and four.
pub proof fn lemma_code_range(error: Error)
    ensures
        1 <= error.code_spec() <= 4,
        error.code_spec() != STATUS_OK,
{
}

/// Two failures with one code are the same failure.
pub proof fn lemma_code_injective(a: Error, b: Error)
    requires
        a.code_spec() == b.code_spec(),
    ensures
        a == b,
{
}

/// A failure is found again from its code.
pub proof fn lemma_code_round_trip(error: Error)
    ensures
        Error::from_code_spec(error.code_spec()) == Some(error),
{
}

} // verus!
