//! Status codes of the interface and their descriptions.
use vstd::prelude::*;

verus! {

/// What a call of the interface answers. `Success` is the only code that is not an error.
#[derive(Debug, Clone, Copy, PartialEq, Eq, Structural)]
pub enum PQSigningError {
    Success,
    EncodingAttemptsExceeded,
    InvalidPointer,
    InvalidMessageLength,
    InvalidEpoch,
    UnknownError,
}

impl PQSigningError {
    /// The number that stands for this code in the C interface.
    pub open spec fn spec_code(self) -> i32 {
        match self {
            PQSigningError::Success => 0,
            PQSigningError::EncodingAttemptsExceeded => 1,
            PQSigningError::InvalidPointer => 2,
            PQSigningError::InvalidMessageLength => 3,
            PQSigningError::InvalidEpoch => 4,
            PQSigningError::UnknownError => 99,
        }
    }

    /// The English description of this code.
    pub open spec fn spec_description(self) -> Seq<char> {
        match self {
            PQSigningError::Success => "Success"@,
            PQSigningError::EncodingAttemptsExceeded => "Encoding attempts exceeded"@,
            PQSigningError::InvalidPointer => "Invalid pointer"@,
            PQSigningError::InvalidMessageLength => "Invalid message length"@,
            PQSigningError::InvalidEpoch => "Invalid epoch"@,
            PQSigningError::UnknownError => "Unknown error"@,
        }
    }

    /// The number that stands for this code in the C interface.
    pub fn code(self) -> (code: i32)
        ensures
            code == self.spec_code(),
    {
        match self {
            PQSigningError::Success => 0,
            PQSigningError::EncodingAttemptsExceeded => 1,
            PQSigningError::InvalidPointer => 2,
            PQSigningError::InvalidMessageLength => 3,
            PQSigningError::InvalidEpoch => 4,
            PQSigningError::UnknownError => 99,
        }
    }
}

/// The English description of a status code.
pub fn pq_error_description(error: PQSigningError) -> (description: &'static str)
    ensures
        description@ == error.spec_description(),
{
    match error {
        PQSigningError::Success => "Success",
        PQSigningError::EncodingAttemptsExceeded => "Encoding attempts exceeded",
        PQSigningError::InvalidPointer => "Invalid pointer",
        PQSigningError::InvalidMessageLength => "Invalid message length",
        PQSigningError::InvalidEpoch => "Invalid epoch",
        PQSigningError::UnknownError => "Unknown error",
    }
}

/// Two status codes with the same number are the same code.
pub proof fn law_codes_are_distinct(a: PQSigningError, b: PQSigningError)
    requires
        a.spec_code() == b.spec_code(),
    ensures
        a == b,
{
}

/// Two status codes with the same description are the same code.
pub proof fn law_descriptions_are_distinct(a: PQSigningError, b: PQSigningError)
    requires
        a.spec_description() == b.spec_description(),
    ensures
        a == b,
{
    reveal_strlit("Success");
    reveal_strlit("Encoding attempts exceeded");
    reveal_strlit("Invalid pointer");
    reveal_strlit("Invalid message length");
    reveal_strlit("Invalid epoch");
    reveal_strlit("Unknown error");
    assert("Success"@.len() == 7);
    assert("Encoding attempts exceeded"@.len() == 26);
    assert("Invalid pointer"@.len() == 15);
    assert("Invalid message length"@.len() == 22);
    assert("Invalid epoch"@.len() == 13);
    assert("Unknown error"@.len() == 13);
    assert("Invalid epoch"@[0] == 'I');
    assert("Unknown error"@[0] == 'U');
}

} // verus!
