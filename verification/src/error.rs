//! Status codes of the native framework and the errors of the binding.

use vstd::prelude::*;

verus! {

/// Status returned by native operations.
#[derive(Clone, Copy, Debug, PartialEq, Eq, Structural)]
pub enum CGError {
    /// `kCGErrorSuccess`
    Success,
    /// `kCGErrorFailure`
    Failure,
    /// `kCGErrorIllegalArgument`
    IllegalArgument,
    /// `kCGErrorInvalidConnection`
    InvalidConnection,
    /// `kCGErrorInvalidContext`
    InvalidContext,
    /// `kCGErrorCannotComplete`
    CannotComplete,
    /// `kCGErrorNotImplemented`
    NotImplemented,
    /// `kCGErrorRangeCheck`
    RangeCheck,
    /// `kCGErrorTypeCheck`
    TypeCheck,
    /// `kCGErrorInvalidOperation`
    InvalidOperation,
    /// `kCGErrorNoneAvailable`
    NoneAvailable,
}

impl CGError {
    /// The integer by which the native framework knows this status.
    pub open spec fn spec_code(self) -> int {
        match self {
            CGError::Success => 0,
            CGError::Failure => 1000,
            CGError::IllegalArgument => 1001,
            CGError::InvalidConnection => 1002,
            CGError::InvalidContext => 1003,
            CGError::CannotComplete => 1004,
            CGError::NotImplemented => 1006,
            CGError::RangeCheck => 1007,
            CGError::TypeCheck => 1008,
            CGError::InvalidOperation => 1010,
            CGError::NoneAvailable => 1011,
        }
    }

    /// The status with the native code `code`, if there is one.
    pub open spec fn spec_from_code(code: int) -> Option<CGError> {
        if code == 0 {
            Some(CGError::Success)
        } else if code == 1000 {
            Some(CGError::Failure)
        } else if code == 1001 {
            Some(CGError::IllegalArgument)
        } else if code == 1002 {
            Some(CGError::InvalidConnection)
        } else if code == 1003 {
            Some(CGError::InvalidContext)
        } else if code == 1004 {
            Some(CGError::CannotComplete)
        } else if code == 1006 {
            Some(CGError::NotImplemented)
        } else if code == 1007 {
            Some(CGError::RangeCheck)
        } else if code == 1008 {
            Some(CGError::TypeCheck)
        } else if code == 1010 {
            Some(CGError::InvalidOperation)
        } else if code == 1011 {
            Some(CGError::NoneAvailable)
        } else {
            None
        }
    }

    pub fn code(self) -> (code: i32)
        ensures
            code == self.spec_code(),
    {
        match self {
            CGError::Success => 0,
            CGError::Failure => 1000,
            CGError::IllegalArgument => 1001,
            CGError::InvalidConnection => 1002,
            CGError::InvalidContext => 1003,
            CGError::CannotComplete => 1004,
            CGError::NotImplemented => 1006,
            CGError::RangeCheck => 1007,
            CGError::TypeCheck => 1008,
            CGError::InvalidOperation => 1010,
            CGError::NoneAvailable => 1011,
        }
    }

    pub fn from_code(code: i32) -> (status: Option<CGError>)
        ensures
            status == Self::spec_from_code(code as int),
    {
        match code {
            0 => Some(CGError::Success),
            1000 => Some(CGError::Failure),
            1001 => Some(CGError::IllegalArgument),
            1002 => Some(CGError::InvalidConnection),
            1003 => Some(CGError::InvalidContext),
            1004 => Some(CGError::CannotComplete),
            1006 => Some(CGError::NotImplemented),
            1007 => Some(CGError::RangeCheck),
            1008 => Some(CGError::TypeCheck),
            1010 => Some(CGError::InvalidOperation),
            1011 => Some(CGError::NoneAvailable),
            _ => None,
        }
    }

    /// Every status is found again from its own code.
    pub proof fn lemma_code_round_trip(self)
        ensures
            Self::spec_from_code(self.spec_code()) == Some(self),
    {
    }

    /// A code names at most one status: the one whose code it is.
    pub proof fn lemma_from_code_sound(code: int)
        ensures
            match Self::spec_from_code(code) {
                Some(status) => status.spec_code() == code,
                None => forall|status: CGError| status.spec_code() != code,
            },
    {
    }
}

impl CGError {
    /// The status for a code that a native operation returned.  A code that
    /// the framework has no name for is a failure all the same, so it is
    /// read as the general one: only the code zero is ever a success.
    pub open spec fn spec_from_native(code: int) -> CGError {
        match Self::spec_from_code(code) {
            Some(status) => status,
            None => CGError::Failure,
        }
    }

    pub fn from_native(code: i32) -> (status: CGError)
        ensures
            status == Self::spec_from_native(code as int),
            status == CGError::Success <==> code == 0,
    {
        match CGError::from_code(code) {
            Some(status) => status,
            None => CGError::Failure,
        }
    }

    pub fn is_success(self) -> (yes: bool)
        ensures
            yes == (self == CGError::Success),
    {
        match self {
            CGError::Success => true,
            _ => false,
        }
    }

    /// The outcome of a native operation that returns nothing but a
    /// status: done on success, and every other status as the error, as it
    /// came.
    pub fn into_result(self) -> (outcome: Result<(), CGError>)
        ensures
            outcome == if self == CGError::Success {
                Ok::<(), CGError>(())
            } else {
                Err::<(), CGError>(self)
            },
    {
        match self {
            CGError::Success => Ok(()),
            _ => Err(self),
        }
    }

    /// The outcome of a native operation that returns a status and writes
    /// a value: the value on success, and every other status as the error,
    /// as it came.
    pub fn into_result_with<T>(self, value: T) -> (outcome: Result<T, CGError>)
        ensures
            outcome == if self == CGError::Success {
                Ok::<T, CGError>(value)
            } else {
                Err::<T, CGError>(self)
            },
    {
        match self {
            CGError::Success => Ok(value),
            _ => Err(self),
        }
    }
}

} // verus!
