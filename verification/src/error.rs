//! The faults that the driver reports, and the value that a call is turned into
//! once the driver's error state has been read out.

use vstd::prelude::*;
use crate::codes;

verus! {

/// A fault category of the driver. `NoError` is what a poll of the driver's error
/// state yields when nothing is pending; it never stands in an error list.
#[derive(Copy, Clone, PartialEq, Eq, Structural, Debug)]
pub enum Error {
    NoError,
    InvalidEnum,
    InvalidValue,
    InvalidOperation,
    InvalidFramebufferOperation,
    OutOfMemory,
    StackUnderflow,
    StackOverflow,
    ContextLost,
}

/// What a call yields once the driver's error state has been read out: the value,
/// or every fault that was pending, oldest first.
pub type RGLResult<T> = Result<T, Vec<Error>>;

/// An `RGLResult` with its error list as a sequence.
pub open spec fn result_view<T>(result: RGLResult<T>) -> Result<T, Seq<Error>> {
    match result {
        Ok(value) => Ok(value),
        Err(errors) => Err(errors@),
    }
}

/// The result that stands for `success` once `errors` were read from the driver.
pub open spec fn outcome<T>(success: T, errors: Seq<Error>) -> Result<T, Seq<Error>> {
    if errors.len() == 0 {
        Ok(success)
    } else {
        Err(errors)
    }
}

impl Error {
    /// The code by which the driver reports this state.
    pub open spec fn code(self) -> u32 {
        match self {
            Error::NoError => codes::NO_ERROR,
            Error::InvalidEnum => codes::INVALID_ENUM,
            Error::InvalidValue => codes::INVALID_VALUE,
            Error::InvalidOperation => codes::INVALID_OPERATION,
            Error::InvalidFramebufferOperation => codes::INVALID_FRAMEBUFFER_OPERATION,
            Error::OutOfMemory => codes::OUT_OF_MEMORY,
            Error::StackUnderflow => codes::STACK_UNDERFLOW,
            Error::StackOverflow => codes::STACK_OVERFLOW,
            Error::ContextLost => codes::CONTEXT_LOST,
        }
    }

    /// Whether some state of the driver's error poll has this code.
    pub open spec fn known(code: u32) -> bool {
        exists|error: Error| error.code() == code
    }

    /// The state that the driver reports by `code`, if it is one that this library
    /// knows.
    pub fn from_gl_code(code: u32) -> (result: Result<Error, ()>)
        ensures
            result matches Ok(error) ==> error.code() == code,
            result is Err ==> !Error::known(code),
    {
        if code == codes::NO_ERROR {
            Ok(Error::NoError)
        } else if code == codes::INVALID_ENUM {
            Ok(Error::InvalidEnum)
        } else if code == codes::INVALID_VALUE {
            Ok(Error::InvalidValue)
        } else if code == codes::INVALID_OPERATION {
            Ok(Error::InvalidOperation)
        } else if code == codes::INVALID_FRAMEBUFFER_OPERATION {
            Ok(Error::InvalidFramebufferOperation)
        } else if code == codes::OUT_OF_MEMORY {
            Ok(Error::OutOfMemory)
        } else if code == codes::STACK_UNDERFLOW {
            Ok(Error::StackUnderflow)
        } else if code == codes::STACK_OVERFLOW {
            Ok(Error::StackOverflow)
        } else if code == codes::CONTEXT_LOST {
            Ok(Error::ContextLost)
        } else {
            Err(())
        }
    }
}

/// No two states of the error poll share a code.
pub proof fn lemma_error_codes_are_distinct(a: Error, b: Error)
    ensures
        a.code() == b.code() <==> a == b,
{
}

/// Pairs a value with the faults read from the driver: the value where there were
/// none, else the faults.
pub fn make_rgl_result<T>(success: T, errors: Vec<Error>) -> (result: RGLResult<T>)
    ensures
        result_view(result) == outcome(success, errors@),
{
    if errors.len() == 0 {
        Ok(success)
    } else {
        Err(errors)
    }
}

/// Reads one answer of the driver's error poll: the state it stands for, or `Err`
/// where the code is none that the driver interface defines.
pub fn get_error(code: u32) -> (result: Result<Error, ()>)
    ensures
        result matches Ok(error) ==> error.code() == code,
        result is Err ==> !Error::known(code),
{
    Error::from_gl_code(code)
}

/// Reads one answer of the driver's error poll that is known to be a code of the
/// driver interface.
pub fn get_error_unchecked(code: u32) -> (error: Error)
    requires
        Error::known(code),
    ensures
        error.code() == code,
{
    get_error(code).unwrap()
}

} // verus!
