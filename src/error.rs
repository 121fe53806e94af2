//! Status codes of the native layer and the library's error type.
use vstd::prelude::*;

verus! {

/// Status that the native layer returns on success.
pub const SPX_NOERROR: usize = 0;

/// Status that a zero-timeout wait returns while the action is still running.
pub const SPXERR_TIMEOUT: usize = 6;

/// Raw value of a handle that refers to nothing.
pub const SPXHANDLE_INVALID: u64 = 0;

/// Errors of the library.
#[derive(Debug, Clone, Copy, PartialEq, Eq, Structural)]
pub enum SpxError {
    /// A native call returned this non-success status.
    General(usize),
    /// A text meant for the native layer holds a NUL byte at this position.
    StrNulError(usize),
    /// A string buffer filled by the native layer holds no terminating NUL.
    InvalidCString,
    /// A string buffer filled by the native layer is not valid UTF-8.
    FromUtf8Error,
}

/// Turns a native status into `Ok(())` on success and into `General(status)` otherwise.
pub fn convert_err(hr: usize) -> (r: Result<(), SpxError>)
    ensures
        hr == SPX_NOERROR <==> r is Ok,
        hr != SPX_NOERROR ==> r == Err::<(), SpxError>(SpxError::General(hr)),
{
    if hr != SPX_NOERROR {
        return Err(SpxError::General(hr));
    }
    Ok(())
}

/// The value a native getter wrote, when its status says that it wrote one.
pub fn populate<T>(status: usize, value: T) -> (r: Result<T, SpxError>)
    ensures
        status == SPX_NOERROR ==> r == Ok::<T, SpxError>(value),
        status != SPX_NOERROR ==> r == Err::<T, SpxError>(SpxError::General(status)),
{
    match convert_err(status) {
        Ok(()) => Ok(value),
        Err(e) => Err(e),
    }
}

} // verus!
