//! The error taxonomy: service-reported codes and local encoding
//! failures.
//!
//! On the wire every response carries a signed code. Zero means success,
//! negative values name a failure, and for read and write responses a
//! non-negative value is the number of bytes transferred. The helpers
//! here classify raw codes into the [`Error`] taxonomy that every
//! operation returns.

use vstd::prelude::*;

verus! {

/// Wire code for a successful response.
pub const NO_ERROR: i64 = 0;

/// Wire code for a failure with no more specific cause.
pub const ERR_GENERIC: i64 = -1;

/// Wire code: the named file does not exist.
pub const ERR_NOT_FOUND: i64 = -2;

/// Wire code: the named file already exists.
pub const ERR_ALREADY_EXISTS: i64 = -3;

/// Wire code: a handle to the file is already open.
pub const ERR_BUSY: i64 = -4;

/// Wire code: the supplied buffer is smaller than the data.
pub const ERR_NOT_ENOUGH_BUFFER: i64 = -5;

/// Wire code: the request carried an invalid flag combination.
pub const ERR_NOT_VALID: i64 = -6;

/// Wire code: the service is out of space.
pub const ERR_NO_SPACE: i64 = -7;

/// Wire code: the caller may not perform this operation.
pub const ERR_ACCESS_DENIED: i64 = -8;

/// Wire code: the connection to the service was lost.
pub const ERR_CHANNEL_CLOSED: i64 = -9;

/// A failure reported by the storage service, classified from the wire
/// code of a response.
#[derive(Clone, Copy, Debug, PartialEq, Eq, Structural)]
pub enum ErrorCode {
    /// A failure with no more specific cause.
    Generic,
    /// The named file does not exist.
    NotFound,
    /// The named file already exists.
    AlreadyExists,
    /// A handle to the file is already open.
    Busy,
    /// The supplied buffer is smaller than the file contents.
    NotEnoughBuffer,
    /// The request carried an invalid flag combination.
    NotValid,
    /// The service is out of space.
    NoSpace,
    /// The caller may not perform this operation.
    AccessDenied,
    /// The connection to the service was lost.
    ChannelClosed,
}

impl ErrorCode {
    /// The classification of a raw wire code.
    ///
    /// Every code without a dedicated variant classifies as `Generic`,
    /// so the taxonomy is total over all responses the service can send.
    pub open spec fn spec_from_code(code: i64) -> ErrorCode {
        if code == ERR_NOT_FOUND {
            ErrorCode::NotFound
        } else if code == ERR_ALREADY_EXISTS {
            ErrorCode::AlreadyExists
        } else if code == ERR_BUSY {
            ErrorCode::Busy
        } else if code == ERR_NOT_ENOUGH_BUFFER {
            ErrorCode::NotEnoughBuffer
        } else if code == ERR_NOT_VALID {
            ErrorCode::NotValid
        } else if code == ERR_NO_SPACE {
            ErrorCode::NoSpace
        } else if code == ERR_ACCESS_DENIED {
            ErrorCode::AccessDenied
        } else if code == ERR_CHANNEL_CLOSED {
            ErrorCode::ChannelClosed
        } else {
            ErrorCode::Generic
        }
    }

    /// Classifies a raw wire code.
    #[verifier::when_used_as_spec(spec_from_code)]
    pub fn from_code(code: i64) -> (e: ErrorCode)
        ensures
            e == ErrorCode::spec_from_code(code),
    {
        if code == ERR_NOT_FOUND {
            ErrorCode::NotFound
        } else if code == ERR_ALREADY_EXISTS {
            ErrorCode::AlreadyExists
        } else if code == ERR_BUSY {
            ErrorCode::Busy
        } else if code == ERR_NOT_ENOUGH_BUFFER {
            ErrorCode::NotEnoughBuffer
        } else if code == ERR_NOT_VALID {
            ErrorCode::NotValid
        } else if code == ERR_NO_SPACE {
            ErrorCode::NoSpace
        } else if code == ERR_ACCESS_DENIED {
            ErrorCode::AccessDenied
        } else if code == ERR_CHANNEL_CLOSED {
            ErrorCode::ChannelClosed
        } else {
            ErrorCode::Generic
        }
    }

    /// The wire code a classified error is sent as.
    pub open spec fn spec_to_code(self) -> i64 {
        match self {
            ErrorCode::Generic => ERR_GENERIC,
            ErrorCode::NotFound => ERR_NOT_FOUND,
            ErrorCode::AlreadyExists => ERR_ALREADY_EXISTS,
            ErrorCode::Busy => ERR_BUSY,
            ErrorCode::NotEnoughBuffer => ERR_NOT_ENOUGH_BUFFER,
            ErrorCode::NotValid => ERR_NOT_VALID,
            ErrorCode::NoSpace => ERR_NO_SPACE,
            ErrorCode::AccessDenied => ERR_ACCESS_DENIED,
            ErrorCode::ChannelClosed => ERR_CHANNEL_CLOSED,
        }
    }

    /// Whether a wire code signals failure. Only zero is success: read
    /// and write byte counts are checked separately, since for them any
    /// non-negative value succeeds.
    pub open spec fn spec_is_err(code: i64) -> bool {
        code != NO_ERROR
    }

    /// Tests a wire code for failure.
    #[verifier::when_used_as_spec(spec_is_err)]
    pub fn is_err(code: i64) -> (r: bool)
        ensures
            r == ErrorCode::spec_is_err(code),
    {
        code != NO_ERROR
    }
}

/// A name could not be converted to its null-terminated wire form
/// because it contains an embedded terminator byte.
///
/// `pos` is the byte offset of the first embedded terminator.
#[derive(Clone, Copy, Debug, PartialEq, Eq, Structural)]
pub struct TryNewError {
    /// Byte offset of the first embedded terminator in the name.
    pub pos: usize,
}

/// Common error type for file operations.
///
/// Errors mostly originate from the storage service; the remaining
/// variant is produced locally, before any request is sent.
#[derive(Clone, Copy, Debug, PartialEq, Eq, Structural)]
pub enum Error {
    /// An error code returned by the storage service.
    Code(ErrorCode),
    /// A name could not be converted to its wire form.
    TryNew(TryNewError),
}

impl Error {
    /// Checks the wire code of a response and converts it to an `Error`
    /// if it signals failure, so that service errors propagate with `?`.
    pub fn try_from_code(code: i64) -> (r: Result<(), Error>)
        ensures
            code == NO_ERROR <==> r is Ok,
            code != NO_ERROR ==> r == Result::<(), Error>::Err(
                Error::Code(ErrorCode::spec_from_code(code)),
            ),
    {
        if ErrorCode::is_err(code) {
            return Err(Error::Code(ErrorCode::from_code(code)));
        }
        Ok(())
    }

    /// Checks a size-carrying response, where a negative value encodes
    /// an error and a non-negative value is a byte count.
    pub fn try_from_size(size: isize) -> (r: Result<usize, Error>)
        ensures
            size >= 0 ==> r == Result::<usize, Error>::Ok(size as usize),
            size < 0 ==> r == Result::<usize, Error>::Err(
                Error::Code(ErrorCode::spec_from_code(size as i64)),
            ),
    {
        if size < 0 {
            return Err(Error::Code(ErrorCode::from_code(size as i64)));
        }
        Ok(size as usize)
    }
}

impl From<TryNewError> for Error {
    fn from(cause: TryNewError) -> (e: Self) {
        Error::TryNew(cause)
    }
}

impl vstd::std_specs::convert::FromSpecImpl<TryNewError> for Error {
    open spec fn obeys_from_spec() -> bool {
        true
    }

    open spec fn from_spec(cause: TryNewError) -> Self {
        Error::TryNew(cause)
    }
}

} // verus!
