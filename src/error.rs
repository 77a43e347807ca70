use vstd::prelude::*;

verus! {

/// Operation not permitted.
pub const EPERM: i32 = 1;

/// Input/output error.
pub const EIO: i32 = 5;

/// Try again.
pub const EAGAIN: i32 = 11;

/// Invalid argument.
pub const EINVAL: i32 = 22;

/// The error kinds of the driver.
#[derive(Clone, Copy, Debug, PartialEq, Eq, Structural)]
pub enum Error {
    /// A request that is oversized, a zero-capacity buffer, a block over 32 bytes.
    InvalidArgument,
    /// A non-blocking read found no data.
    WouldBlock,
    /// A transport failure, carrying the native (negative) error code.
    Io(i32),
    /// An event arrived for a device with no handler context, or no device is active.
    InvalidState,
    /// The node was opened in a mode that allows writing.
    PermissionDenied,
    /// A transfer moved another number of bytes than the protocol needs.
    InvalidData,
}

/// The negative error code that stands for `e` at the bus subsystem's interface.
pub open spec fn errno_spec(e: Error) -> int {
    match e {
        Error::InvalidArgument => -EINVAL,
        Error::WouldBlock => -EAGAIN,
        Error::Io(code) => if code < 0 { code as int } else { -EIO },
        Error::InvalidState => -EINVAL,
        Error::PermissionDenied => -EPERM,
        Error::InvalidData => -EINVAL,
    }
}

impl Error {
    /// The transport error that a negative native return code `code` stands for.
    pub fn from_errno(code: i32) -> (r: Error)
        ensures
            r == Error::Io(code),
    {
        Error::Io(code)
    }

    /// The negative error code of this error, as the bus subsystem expects it.
    pub fn to_errno(&self) -> (r: i32)
        ensures
            r == errno_spec(*self),
            r < 0,
    {
        match self {
            Error::InvalidArgument => -EINVAL,
            Error::WouldBlock => -EAGAIN,
            Error::Io(code) => if *code < 0 { *code } else { -EIO },
            Error::InvalidState => -EINVAL,
            Error::PermissionDenied => -EPERM,
            Error::InvalidData => -EINVAL,
        }
    }
}

/// The outcome that a native return code `ret` stands for: negative is an error.
pub open spec fn status_spec(ret: i32) -> Result<(), Error> {
    if ret < 0 { Err(Error::Io(ret)) } else { Ok(()) }
}

/// Maps a native return code to a result: negative codes are transport errors.
pub fn to_result(ret: i32) -> (r: Result<(), Error>)
    ensures
        r == status_spec(ret),
{
    if ret < 0 {
        Err(Error::from_errno(ret))
    } else {
        Ok(())
    }
}

/// The native return code of an outcome: `0` on success, the negative error code otherwise.
pub fn to_errno_result(r: &Result<(), Error>) -> (code: i32)
    ensures
        match *r {
            Ok(()) => code == 0,
            Err(e) => code == errno_spec(e),
        },
{
    match r {
        Ok(()) => 0,
        Err(e) => e.to_errno(),
    }
}

} // verus!
