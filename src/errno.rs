//! Error values: an OS error code, or a path that cannot be handed to the OS.
use vstd::prelude::*;

verus! {

/// Invalid argument.
pub const EINVAL: i32 = 22;

/// File name too long.
pub const ENAMETOOLONG: i32 = 36;

/// An OS error number, as the platform reports it.
#[derive(Clone, Copy, Debug, PartialEq, Eq, Structural, Hash)]
pub struct Errno(pub i32);

impl Errno {
    pub fn code(&self) -> (r: i32)
        ensures
            r == self.0,
    {
        self.0
    }
}

/// Why a call failed.
#[derive(Clone, Copy, Debug, PartialEq, Eq, Structural, Hash)]
pub enum Error {
    /// The OS reported this error number.
    Sys(Errno),
    /// A path was too long or held a zero byte; no OS call was made.
    InvalidPath,
}

pub type NixResult<T> = Result<T, Error>;

/// Relies on `std::io::Error::last_os_error` and `raw_os_error`: the error
/// number that the last failing OS call of this thread left behind. An error
/// made by `last_os_error` always carries an OS error number.
#[verifier::external_body]
fn last_os_error_code() -> (r: Option<i32>)
    ensures
        r is Some,
{
    std::io::Error::last_os_error().raw_os_error()
}

impl Error {
    /// The error for the OS error number `code`, which is kept as it is.
    pub fn from_os_error(code: i32) -> (r: Error)
        ensures
            r == Error::Sys(Errno(code)),
    {
        Error::Sys(Errno(code))
    }

    /// The error left behind by the most recent failing OS call.
    pub fn last() -> (r: Error)
        ensures
            r is Sys,
    {
        Error::from_os_error(last_os_error_code().unwrap())
    }

    pub fn invalid_argument() -> (r: Error)
        ensures
            r == Error::Sys(Errno(EINVAL)),
    {
        Error::Sys(Errno(EINVAL))
    }

    pub open spec fn spec_errno(self) -> Errno {
        match self {
            Error::Sys(e) => e,
            Error::InvalidPath => Errno(EINVAL),
        }
    }

    /// The error number that stands for this error; an invalid path counts
    /// as an invalid argument.
    pub fn errno(&self) -> (r: Errno)
        ensures
            r == self.spec_errno(),
    {
        match *self {
            Error::Sys(e) => e,
            Error::InvalidPath => Errno(EINVAL),
        }
    }
}

/// The result of an OS call that returned `res` (zero on success), where
/// `code` is the error number the call left behind: `Ok` for zero, else the
/// OS error `code`.
pub fn ffi_result(res: i32, code: i32) -> (r: NixResult<()>)
    ensures
        res == 0 ==> r == Ok::<(), Error>(()),
        res != 0 ==> r == Err::<(), Error>(Error::Sys(Errno(code))),
{
    if res != 0 {
        return Err(Error::from_os_error(code));
    }
    Ok(())
}

/// The result of an OS call that returns zero on success: `Ok` for zero,
/// else the error that the call left behind. The error number is read only
/// when the call failed.
pub fn from_ffi(res: i32) -> (r: NixResult<()>)
    ensures
        r is Ok <==> res == 0,
        r matches Err(e) ==> e is Sys,
{
    if res == 0 {
        return Ok(());
    }
    ffi_result(res, last_os_error_code().unwrap())
}

} // verus!
