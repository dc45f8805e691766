use vstd::prelude::*;

verus! {

/// Interrupted system call.
pub const EINTR: i32 = 4;

/// The socket is already connected.
pub const EISCONN: i32 = 106;

/// A non-blocking connect has started and not yet finished.
pub const EINPROGRESS: i32 = 115;

/// Coarse classification of an error.
#[derive(Clone, Copy, Debug, PartialEq, Eq, Structural, Hash)]
pub enum ErrorKind {
    InvalidInput,
    TimedOut,
    NetworkDown,
    Unsupported,
    Other,
    Uncategorized,
}

/// An I/O failure: a raw OS error code, a bare kind, a kind with a fixed
/// message, or a kind with a message built at run time.
#[derive(Clone, Debug, PartialEq, Eq)]
pub enum IoError {
    Os(i32),
    Simple(ErrorKind),
    SimpleMessage(ErrorKind, &'static str),
    Custom(ErrorKind, String),
}

/// The kind that an error classifies as.
pub open spec fn kind_of(e: IoError) -> ErrorKind {
    match e {
        IoError::Os(_) => ErrorKind::Uncategorized,
        IoError::Simple(k) => k,
        IoError::SimpleMessage(k, _) => k,
        IoError::Custom(k, _) => k,
    }
}

/// Whether an error is an OS report of an interrupted call.
pub open spec fn interrupted(e: IoError) -> bool {
    e matches IoError::Os(code) && code == EINTR
}

impl IoError {
    /// The error of the OS error code `code`.
    pub fn from_raw_os_error(code: i32) -> (r: IoError)
        ensures
            r == IoError::Os(code),
    {
        IoError::Os(code)
    }

    /// The error code, where this is an OS error.
    pub fn raw_os_error(&self) -> (r: Option<i32>)
        ensures
            r == (match *self {
                IoError::Os(code) => Some(code),
                _ => None::<i32>,
            }),
    {
        match self {
            IoError::Os(code) => Some(*code),
            _ => None,
        }
    }

    pub fn kind(&self) -> (r: ErrorKind)
        ensures
            r == kind_of(*self),
    {
        match self {
            IoError::Os(code) => decode_error_kind(*code),
            IoError::Simple(k) => *k,
            IoError::SimpleMessage(k, _) => *k,
            IoError::Custom(k, _) => *k,
        }
    }

    pub fn is_interrupted(&self) -> (r: bool)
        ensures
            r == interrupted(*self),
    {
        match self {
            IoError::Os(code) => is_interrupted(*code),
            _ => false,
        }
    }
}

/// Whether the OS error code `code` reports an interrupted call.
pub fn is_interrupted(code: i32) -> (r: bool)
    ensures
        r == (code == EINTR),
{
    code == EINTR
}

/// The platform cannot tell error codes apart beyond their value, so every
/// code classifies as uncategorized.
pub fn decode_error_kind(code: i32) -> (r: ErrorKind)
    ensures
        r == ErrorKind::Uncategorized,
{
    ErrorKind::Uncategorized
}

/// The text of error code `errno`: the platform knows only success and
/// failure.
pub fn error_string(errno: i32) -> (r: String)
    ensures
        errno == 0 ==> r@ == "operation successful"@,
        errno != 0 ==> r@ == "unknown error"@,
{
    if errno == 0 {
        "operation successful".to_owned()
    } else {
        "unknown error".to_owned()
    }
}

/// The error of an operation that this platform does not offer.
pub fn unsupported_err() -> (r: IoError)
    ensures
        r == IoError::SimpleMessage(ErrorKind::Unsupported, "operation not supported on this platform"),
{
    IoError::SimpleMessage(ErrorKind::Unsupported, "operation not supported on this platform")
}

/// Fails with `unsupported_err()`.
pub fn unsupported<T>() -> (r: Result<T, IoError>)
    ensures
        r == Err::<T, IoError>(
            IoError::SimpleMessage(ErrorKind::Unsupported, "operation not supported on this platform"),
        ),
{
    Err(unsupported_err())
}

} // verus!
