use vstd::prelude::*;
use crate::duration::Duration;
use crate::error::{ErrorKind, IoError, EINTR, EISCONN};
use crate::status::IsMinusOne;

verus! {

/// The file-status flag for non-blocking mode.
pub const O_NONBLOCK: i32 = 0x800;

/// `shutdown` codes of the platform's C library.
pub const SHUT_RD: i32 = 0;

pub const SHUT_WR: i32 = 1;

pub const SHUT_RDWR: i32 = 2;

/// A socket descriptor. Closing it on drop, and every call on it, is the
/// owner's part; this type holds the descriptor and decides what the calls
/// on it mean.
#[derive(Debug, PartialEq, Eq, Structural)]
pub struct Socket {
    fd: i32,
}

/// Which directions of a connection to shut down.
#[derive(Clone, Copy, Debug, PartialEq, Eq, Structural, Hash)]
pub enum Shutdown {
    Read,
    Write,
    Both,
}

/// A timeout as the socket option holds it: whole seconds and microseconds.
/// All zero means no timeout.
#[derive(Clone, Copy, Debug, PartialEq, Eq, Structural)]
pub struct Timeval {
    pub tv_sec: i32,
    pub tv_usec: i64,
}

impl Socket {
    /// The descriptor held.
    pub closed spec fn fd(self) -> i32 {
        self.fd
    }

    pub fn from_inner(fd: i32) -> (r: Socket)
        ensures
            r.fd() == fd,
    {
        Socket { fd }
    }

    pub fn as_raw(&self) -> (r: i32)
        ensures
            r == self.fd(),
    {
        self.fd
    }

    pub fn as_raw_fd(&self) -> (r: i32)
        ensures
            r == self.fd(),
    {
        self.fd
    }

    pub fn into_inner(self) -> (r: i32)
        ensures
            r == self.fd(),
    {
        self.fd
    }

    pub fn into_raw_fd(self) -> (r: i32)
        ensures
            r == self.fd(),
    {
        self.fd
    }

    /// The C library's `readv` is a stub here, so reads are never vectored.
    pub fn is_read_vectored(&self) -> (r: bool)
        ensures
            !r,
    {
        false
    }

    /// The C library's `writev` is a stub here, so writes are never vectored.
    pub fn is_write_vectored(&self) -> (r: bool)
        ensures
            !r,
    {
        false
    }

    /// The platform has no linger option: this always fails as unsupported.
    pub fn set_linger(&self, linger: Option<Duration>) -> (r: Result<(), IoError>)
        ensures
            r == Err::<(), IoError>(
                IoError::SimpleMessage(ErrorKind::Unsupported, "operation not supported on this platform"),
            ),
    {
        crate::error::unsupported()
    }

    /// The platform has no linger option: this always fails as unsupported.
    pub fn linger(&self) -> (r: Result<Option<Duration>, IoError>)
        ensures
            r == Err::<Option<Duration>, IoError>(
                IoError::SimpleMessage(ErrorKind::Unsupported, "operation not supported on this platform"),
            ),
    {
        crate::error::unsupported()
    }
}

/// The `shutdown` code for `how`.
pub fn shutdown_how(how: Shutdown) -> (r: i32)
    ensures
        r == match how {
            Shutdown::Read => SHUT_RD,
            Shutdown::Write => SHUT_WR,
            Shutdown::Both => SHUT_RDWR,
        },
{
    match how {
        Shutdown::Read => SHUT_RD,
        Shutdown::Write => SHUT_WR,
        Shutdown::Both => SHUT_RDWR,
    }
}

/// The option value that sets a receive or send timeout of `dur`, where
/// `None` turns the timeout off. A zero duration is refused, since zero is
/// how the option says "no timeout"; seconds beyond the option's range are
/// clamped, and a span below one microsecond becomes one microsecond.
pub fn timeout_timeval(dur: Option<Duration>) -> (r: Result<Timeval, IoError>)
    ensures
        match dur {
            None => r == Ok::<Timeval, IoError>(Timeval { tv_sec: 0, tv_usec: 0 }),
            Some(d) => if d@ == 0 {
                r == Err::<Timeval, IoError>(
                    IoError::SimpleMessage(ErrorKind::InvalidInput, "cannot set a 0 duration timeout"),
                )
            } else if d@ < 1_000 {
                r == Ok::<Timeval, IoError>(Timeval { tv_sec: 0, tv_usec: 1 })
            } else {
                (r matches Ok(tv) && tv.tv_sec == (if d@ / 1_000_000_000 > i32::MAX {
                    i32::MAX as int
                } else {
                    d@ / 1_000_000_000
                }) && tv.tv_usec == (d@ % 1_000_000_000) / 1_000)
            },
        },
{
    match dur {
        None => Ok(Timeval { tv_sec: 0, tv_usec: 0 }),
        Some(d) => {
            if d.is_zero() {
                return Err(
                    IoError::SimpleMessage(ErrorKind::InvalidInput, "cannot set a 0 duration timeout"),
                );
            }
            let secs = d.as_secs();
            let tv_sec: i32 = if secs > i32::MAX as u64 {
                i32::MAX
            } else {
                secs as i32
            };
            let mut tv = Timeval { tv_sec, tv_usec: d.subsec_micros() as i64 };
            proof {
                vstd::arithmetic::div_mod::lemma_fundamental_div_mod(d@, 1_000_000_000);
            }
            if tv.tv_sec == 0 && tv.tv_usec == 0 {
                tv.tv_usec = 1;
            }
            Ok(tv)
        },
    }
}

/// The timeout that the option value `tv` holds: `None` where it is all zero.
/// Negative seconds are read as the unsigned value of the same bits.
pub fn timeval_timeout(tv: Timeval) -> (r: Option<Duration>)
    requires
        0 <= tv.tv_usec < 1_000_000,
    ensures
        (tv.tv_sec == 0 && tv.tv_usec == 0) ==> r is None,
        !(tv.tv_sec == 0 && tv.tv_usec == 0) ==> (r matches Some(d) && d@ == (tv.tv_sec as u64)
            as int * 1_000_000_000 + tv.tv_usec as int * 1_000),
{
    if tv.tv_sec == 0 && tv.tv_usec == 0 {
        None
    } else {
        let nanos: u32 = (tv.tv_usec as u32) * 1_000;
        Some(Duration::new(tv.tv_sec as u64, nanos))
    }
}

/// The file-status flags after switching non-blocking mode to `nonblocking`.
pub open spec fn nonblocking_flags_spec(previous: i32, nonblocking: bool) -> i32 {
    if nonblocking {
        previous | O_NONBLOCK
    } else {
        previous & !O_NONBLOCK
    }
}

/// The flags to write to switch non-blocking mode to `nonblocking` when the
/// descriptor's flags are `previous`, or `None` where they already say so and
/// nothing needs writing.
pub fn nonblocking_flags(previous: i32, nonblocking: bool) -> (r: Option<i32>)
    ensures
        nonblocking_flags_spec(previous, nonblocking) != previous ==> r == Some(
            nonblocking_flags_spec(previous, nonblocking),
        ),
        nonblocking_flags_spec(previous, nonblocking) == previous ==> r is None,
{
    let new = if nonblocking {
        previous | O_NONBLOCK
    } else {
        previous & !O_NONBLOCK
    };
    if new != previous {
        Some(new)
    } else {
        None
    }
}

/// Switching non-blocking mode to the same setting twice writes the flags at
/// most once: after the first switch, whether it wrote or not, the second
/// finds nothing to write.
pub proof fn lemma_nonblocking_twice(previous: i32, nonblocking: bool)
    ensures
        nonblocking_flags_spec(nonblocking_flags_spec(previous, nonblocking), nonblocking)
            == nonblocking_flags_spec(previous, nonblocking),
{
    let f = O_NONBLOCK;
    if nonblocking {
        assert((previous | f) | f == previous | f) by (bit_vector);
    } else {
        assert((previous & !f) & !f == previous & !f) by (bit_vector);
    }
}

/// The pending error that the socket option value `raw` reports: `None` for
/// zero.
pub fn take_error_from_raw(raw: i32) -> (r: Option<IoError>)
    ensures
        raw == 0 ==> r is None,
        raw != 0 ==> r == Some(IoError::Os(raw)),
{
    if raw == 0 {
        None
    } else {
        Some(IoError::from_raw_os_error(raw))
    }
}

/// What one blocking connect attempt came to, from its return value and the
/// error code it left: `None` where it was interrupted and is to be made
/// again; an "already connected" report counts as success.
pub fn connect_step(result: i32, errno: i32) -> (r: Option<Result<(), IoError>>)
    ensures
        result != -1 ==> r == Some(Ok::<(), IoError>(())),
        result == -1 && errno == EINTR ==> r is None,
        result == -1 && errno == EISCONN ==> r == Some(Ok::<(), IoError>(())),
        result == -1 && errno != EINTR && errno != EISCONN ==> r == Some(
            Err::<(), IoError>(IoError::Os(errno)),
        ),
{
    if result.is_minus_one() {
        if errno == EINTR {
            None
        } else if errno == EISCONN {
            Some(Ok(()))
        } else {
            Some(Err(IoError::from_raw_os_error(errno)))
        }
    } else {
        Some(Ok(()))
    }
}

} // verus!
