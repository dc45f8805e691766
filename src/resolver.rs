use vstd::prelude::*;
use crate::error::{ErrorKind, IoError};

verus! {

/// The resolver delegated to an OS call that failed; the OS error tells more.
pub const EAI_SYSTEM: i32 = 11;

/// "No data": on this platform it may also mean that the network is down.
pub const EAI_NODATA: i32 = 7;

/// What a resolver status code calls for.
#[derive(Clone, Copy, Debug, PartialEq, Eq, Structural, Hash)]
pub enum GaiOutcome {
    /// The lookup succeeded.
    Success,
    /// Fail with the last OS error.
    LastOsError,
    /// Ask whether the network is available, then fail with `no_data_error`.
    ProbeNetwork,
    /// Fail with the resolver's own description of the code.
    Describe,
}

/// How a nonzero resolver status code is to be turned into an error; zero
/// is success.
pub fn cvt_gai(err: i32) -> (r: GaiOutcome)
    ensures
        err == 0 ==> r == GaiOutcome::Success,
        err == EAI_SYSTEM ==> r == GaiOutcome::LastOsError,
        err == EAI_NODATA ==> r == GaiOutcome::ProbeNetwork,
        err != 0 && err != EAI_SYSTEM && err != EAI_NODATA ==> r == GaiOutcome::Describe,
{
    if err == 0 {
        GaiOutcome::Success
    } else if err == EAI_SYSTEM {
        GaiOutcome::LastOsError
    } else if err == EAI_NODATA {
        GaiOutcome::ProbeNetwork
    } else {
        GaiOutcome::Describe
    }
}

/// The error for the "no data" code once the network probe has answered:
/// network-down where the network is unavailable, and otherwise an unknown
/// networking error.
pub fn no_data_error(network_available: bool) -> (r: IoError)
    ensures
        !network_available ==> r == IoError::Simple(ErrorKind::NetworkDown),
        network_available ==> r == IoError::SimpleMessage(
            ErrorKind::Other,
            "an unknown networking error has occurred",
        ),
{
    if !network_available {
        IoError::Simple(ErrorKind::NetworkDown)
    } else {
        IoError::SimpleMessage(ErrorKind::Other, "an unknown networking error has occurred")
    }
}

/// The error for a resolver code that the resolver itself describes as
/// `detail`.
pub fn lookup_error(detail: &str) -> (r: IoError)
    ensures
        r matches IoError::Custom(k, m) && k == ErrorKind::Other && m@
            == "failed to lookup address information: "@ + detail@,
{
    let msg = "failed to lookup address information: ".to_owned().concat(detail);
    IoError::Custom(ErrorKind::Other, msg)
}

/// The outcome of resolver status `err`, given what `cvt_gai` asked for:
/// `last_os_error` is read only for a system failure, `network_available`
/// only for "no data", and `detail`, the resolver's description of `err`,
/// only for any other nonzero code.
pub fn gai_result(err: i32, last_os_error: i32, network_available: bool, detail: &str) -> (r: Result<
    (),
    IoError,
>)
    ensures
        err == 0 ==> r is Ok,
        err == EAI_SYSTEM ==> r == Err::<(), IoError>(IoError::Os(last_os_error)),
        err == EAI_NODATA && !network_available ==> r == Err::<(), IoError>(
            IoError::Simple(ErrorKind::NetworkDown),
        ),
        err == EAI_NODATA && network_available ==> r == Err::<(), IoError>(
            IoError::SimpleMessage(ErrorKind::Other, "an unknown networking error has occurred"),
        ),
        err != 0 && err != EAI_SYSTEM && err != EAI_NODATA ==> (r matches Err(
            IoError::Custom(k, m),
        ) && k == ErrorKind::Other && m@ == "failed to lookup address information: "@ + detail@),
{
    match cvt_gai(err) {
        GaiOutcome::Success => Ok(()),
        GaiOutcome::LastOsError => Err(IoError::from_raw_os_error(last_os_error)),
        GaiOutcome::ProbeNetwork => Err(no_data_error(network_available)),
        GaiOutcome::Describe => Err(lookup_error(detail)),
    }
}

/// Whether a failed lookup must first reset the resolver's cached
/// configuration: only with a GNU C library older than 2.26, whose resolver
/// keeps a stale copy. `glibc_version` is `None` for any other C library.
pub fn on_resolver_failure(glibc_version: Option<(u32, u32)>) -> (r: bool)
    ensures
        r == (glibc_version matches Some((major, minor)) && (major < 2 || (major == 2 && minor
            < 26))),
{
    match glibc_version {
        Some((major, minor)) => major < 2 || (major == 2 && minor < 26),
        None => false,
    }
}

} // verus!
