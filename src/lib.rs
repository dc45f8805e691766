//! Platform layer for a console operating system: status-code conversion,
//! clock arithmetic, socket option encoding and the decision logic of
//! connect-with-deadline, with the OS calls themselves left to the caller.

pub mod duration;
pub mod time;
pub mod error;
pub mod status;
pub mod path;
pub mod connect;
pub mod socket;
pub mod resolver;
pub mod netinit;
pub mod target;
pub mod addr;
